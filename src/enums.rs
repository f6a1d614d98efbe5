//! Missions, instruments and calibration file kinds.

use crate::text::{to_upper, upper_of};
use vstd::string::StringExecFns;
use std::num::ParseIntError;
use std::str::FromStr;
use vstd::prelude::*;

verus! {

/// Error type of integer parsing, the error type of `Instrument`'s parse.
#[verifier::external_type_specification]
#[verifier::external_body]
pub struct ExParseIntError(ParseIntError);

/// Supported missions.
#[derive(Debug, Copy, Clone, PartialEq, Eq, Hash)]
pub enum Mission {
    PSYCHE,
}

/// Supported instruments.
#[derive(Debug, Copy, Clone, PartialEq, Eq, Structural)]
pub enum Instrument {
    PsycheImagerA,
    PsycheImagerB,
    Unknown,
}

/// The instrument named by an upper-case code; anything else is `Unknown`.
pub open spec fn instrument_of_upper(code: Seq<char>) -> Instrument {
    if code == "A"@ {
        Instrument::PsycheImagerA
    } else if code == "B"@ {
        Instrument::PsycheImagerB
    } else {
        Instrument::Unknown
    }
}

impl Instrument {
    /// The instrument named by an already upper-cased code.
    pub fn from_upper(code: &str) -> (r: Instrument)
        ensures
            r == instrument_of_upper(code@),
    {
        let s = <String as StringExecFns>::from_str(code);
        let a = <String as StringExecFns>::from_str("A");
        let b = <String as StringExecFns>::from_str("B");
        if s == a {
            Instrument::PsycheImagerA
        } else if s == b {
            Instrument::PsycheImagerB
        } else {
            Instrument::Unknown
        }
    }

    /// The instrument named by a code, ignoring case. Every code names one,
    /// `Unknown` at worst, so this never fails.
    pub fn from_str(s: &str) -> (r: Result<Instrument, ParseIntError>)
        ensures
            r matches Ok(i) && i == instrument_of_upper(upper_of(s@)),
    {
        let up = to_upper(s);
        Ok(Instrument::from_upper(up.as_str()))
    }
}

impl FromStr for Instrument {
    type Err = ParseIntError;

    fn from_str(s: &str) -> Result<Instrument, ParseIntError> {
        Instrument::from_str(s)
    }
}

impl Default for Instrument {
    fn default() -> (r: Instrument)
        ensures
            r == Instrument::Unknown,
    {
        Instrument::Unknown
    }
}

/// Kinds of calibration file.
#[derive(Debug, Copy, Clone, PartialEq, Eq)]
pub enum CalFileType {
    FlatField,
    InpaintMask,
    Mask,
    Lut,
}

} // verus!
