//! The options of the `fetch` command and the query they describe.

use crate::instruments::{lookup, resolve_all, uppers, InstrumentMap};
use crate::remotequery::{FetchError, RemoteQuery};
use crate::text::{copy_strings, upper_of, views};
use vstd::prelude::*;
use vstd::string::StringExecFns;

verus! {

/// Results per page when none is asked for.
pub const DEFAULT_NUM_PER_PAGE: u32 = 100;

/// The options of the `fetch` command.
pub struct PsycheFetch {
    /// Camera codes.
    pub camera: Vec<String>,
    pub date: Option<String>,
    /// Earliest receipt date.
    pub mindate: Option<String>,
    /// Latest receipt date.
    pub maxdate: Option<String>,
    /// List only, download nothing.
    pub list: bool,
    /// Results per page.
    pub num: Option<u32>,
    pub page: Option<u8>,
    pub filter_num: Option<u8>,
    /// Substrings of which an image id must hold one.
    pub filter: Option<Vec<String>>,
    /// List the known camera codes.
    pub instruments: bool,
    /// Output directory.
    pub output: Option<String>,
    /// Only images not downloaded yet.
    pub new: bool,
}

/// An optional string's characters, or `default` when it is absent.
pub open spec fn or_default(s: Option<String>, default: Seq<char>) -> Seq<char> {
    match s {
        Some(v) => v@,
        None => default,
    }
}

/// Copies an optional string, or builds `default` when it is absent.
fn string_or(s: &Option<String>, default: &str) -> (r: String)
    ensures
        r@ == or_default(*s, default@),
{
    match s {
        Some(v) => v.clone(),
        None => String::from_str(default),
    }
}

impl PsycheFetch {
    /// The query these options describe. The camera codes are resolved through
    /// `map`, ignoring case; an unknown one fails the whole with
    /// `InvalidInstrument`. Dates default to 2000-01-01 and 2100-01-01, the page
    /// size to 100 and the output directory to `cwd`.
    pub fn build_query(&self, map: &InstrumentMap, cwd: String) -> (r: Result<RemoteQuery, FetchError>)
        requires
            self.num != Some(0u32),
        ensures
            r is Err <==> resolve_all(map@, uppers(self.camera@)) is None,
            r matches Err(e) ==> exists|j: int|
                0 <= j < self.camera@.len() && e == FetchError::InvalidInstrument(self.camera@[j])
                    && lookup(map@, upper_of(self.camera@[j]@)) is None,
            r matches Ok(q) ==> {
                &&& q.wf()
                &&& resolve_all(map@, uppers(self.camera@)) == Some(views(q.cameras@))
                &&& q.num_per_page == (match self.num {
                    Some(n) => n,
                    None => DEFAULT_NUM_PER_PAGE,
                })
                &&& q.page == (match self.page {
                    Some(p) => Some(p as u32),
                    None => None,
                })
                &&& q.min_date@ == or_default(self.mindate, "2000-01-01"@)
                &&& q.max_date@ == or_default(self.maxdate, "2100-01-01"@)
                &&& q.list_only == self.list
                &&& q.search@ == (match self.filter {
                    Some(f) => f@,
                    None => Seq::empty(),
                })
                &&& q.only_new == self.new
                &&& q.filter_num == self.filter_num
                &&& (q.filter is Some <==> self.filter is Some)
                &&& (q.filter is Some ==> q.filter.unwrap()@ == self.filter.unwrap()@)
                &&& q.output_path@ == or_default(self.output, cwd@)
            },
    {
        let cameras = match map.find_remote_instrument_names_fromlist(&self.camera) {
            Ok(v) => v,
            Err(e) => {
                return Err(e);
            },
        };
        let num_per_page = match self.num {
            Some(n) => n,
            None => DEFAULT_NUM_PER_PAGE,
        };
        let page = match self.page {
            Some(p) => Some(p as u32),
            None => None,
        };
        let search = match &self.filter {
            Some(f) => copy_strings(f),
            None => Vec::new(),
        };
        let filter = match &self.filter {
            Some(f) => Some(copy_strings(f)),
            None => None,
        };
        let output_path = match &self.output {
            Some(o) => o.clone(),
            None => cwd,
        };
        Ok(RemoteQuery {
            cameras,
            num_per_page,
            page,
            min_date: string_or(&self.mindate, "2000-01-01"),
            max_date: string_or(&self.maxdate, "2100-01-01"),
            list_only: self.list,
            search,
            only_new: self.new,
            filter_num: self.filter_num,
            filter,
            output_path,
        })
    }
}

} // verus!
