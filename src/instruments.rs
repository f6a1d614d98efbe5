//! Table from short camera codes to the catalog's search tokens.

use crate::remotequery::FetchError;
use crate::text::{copy_strings, to_upper, upper_of, views};
use vstd::prelude::*;
use vstd::string::StringExecFns;

verus! {

/// One code of the table with the tokens it expands to.
pub struct InstrumentEntry {
    pub code: String,
    pub tokens: Vec<String>,
}

/// A mission's static table of camera codes. A lookup upper-cases the code it
/// is given and compares it with the stored codes exactly; a well-formed table
/// stores each code once, in ASCII capitals and digits.
pub struct InstrumentMap {
    pub entries: Vec<InstrumentEntry>,
}

/// Every character is an ASCII capital letter or digit.
pub open spec fn is_upper_code(s: Seq<char>) -> bool {
    forall|i: int|
        0 <= i < s.len() ==> (('A' as u32 <= #[trigger] s[i] as u32 <= 'Z' as u32) || ('0' as u32
            <= s[i] as u32 <= '9' as u32))
}

impl InstrumentMap {
    /// Codes are distinct and written in ASCII capitals and digits.
    pub open spec fn wf(&self) -> bool {
        &&& forall|i: int, j: int|
            0 <= i < j < self.entries@.len() ==> #[trigger] self.entries@[i].code@
                != #[trigger] self.entries@[j].code@
        &&& forall|i: int|
            0 <= i < self.entries@.len() ==> is_upper_code(#[trigger] self.entries@[i].code@)
    }
}

/// The table as pairs of code and token sequences.
pub open spec fn entries_view(e: Seq<InstrumentEntry>) -> Seq<(Seq<char>, Seq<Seq<char>>)> {
    e.map_values(|x: InstrumentEntry| (x.code@, views(x.tokens@)))
}

impl View for InstrumentMap {
    type V = Seq<(Seq<char>, Seq<Seq<char>>)>;

    open spec fn view(&self) -> Self::V {
        entries_view(self.entries@)
    }
}

/// The tokens of the first entry whose code is `key`.
pub open spec fn lookup(table: Seq<(Seq<char>, Seq<Seq<char>>)>, key: Seq<char>) -> Option<
    Seq<Seq<char>>,
>
    decreases table.len(),
{
    if table.len() == 0 {
        None
    } else if table[0].0 == key {
        Some(table[0].1)
    } else {
        lookup(table.drop_first(), key)
    }
}

/// The tokens of `codes`, each expanded in turn, or `None` as soon as one code
/// is not in the table.
pub open spec fn resolve_all(table: Seq<(Seq<char>, Seq<Seq<char>>)>, codes: Seq<Seq<char>>) -> Option<
    Seq<Seq<char>>,
>
    decreases codes.len(),
{
    if codes.len() == 0 {
        Some(Seq::empty())
    } else {
        match resolve_all(table, codes.drop_last()) {
            None => None,
            Some(prefix) => match lookup(table, codes.last()) {
                None => None,
                Some(t) => Some(prefix + t),
            },
        }
    }
}

/// The upper-case forms of a list of codes.
pub open spec fn uppers(codes: Seq<String>) -> Seq<Seq<char>> {
    codes.map_values(|s: String| upper_of(s@))
}

/// Resolution of a list of codes fails as soon as one of them is unknown.
pub proof fn lemma_unknown_code_fails_batch(
    table: Seq<(Seq<char>, Seq<Seq<char>>)>,
    codes: Seq<Seq<char>>,
    i: int,
)
    requires
        0 <= i < codes.len(),
        lookup(table, codes[i]) is None,
    ensures
        resolve_all(table, codes) is None,
    decreases codes.len(),
{
    if i < codes.len() - 1 {
        lemma_unknown_code_fails_batch(table, codes.drop_last(), i);
    }
}

/// Resolution ignores case: two lists of codes whose upper-case forms agree one
/// by one resolve to the same tokens, or both fail.
pub proof fn lemma_resolution_ignores_case(m: InstrumentMap, a: Seq<String>, b: Seq<String>)
    requires
        a.len() == b.len(),
        forall|i: int| 0 <= i < a.len() ==> upper_of(#[trigger] a[i]@) == upper_of(b[i]@),
    ensures
        resolve_all(m@, uppers(a)) == resolve_all(m@, uppers(b)),
{
    assert(uppers(a) =~= uppers(b));
}

impl InstrumentMap {
    /// The tokens for an already upper-cased code.
    pub fn find_upper(&self, code: &str) -> (r: Option<Vec<String>>)
        ensures
            r matches Some(v) ==> lookup(self@, code@) == Some(views(v@)),
            r is None <==> lookup(self@, code@) is None,
    {
        let key = String::from_str(code);
        let mut i: usize = 0;
        assert(self@.subrange(0, self@.len() as int) =~= self@);
        while i < self.entries.len()
            invariant
                i <= self.entries.len(),
                key@ == code@,
                lookup(self@, code@) == lookup(self@.subrange(i as int, self@.len() as int), code@),
            decreases self.entries.len() - i,
        {
            let ghost rest = self@.subrange(i as int, self@.len() as int);
            assert(rest.drop_first() =~= self@.subrange(i + 1, self@.len() as int));
            if self.entries[i].code == key {
                return Some(copy_strings(&self.entries[i].tokens));
            }
            i = i + 1;
        }
        None
    }

    /// The tokens for one code, ignoring case.
    pub fn find_remote_instrument_names(&self, instrument: &String) -> (r: Result<
        Vec<String>,
        FetchError,
    >)
        ensures
            r matches Ok(v) ==> lookup(self@, upper_of(instrument@)) == Some(views(v@)),
            r matches Err(e) ==> lookup(self@, upper_of(instrument@)) is None && e
                == FetchError::InvalidInstrument(*instrument),
            r is Err <==> lookup(self@, upper_of(instrument@)) is None,
    {
        let up = to_upper(instrument.as_str());
        match self.find_upper(up.as_str()) {
            Some(v) => Ok(v),
            None => Err(FetchError::InvalidInstrument(instrument.clone())),
        }
    }

    /// The tokens for a list of codes, in order, ignoring case. An unknown code
    /// fails the whole list, naming the first unknown code.
    pub fn find_remote_instrument_names_fromlist(&self, instruments: &Vec<String>) -> (r: Result<
        Vec<String>,
        FetchError,
    >)
        ensures
            r matches Ok(v) ==> resolve_all(self@, uppers(instruments@)) == Some(views(v@)),
            r is Err <==> resolve_all(self@, uppers(instruments@)) is None,
            r matches Err(e) ==> exists|j: int|
                0 <= j < instruments@.len() && e == FetchError::InvalidInstrument(instruments@[j])
                    && lookup(self@, upper_of(instruments@[j]@)) is None && resolve_all(
                    self@,
                    uppers(instruments@.take(j)),
                ) is Some,
    {
        let mut out: Vec<String> = Vec::new();
        let mut i: usize = 0;
        while i < instruments.len()
            invariant
                i <= instruments.len(),
                resolve_all(self@, uppers(instruments@.take(i as int))) == Some(views(out@)),
            decreases instruments.len() - i,
        {
            let ghost pre = uppers(instruments@.take(i as int));
            assert(uppers(instruments@.take(i + 1)).drop_last() =~= pre);
            match self.find_remote_instrument_names(&instruments[i]) {
                Ok(v) => {
                    let ghost old_out = out@;
                    let mut v = v;
                    let ghost added = v@;
                    out.append(&mut v);
                    assert(views(out@) =~= views(old_out) + views(added));
                },
                Err(e) => {
                    proof {
                        lemma_unknown_code_fails_batch(self@, uppers(instruments@), i as int);
                        assert(uppers(instruments@.take(i as int)) =~= pre);
                    }
                    return Err(e);
                },
            }
            i = i + 1;
        }
        assert(instruments@.take(i as int) =~= instruments@);
        Ok(out)
    }

    /// The codes of the table, in table order.
    pub fn list_known(&self) -> (r: Vec<String>)
        ensures
            views(r@) == self.entries@.map_values(|x: InstrumentEntry| x.code@),
    {
        let mut out: Vec<String> = Vec::new();
        let mut i: usize = 0;
        while i < self.entries.len()
            invariant
                i <= self.entries.len(),
                views(out@) == self.entries@.take(i as int).map_values(|x: InstrumentEntry| x.code@),
            decreases self.entries.len() - i,
        {
            let c = self.entries[i].code.clone();
            let ghost prev = out@;
            out.push(c);
            assert(out@ =~= prev.push(c));
            assert(views(out@) =~= views(prev).push(c@));
            assert(views(out@) =~= self.entries@.take(i + 1).map_values(
                |x: InstrumentEntry| x.code@,
            ));
            i = i + 1;
        }
        assert(self.entries@.take(i as int) =~= self.entries@);
        out
    }
}

} // verus!
