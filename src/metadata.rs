//! The mission-independent record of one catalog image.

use vstd::prelude::*;
use vstd::string::{StrSliceExecFns, StringExecFns};

verus! {

/// One catalog image, whatever the mission. The spacecraft clock is kept as
/// the IEEE-754 bit pattern of its double-precision value.
#[derive(Clone)]
pub struct Metadata {
    pub id: u32,
    pub imageid: String,
    pub url: String,
    pub date_taken_utc: String,
    pub date_received: String,
    pub width: u32,
    pub height: u32,
    pub instrument: String,
    pub camera_name: String,
    pub camera_title: String,
    pub filter: u32,
    pub filter_name: String,
    pub filter_wavelength: String,
    pub target: Option<String>,
    pub distance: Option<u32>,
    pub orbit_number: Option<u32>,
    pub spacecraft_clock_bits: Option<u64>,
    pub created_at: String,
    pub updated_at: String,
}

/// Copies an optional string.
pub fn copy_opt_string(s: &Option<String>) -> (r: Option<String>)
    ensures
        r == *s,
{
    match s {
        Some(t) => Some(t.clone()),
        None => None,
    }
}

/// What follows the last `/` of `s`, or all of `s` when it holds none.
pub open spec fn last_segment(s: Seq<char>) -> Seq<char>
    decreases s.len(),
{
    if s.len() == 0 {
        s
    } else if s.last() == '/' {
        Seq::empty()
    } else {
        last_segment(s.drop_last()).push(s.last())
    }
}

/// The name of the file that holds a record's image: the last segment of its
/// URL, or its image id when that segment is empty.
pub open spec fn image_file_name(url: Seq<char>, imageid: Seq<char>) -> Seq<char> {
    if last_segment(url).len() == 0 {
        imageid
    } else {
        last_segment(url)
    }
}

/// What follows the last `/` of `s`, or all of `s` when it holds none.
pub fn url_last_segment(s: &str) -> (r: String)
    ensures
        r@ == last_segment(s@),
{
    let n = s.unicode_len();
    let mut i: usize = n;
    assert(s@.take(n as int) =~= s@);
    assert(s@ + s@.subrange(n as int, n as int) =~= s@);
    while i > 0 && s.get_char(i - 1) != '/'
        invariant
            i <= n,
            n == s@.len(),
            last_segment(s@) == last_segment(s@.take(i as int)) + s@.subrange(i as int, n as int),
        decreases i,
    {
        proof {
            let t = s@.take(i as int);
            assert(t.drop_last() =~= s@.take(i - 1));
            assert(t.last() == s@[i - 1]);
            assert(s@.subrange(i - 1, n as int) =~= seq![s@[i - 1]] + s@.subrange(i as int, n as int));
            assert(last_segment(t) == last_segment(s@.take(i - 1)).push(s@[i - 1]));
            assert(last_segment(t) + s@.subrange(i as int, n as int) =~= last_segment(s@.take(i - 1))
                + s@.subrange(i - 1, n as int));
        }
        i = i - 1;
    }
    proof {
        if i > 0 {
            assert(s@.take(i as int).last() == s@[i - 1]);
        }
        assert(last_segment(s@.take(i as int)) =~= Seq::<char>::empty());
        assert(last_segment(s@) =~= s@.subrange(i as int, n as int));
    }
    String::from_str(s.substring_char(i, n))
}

impl Metadata {
    /// The name of the file that holds this record's image.
    pub fn file_name(&self) -> (r: String)
        ensures
            r@ == image_file_name(self.url@, self.imageid@),
    {
        let seg = url_last_segment(self.url.as_str());
        if seg.unicode_len() == 0 {
            self.imageid.clone()
        } else {
            seg
        }
    }
}

} // verus!
