//! The Psyche catalog: its record shape, its request parameters, its
//! instrument table and the reading of its answers.

use crate::instruments::{is_upper_code, InstrumentEntry, InstrumentMap};
use crate::metadata::{copy_opt_string, Metadata};
use crate::remotequery::{pages_for, stats_from_counts, Fetch, FetchError, RemoteQuery, RemoteStats};
use crate::text::{decimal, is_substring, join, join_strings, str_contains, u32_to_decimal, views};
use vstd::prelude::*;
use vstd::string::StringExecFns;

verus! {

/// One record as the Psyche catalog returns it. The spacecraft clock is kept
/// as the IEEE-754 bit pattern of its double-precision value.
pub struct ImageRecord {
    pub id: u32,
    pub imageid: String,
    pub url: String,
    pub date_taken_utc: String,
    pub date_received: String,
    pub width: u32,
    pub height: u32,
    pub instrument: String,
    pub camera_name: String,
    pub camera_title: String,
    pub filter: u32,
    pub filter_name: String,
    pub filter_wavelength: String,
    pub target: Option<String>,
    pub distance: Option<u32>,
    pub orbit_number: Option<u32>,
    pub spacecraft_clock_bits: Option<u64>,
    pub created_at: String,
    pub updated_at: String,
}

/// One page of catalog results.
pub struct PsycheApiResults {
    pub items: Vec<ImageRecord>,
    pub per_page: String,
    /// Records over all pages.
    pub total: u32,
    /// Index of this page.
    pub page: u32,
}

/// The canonical record of a Psyche record: every field carried over.
pub open spec fn md_of(im: ImageRecord) -> Metadata {
    Metadata {
        id: im.id,
        imageid: im.imageid,
        url: im.url,
        date_taken_utc: im.date_taken_utc,
        date_received: im.date_received,
        width: im.width,
        height: im.height,
        instrument: im.instrument,
        camera_name: im.camera_name,
        camera_title: im.camera_title,
        filter: im.filter,
        filter_name: im.filter_name,
        filter_wavelength: im.filter_wavelength,
        target: im.target,
        distance: im.distance,
        orbit_number: im.orbit_number,
        spacecraft_clock_bits: im.spacecraft_clock_bits,
        created_at: im.created_at,
        updated_at: im.updated_at,
    }
}

/// Projects a Psyche record onto the canonical record.
pub fn convert_to_std_metadata(im: &ImageRecord) -> (r: Metadata)
    ensures
        r == md_of(*im),
{
    Metadata {
        id: im.id,
        imageid: im.imageid.clone(),
        url: im.url.clone(),
        date_taken_utc: im.date_taken_utc.clone(),
        date_received: im.date_received.clone(),
        width: im.width,
        height: im.height,
        instrument: im.instrument.clone(),
        camera_name: im.camera_name.clone(),
        camera_title: im.camera_title.clone(),
        filter: im.filter,
        filter_name: im.filter_name.clone(),
        filter_wavelength: im.filter_wavelength.clone(),
        target: copy_opt_string(&im.target),
        distance: im.distance,
        orbit_number: im.orbit_number,
        spacecraft_clock_bits: im.spacecraft_clock_bits,
        created_at: im.created_at.clone(),
        updated_at: im.updated_at.clone(),
    }
}

/// A record is kept when there are no search terms, or when its image id
/// holds one of them (case-sensitive).
pub open spec fn keeps(search: Seq<Seq<char>>, imageid: Seq<char>) -> bool {
    search.len() == 0 || exists|i: int| 0 <= i < search.len() && is_substring(#[trigger] search[i], imageid)
}

/// The canonical records of the kept records, in their order.
pub open spec fn filter_records(items: Seq<ImageRecord>, search: Seq<Seq<char>>) -> Seq<Metadata>
    decreases items.len(),
{
    if items.len() == 0 {
        Seq::empty()
    } else {
        let rest = filter_records(items.drop_last(), search);
        if keeps(search, items.last().imageid@) {
            rest.push(md_of(items.last()))
        } else {
            rest
        }
    }
}

/// Whether a record with image id `imageid` passes the search terms.
pub fn matches_search(search: &Vec<String>, imageid: &String) -> (r: bool)
    ensures
        r == keeps(views(search@), imageid@),
{
    if search.len() == 0 {
        return true;
    }
    let mut i: usize = 0;
    while i < search.len()
        invariant
            i <= search.len(),
            forall|j: int| 0 <= j < i ==> !is_substring(#[trigger] views(search@)[j], imageid@),
        decreases search.len() - i,
    {
        if str_contains(imageid.as_str(), search[i].as_str()) {
            assert(is_substring(views(search@)[i as int], imageid@));
            return true;
        }
        i = i + 1;
    }
    false
}

/// The canonical records of a page's records that pass the query's search
/// terms, in page order.
pub fn api_results_to_image_vec(results: &PsycheApiResults, query: &RemoteQuery) -> (r: Vec<Metadata>)
    ensures
        r@ == filter_records(results.items@, views(query.search@)),
{
    let items = &results.items;
    let mut out: Vec<Metadata> = Vec::new();
    let mut i: usize = 0;
    while i < items.len()
        invariant
            i <= items.len(),
            out@ == filter_records(items@.take(i as int), views(query.search@)),
        decreases items.len() - i,
    {
        assert(items@.take(i + 1).drop_last() =~= items@.take(i as int));
        if matches_search(&query.search, &items[i].imageid) {
            out.push(convert_to_std_metadata(&items[i]));
        }
        i = i + 1;
    }
    assert(items@.take(i as int) =~= items@);
    out
}

/// The request parameters of a query, as name and value.
pub open spec fn params_spec(query: RemoteQuery) -> Seq<(Seq<char>, Seq<char>)> {
    let base = seq![
        ("feedtype"@, "json"@),
        ("per_page"@, decimal(query.num_per_page as nat)),
        ("order"@, "date_received+desc"@),
        ("search"@, "("@ + join(views(query.cameras@), "|"@) + "):camera"@),
        ("condition_1"@, query.min_date@ + ":date_received:gte"@),
        ("condition_2"@, query.max_date@ + ":date_received:lte"@),
    ];
    match query.page {
        Some(p) => base.push(("page"@, decimal(p as nat))),
        None => base,
    }
}

/// The name and value views of a parameter list.
pub open spec fn params_view(v: Seq<(String, String)>) -> Seq<(Seq<char>, Seq<char>)> {
    v.map_values(|p: (String, String)| (p.0@, p.1@))
}

/// The request parameters of a query: output format, page size, newest first,
/// the cameras joined by `|`, the inclusive receipt-date range, and the page
/// when one is named.
pub fn query_params(query: &RemoteQuery) -> (r: Vec<(String, String)>)
    ensures
        params_view(r@) == params_spec(*query),
{
    let mut search = String::from_str("(");
    let joined = join_strings(&query.cameras, "|");
    search.append(joined.as_str());
    search.append("):camera");
    let mut cond1 = query.min_date.clone();
    cond1.append(":date_received:gte");
    let mut cond2 = query.max_date.clone();
    cond2.append(":date_received:lte");
    let mut out: Vec<(String, String)> = Vec::new();
    out.push((String::from_str("feedtype"), String::from_str("json")));
    out.push((String::from_str("per_page"), u32_to_decimal(query.num_per_page)));
    out.push((String::from_str("order"), String::from_str("date_received+desc")));
    out.push((String::from_str("search"), search));
    out.push((String::from_str("condition_1"), cond1));
    out.push((String::from_str("condition_2"), cond2));
    match query.page {
        Some(p) => {
            out.push((String::from_str("page"), u32_to_decimal(p)));
        },
        None => {},
    }
    assert(params_view(out@) =~= params_spec(*query));
    out
}

/// The client of the Psyche catalog.
pub struct PsycheFetch {}

impl PsycheFetch {
    pub fn new() -> (r: PsycheFetch) {
        PsycheFetch {  }
    }

    /// The Psyche camera codes, each its own search token.
    pub fn psyche_instrument_map(&self) -> (r: InstrumentMap)
        ensures
            r.wf(),
            r@ == seq![("A"@, seq!["A"@]), ("B"@, seq!["B"@])],
    {
        let mut entries: Vec<InstrumentEntry> = Vec::new();
        entries.push(InstrumentEntry { code: String::from_str("A"), tokens: vec![String::from_str("A")] });
        entries.push(InstrumentEntry { code: String::from_str("B"), tokens: vec![String::from_str("B")] });
        let r = InstrumentMap { entries };
        assert(views(r.entries@[0].tokens@) =~= seq!["A"@]);
        assert(views(r.entries@[1].tokens@) =~= seq!["B"@]);
        assert(r@ =~= seq![("A"@, seq!["A"@]), ("B"@, seq!["B"@])]);
        proof {
            reveal_strlit("A");
            reveal_strlit("B");
            assert(r.entries@[0].code@ =~= seq!['A']);
            assert(r.entries@[1].code@ =~= seq!['B']);
            assert(r.entries@[0].code@[0] != r.entries@[1].code@[0]);
            assert(is_upper_code(r.entries@[0].code@));
            assert(is_upper_code(r.entries@[1].code@));
            assert(r.entries@.len() == 2);
        }
        r
    }

    /// Statistics of a query from the catalog's answer to it.
    pub fn stats_from_results(&self, results: &PsycheApiResults, query: &RemoteQuery) -> (r: RemoteStats)
        requires
            query.wf(),
        ensures
            r.total_results == results.total,
            r.page == results.page,
            r.total_images == results.items@.len(),
            r.more == (results.page < pages_for(results.total as int, query.num_per_page as int) - 1),
            r.error_message@ == Seq::<char>::empty(),
    {
        stats_from_counts(results.total, results.page, results.items.len(), query.num_per_page)
    }

    /// Statistics of a query from the outcome of its request: a transport or
    /// decoding failure, with its cause, or the decoded answer.
    pub fn psyche_stats_from(&self, outcome: Result<PsycheApiResults, String>, query: &RemoteQuery) -> (r: Result<RemoteStats, FetchError>)
        requires
            query.wf(),
        ensures
            outcome matches Err(cause) ==> r == Err::<RemoteStats, FetchError>(FetchError::RemoteError(cause)),
            outcome matches Ok(res) ==> (r matches Ok(s) && s.total_results == res.total && s.page == res.page
                && s.total_images == res.items@.len()
                && s.more == (res.page < pages_for(res.total as int, query.num_per_page as int) - 1)
                && s.error_message@ == Seq::<char>::empty()),
    {
        match outcome {
            Ok(res) => Ok(self.stats_from_results(&res, query)),
            Err(cause) => Err(FetchError::RemoteError(cause)),
        }
    }

    /// The kept canonical records of one page from the outcome of its request.
    pub fn psyche_page_records_from(&self, outcome: Result<PsycheApiResults, String>, query: &RemoteQuery) -> (r: Result<Vec<Metadata>, FetchError>)
        ensures
            outcome matches Err(cause) ==> r == Err::<Vec<Metadata>, FetchError>(FetchError::RemoteError(cause)),
            outcome matches Ok(res) ==> (r matches Ok(v) && v@ == filter_records(res.items@, views(query.search@))),
    {
        match outcome {
            Ok(res) => Ok(api_results_to_image_vec(&res, query)),
            Err(cause) => Err(FetchError::RemoteError(cause)),
        }
    }
}

impl Fetch for PsycheFetch {
    type Page = PsycheApiResults;

    open spec fn instrument_table(&self) -> Seq<(Seq<char>, Seq<Seq<char>>)> {
        seq![("A"@, seq!["A"@]), ("B"@, seq!["B"@])]
    }

    fn make_instrument_map(&self) -> (r: InstrumentMap)
        ensures
            r.wf(),
            r@ == seq![("A"@, seq!["A"@]), ("B"@, seq!["B"@])],
    {
        self.psyche_instrument_map()
    }

    fn fetch_stats_from(&self, outcome: Result<PsycheApiResults, String>, query: &RemoteQuery) -> (r: Result<RemoteStats, FetchError>)
        ensures
            outcome matches Ok(res) ==> (r matches Ok(s) && s.total_results == res.total && s.page == res.page
                && s.total_images == res.items@.len()
                && s.more == (res.page < pages_for(res.total as int, query.num_per_page as int) - 1)
                && s.error_message@ == Seq::<char>::empty()),
    {
        self.psyche_stats_from(outcome, query)
    }

    fn page_records_from(&self, outcome: Result<PsycheApiResults, String>, query: &RemoteQuery) -> (r: Result<Vec<Metadata>, FetchError>)
        ensures
            outcome matches Ok(res) ==> (r matches Ok(v) && v@ == filter_records(res.items@, views(query.search@))),
    {
        self.psyche_page_records_from(outcome, query)
    }
}

} // verus!
