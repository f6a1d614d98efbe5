//! Queries, result statistics, errors and the decisions of the fetch
//! orchestration: page fan-out, merging of page results and the skip policy.

use crate::instruments::InstrumentMap;
use crate::metadata::Metadata;
use crate::text::copy_strings;
use vstd::prelude::*;
use vstd::seq_lib::lemma_multiset_commutative;

verus! {

/// Ways a fetch can end without records.
#[derive(Debug)]
pub enum FetchError {
    /// The catalog could not be reached or its answer could not be decoded.
    RemoteError(String),
    /// An internal invariant did not hold.
    ProgrammingError(String),
    /// Every candidate record was already present: nothing new to download.
    SkippingFile,
    /// A camera code that the instrument table does not know.
    InvalidInstrument(String),
}


/// One request to the catalog.
pub struct RemoteQuery {
    /// Search tokens of the cameras asked for.
    pub cameras: Vec<String>,
    /// Results per page; positive.
    pub num_per_page: u32,
    /// One page to fetch, or `None` for every page.
    pub page: Option<u32>,
    /// Earliest receipt date, in the catalog's own notation.
    pub min_date: String,
    /// Latest receipt date, in the catalog's own notation.
    pub max_date: String,
    /// List the records only; download nothing.
    pub list_only: bool,
    /// Substrings of which an image id must hold one; empty keeps every record.
    pub search: Vec<String>,
    /// Skip records whose image is already present.
    pub only_new: bool,
    pub filter_num: Option<u8>,
    pub filter: Option<Vec<String>>,
    /// Directory that downloads go to.
    pub output_path: String,
}

/// Summary of a query's results as one catalog answer reports it.
pub struct RemoteStats {
    /// Pages remain after the page observed.
    pub more: bool,
    pub error_message: String,
    /// Records over all pages.
    pub total_results: u32,
    /// Index of the page observed.
    pub page: u32,
    /// Records on the page observed.
    pub total_images: usize,
}

/// What the driver does with one record.
#[derive(Debug, Copy, Clone, PartialEq, Eq, Structural)]
pub enum ItemAction {
    /// Fetch the image.
    Download,
    /// The image is already present.
    Skip,
    /// Report the record only.
    List,
}

impl RemoteQuery {
    pub open spec fn wf(&self) -> bool {
        self.num_per_page > 0
    }
}

/// Two queries that ask for the same thing, whatever page each names.
pub open spec fn same_request(a: RemoteQuery, b: RemoteQuery) -> bool {
    &&& a.cameras@ == b.cameras@
    &&& a.num_per_page == b.num_per_page
    &&& a.min_date == b.min_date
    &&& a.max_date == b.max_date
    &&& a.list_only == b.list_only
    &&& a.search@ == b.search@
    &&& a.only_new == b.only_new
    &&& a.filter_num == b.filter_num
    &&& a.filter is Some <==> b.filter is Some
    &&& a.filter is Some ==> a.filter.unwrap()@ == b.filter.unwrap()@
    &&& a.output_path == b.output_path
}

/// Number of pages of `per_page` records that hold `total` records.
pub open spec fn pages_for(total: int, per_page: int) -> int {
    (total + per_page - 1) / per_page
}

/// `pages_for` is the ceiling of `total / per_page`: the least number of
/// pages whose capacity covers `total`.
pub proof fn lemma_pages_is_ceiling(total: int, per_page: int)
    requires
        total >= 0,
        per_page > 0,
    ensures
        pages_for(total, per_page) * per_page >= total,
        (pages_for(total, per_page) - 1) * per_page < total,
        pages_for(total, per_page) >= 0,
{
    let p = pages_for(total, per_page);
    let x = total + per_page - 1;
    assert(x == (x / per_page) * per_page + x % per_page && 0 <= x % per_page < per_page)
        by (nonlinear_arith)
        requires
            per_page > 0,
    ;
    assert(p * per_page >= total && (p - 1) * per_page < total && p >= 0) by (nonlinear_arith)
        requires
            p == x / per_page,
            x == p * per_page + x % per_page,
            0 <= x % per_page < per_page,
            x == total + per_page - 1,
            total >= 0,
    ;
}

/// Number of pages of `num_per_page` records that hold `total_results` records.
pub fn page_count(total_results: u32, num_per_page: u32) -> (r: u32)
    requires
        num_per_page > 0,
    ensures
        r == pages_for(total_results as int, num_per_page as int),
        r * num_per_page >= total_results,
        (r - 1) * num_per_page < total_results,
{
    proof {
        lemma_pages_is_ceiling(total_results as int, num_per_page as int);
    }
    let q = total_results / num_per_page;
    let m = total_results % num_per_page;
    proof {
        let t = total_results as int;
        let n = num_per_page as int;
        let p = pages_for(t, n);
        assert(t == (q as int) * n + (m as int) && 0 <= m < n) by (nonlinear_arith)
            requires
                n > 0,
                q as int == t / n,
                m as int == t % n,
        ;
        assert(p == (if m == 0 { q as int } else { q as int + 1 })) by (nonlinear_arith)
            requires
                t == (q as int) * n + (m as int),
                0 <= m < n,
                p * n >= t,
                (p - 1) * n < t,
        ;
        assert(m != 0 ==> q < 0xffff_ffff) by (nonlinear_arith)
            requires
                t == (q as int) * n + (m as int),
                n > 0,
                t <= 0xffff_ffff,
        ;
    }
    if m == 0 {
        q
    } else {
        q + 1
    }
}

/// Statistics of a query from one catalog answer: the total count over all
/// pages, the page index that the answer carries and the number of records on
/// it. Pages are counted from zero.
pub fn stats_from_counts(total_results: u32, page: u32, total_images: usize, num_per_page: u32) -> (r:
    RemoteStats)
    requires
        num_per_page > 0,
    ensures
        r.total_results == total_results,
        r.page == page,
        r.total_images == total_images,
        r.more == (page < pages_for(total_results as int, num_per_page as int) - 1),
        r.error_message@ == Seq::<char>::empty(),
{
    let pages = page_count(total_results, num_per_page);
    RemoteStats {
        more: pages > 0 && page < pages - 1,
        error_message: String::new(),
        total_results,
        page,
        total_images,
    }
}

impl RemoteQuery {
    /// A copy of this query that names `page`, or no page.
    fn copy_with(&self, page: Option<u32>) -> (r: RemoteQuery)
        ensures
            same_request(r, *self),
            r.page == page,
    {
        let filter = match &self.filter {
            Some(f) => Some(copy_strings(f)),
            None => None,
        };
        RemoteQuery {
            cameras: copy_strings(&self.cameras),
            num_per_page: self.num_per_page,
            page,
            min_date: self.min_date.clone(),
            max_date: self.max_date.clone(),
            list_only: self.list_only,
            search: copy_strings(&self.search),
            only_new: self.only_new,
            filter_num: self.filter_num,
            filter,
            output_path: self.output_path.clone(),
        }
    }

    /// A copy of this query that names `page`.
    pub fn with_page(&self, page: u32) -> (r: RemoteQuery)
        ensures
            same_request(r, *self),
            r.page == Some(page),
    {
        self.copy_with(Some(page))
    }

    /// A copy of this query that names no page: the form in which statistics
    /// are asked for.
    pub fn without_page(&self) -> (r: RemoteQuery)
        ensures
            same_request(r, *self),
            r.page is None,
    {
        self.copy_with(None)
    }

    /// The single-page queries to run: the page asked for, or, when none was,
    /// one query for each page `0..pages` of `total_results` records.
    pub fn page_queries(&self, total_results: u32) -> (r: Vec<RemoteQuery>)
        requires
            self.wf(),
        ensures
            forall|i: int| 0 <= i < r@.len() ==> same_request(#[trigger] r@[i], *self),
            self.page matches Some(p) ==> r@.len() == 1 && r@[0].page == Some(p),
            self.page is None ==> r@.len() == pages_for(total_results as int, self.num_per_page as int)
                && forall|i: int| 0 <= i < r@.len() ==> #[trigger] r@[i].page == Some(i as u32),
    {
        let mut out: Vec<RemoteQuery> = Vec::new();
        match self.page {
            Some(p) => {
                out.push(self.with_page(p));
            },
            None => {
                let pages = page_count(total_results, self.num_per_page);
                let mut i: u32 = 0;
                while i < pages
                    invariant
                        i <= pages,
                        out@.len() == i,
                        forall|j: int| 0 <= j < out@.len() ==> same_request(#[trigger] out@[j], *self),
                        forall|j: int| 0 <= j < out@.len() ==> #[trigger] out@[j].page == Some(j as u32),
                    decreases pages - i,
                {
                    out.push(self.with_page(i));
                    i = i + 1;
                }
            },
        }
        out
    }
}

/// A mission's catalog client. Each mission decodes the catalog's answer into
/// its own page type; the client turns the outcome of a request into
/// statistics or canonical records, and supplies the mission's camera table.
pub trait Fetch {
    /// One decoded answer of the mission's catalog.
    type Page;

    /// The mission's camera table.
    spec fn instrument_table(&self) -> Seq<(Seq<char>, Seq<Seq<char>>)>;

    /// The mission's camera table.
    fn make_instrument_map(&self) -> (r: InstrumentMap)
        ensures
            r.wf(),
            r@ == self.instrument_table(),
    ;

    /// Statistics of a query from the outcome of its request. A failed request
    /// gives `RemoteError` with its cause; an answer gives statistics, whose
    /// more-pages flag holds exactly when pages remain after the one observed.
    fn fetch_stats_from(&self, outcome: Result<Self::Page, String>, query: &RemoteQuery) -> (r: Result<RemoteStats, FetchError>)
        requires
            query.wf(),
        ensures
            outcome matches Err(cause) ==> r == Err::<RemoteStats, FetchError>(FetchError::RemoteError(cause)),
            outcome is Ok ==> r is Ok,
            r matches Ok(s) ==> s.more == (s.page < pages_for(s.total_results as int, query.num_per_page as int) - 1),
    ;

    /// The kept canonical records of one page from the outcome of its request.
    /// A failed request gives `RemoteError` with its cause; an answer gives
    /// records.
    fn page_records_from(&self, outcome: Result<Self::Page, String>, query: &RemoteQuery) -> (r: Result<Vec<Metadata>, FetchError>)
        ensures
            outcome matches Err(cause) ==> r == Err::<Vec<Metadata>, FetchError>(FetchError::RemoteError(cause)),
            outcome is Ok ==> r is Ok,
    ;
}

/// The first failure among page outcomes, in the order given.
pub open spec fn first_error<T>(pages: Seq<Result<Vec<T>, FetchError>>) -> Option<FetchError>
    decreases pages.len(),
{
    if pages.len() == 0 {
        None
    } else {
        match pages[0] {
            Err(e) => Some(e),
            Ok(_) => first_error(pages.drop_first()),
        }
    }
}

/// The records of the successful page outcomes, concatenated in the order given.
pub open spec fn concat_ok<T>(pages: Seq<Result<Vec<T>, FetchError>>) -> Seq<T>
    decreases pages.len(),
{
    if pages.len() == 0 {
        Seq::empty()
    } else {
        match pages[0] {
            Ok(v) => v@ + concat_ok(pages.drop_first()),
            Err(_) => concat_ok(pages.drop_first()),
        }
    }
}

/// Joins the outcomes of the page fetches, given in completion order. One
/// failure fails the whole: the first failure is returned and no record.
/// Otherwise the records of all pages, concatenated in the order given.
pub fn merge_pages<T>(pages: Vec<Result<Vec<T>, FetchError>>) -> (r: Result<Vec<T>, FetchError>)
    ensures
        first_error(pages@) matches Some(e) ==> r == Err::<Vec<T>, FetchError>(e),
        first_error(pages@) is None ==> (r matches Ok(v) && v@ == concat_ok(pages@)),
{
    let ghost all = pages@;
    let mut rest = pages;
    let mut out: Vec<T> = Vec::new();
    while rest.len() > 0
        invariant
            all == pages@,
            first_error(all) == first_error(rest@),
            concat_ok(all) == out@ + concat_ok(rest@),
        decreases rest.len(),
    {
        let ghost before = rest@;
        let page = rest.remove(0);
        assert(rest@ =~= before.drop_first());
        match page {
            Ok(v) => {
                let mut v = v;
                let ghost added = v@;
                out.append(&mut v);
                assert(concat_ok(all) =~= out@ + concat_ok(rest@)) by {
                    assert(concat_ok(before) == added + concat_ok(rest@));
                }
            },
            Err(e) => {
                assert(first_error(before) == Some(e));
                return Err(e);
            },
        }
    }
    assert(out@ + concat_ok(rest@) =~= out@);
    Ok(out)
}

/// The records of one page outcome: none for a failure.
pub open spec fn records_of<T>(outcome: Result<Vec<T>, FetchError>) -> Seq<T> {
    match outcome {
        Ok(v) => v@,
        Err(_) => Seq::empty(),
    }
}

proof fn lemma_concat_ok_append<T>(a: Seq<Result<Vec<T>, FetchError>>, b: Seq<Result<Vec<T>, FetchError>>)
    ensures
        concat_ok(a + b) == concat_ok(a) + concat_ok(b),
    decreases a.len(),
{
    if a.len() == 0 {
        assert(a + b =~= b);
        assert(concat_ok(a) + concat_ok(b) =~= concat_ok(b));
    } else {
        assert((a + b).drop_first() =~= a.drop_first() + b);
        assert((a + b)[0] == a[0]);
        lemma_concat_ok_append(a.drop_first(), b);
        assert(concat_ok(a + b) =~= records_of(a[0]) + concat_ok(a.drop_first() + b));
        assert(concat_ok(a) =~= records_of(a[0]) + concat_ok(a.drop_first()));
    }
}

proof fn lemma_concat_ok_remove<T>(s: Seq<Result<Vec<T>, FetchError>>, j: int)
    requires
        0 <= j < s.len(),
    ensures
        concat_ok(s).to_multiset() == concat_ok(s.remove(j)).to_multiset().add(
            records_of(s[j]).to_multiset(),
        ),
{
    let pre = s.subrange(0, j);
    let post = s.subrange(j + 1, s.len() as int);
    let mid = seq![s[j]];
    assert(s =~= pre + (mid + post));
    assert(s.remove(j) =~= pre + post);
    lemma_concat_ok_append(pre, mid + post);
    lemma_concat_ok_append(mid, post);
    lemma_concat_ok_append(pre, post);
    assert(mid.drop_first() =~= Seq::<Result<Vec<T>, FetchError>>::empty());
    assert(mid[0] == s[j]);
    assert(concat_ok(mid.drop_first()) == Seq::<T>::empty());
    assert(concat_ok(mid) =~= records_of(s[j]));
    let cp = concat_ok(pre);
    let cm = records_of(s[j]);
    let cq = concat_ok(post);
    lemma_multiset_commutative(cp, cm + cq);
    lemma_multiset_commutative(cm, cq);
    lemma_multiset_commutative(cp, cq);
    assert(concat_ok(s) == cp + (cm + cq));
    assert(concat_ok(s.remove(j)) == cp + cq);
    assert(concat_ok(s).to_multiset() =~= concat_ok(s.remove(j)).to_multiset().add(cm.to_multiset()));
}

proof fn lemma_first_error_none<T>(s: Seq<Result<Vec<T>, FetchError>>)
    ensures
        first_error(s) is None <==> forall|i: int| 0 <= i < s.len() ==> #[trigger] s[i] is Ok,
    decreases s.len(),
{
    if s.len() > 0 {
        lemma_first_error_none(s.drop_first());
        if first_error(s) is None {
            assert forall|i: int| 0 <= i < s.len() implies #[trigger] s[i] is Ok by {
                if i > 0 {
                    assert(s[i] == s.drop_first()[i - 1]);
                }
            }
        }
        if forall|i: int| 0 <= i < s.len() ==> #[trigger] s[i] is Ok {
            assert forall|i: int| 0 <= i < s.drop_first().len() implies #[trigger] s.drop_first()[i] is Ok by {
                assert(s.drop_first()[i] == s[i + 1]);
            }
        }
    }
}

/// The page fetches may complete in any order: two runs whose page outcomes
/// agree up to order merge to the same records up to order, and either both
/// hold a failure or neither does.
pub proof fn lemma_merge_ignores_completion_order<T>(
    a: Seq<Result<Vec<T>, FetchError>>,
    b: Seq<Result<Vec<T>, FetchError>>,
)
    requires
        a.to_multiset() == b.to_multiset(),
    ensures
        concat_ok(a).to_multiset() == concat_ok(b).to_multiset(),
        first_error(a) is None <==> first_error(b) is None,
    decreases a.len(),
{
    broadcast use vstd::seq_lib::group_to_multiset_ensures;
    broadcast use vstd::multiset::group_multiset_axioms;

    lemma_first_error_none(a);
    lemma_first_error_none(b);
    assert forall|i: int| 0 <= i < a.len() && a[i] is Err implies exists|k: int|
        0 <= k < b.len() && #[trigger] b[k] is Err by {
        assert(a.contains(a[i]));
        assert(a.to_multiset().count(a[i]) > 0);
        assert(b.to_multiset().count(a[i]) > 0);
        assert(b.contains(a[i]));
    }
    assert forall|i: int| 0 <= i < b.len() && b[i] is Err implies exists|k: int|
        0 <= k < a.len() && #[trigger] a[k] is Err by {
        assert(b.contains(b[i]));
        assert(b.to_multiset().count(b[i]) > 0);
        assert(a.to_multiset().count(b[i]) > 0);
        assert(a.contains(b[i]));
    }
    if a.len() == 0 {
        assert(a.to_multiset().len() == 0);
        assert(b.to_multiset().len() == 0);
        assert(b.len() == 0);
        assert(concat_ok(a).to_multiset() =~= concat_ok(b).to_multiset());
    } else {
        let x = a[0];
        assert(a.contains(x));
        assert(a.to_multiset().count(x) > 0);
        assert(b.to_multiset().count(x) > 0);
        assert(b.contains(x));
        let j = choose|j: int| 0 <= j < b.len() && b[j] == x;
        let b2 = b.remove(j);
        let a2 = a.remove(0);
        assert(a2 =~= a.drop_first());
        assert(a2.to_multiset() =~= b2.to_multiset());
        lemma_merge_ignores_completion_order(a2, b2);
        lemma_concat_ok_remove(a, 0);
        lemma_concat_ok_remove(b, j);
    }
}

/// What happens to a record when downloads are due.
pub open spec fn action_for(only_new: bool, present: bool) -> ItemAction {
    if only_new && present {
        ItemAction::Skip
    } else {
        ItemAction::Download
    }
}

/// Every record is excluded by the only-new policy.
pub open spec fn all_skipped(only_new: bool, present: Seq<bool>) -> bool {
    forall|i: int| 0 <= i < present.len() ==> action_for(only_new, #[trigger] present[i]) == ItemAction::Skip
}

/// Decides, record by record, what the driver does. `present[i]` tells whether
/// the image of record `i` is already in the output directory. In list-only
/// mode every record is listed. Otherwise a record is skipped when only new
/// images are wanted and it is present, else downloaded; when no record is left
/// to download the result is `SkippingFile`.
pub fn plan_downloads(query: &RemoteQuery, present: &Vec<bool>) -> (r: Result<
    Vec<ItemAction>,
    FetchError,
>)
    ensures
        query.list_only ==> (r matches Ok(v) && v@.len() == present@.len() && forall|i: int|
            0 <= i < v@.len() ==> #[trigger] v@[i] == ItemAction::List),
        !query.list_only ==> (r is Err <==> all_skipped(query.only_new, present@)),
        !query.list_only ==> (r is Err ==> r == Err::<Vec<ItemAction>, FetchError>(
            FetchError::SkippingFile,
        )),
        !query.list_only ==> (r matches Ok(v) ==> v@.len() == present@.len() && forall|i: int|
            0 <= i < v@.len() ==> #[trigger] v@[i] == action_for(query.only_new, present@[i])),
{
    let mut out: Vec<ItemAction> = Vec::new();
    let mut any_download = false;
    let mut i: usize = 0;
    while i < present.len()
        invariant
            i <= present.len(),
            out@.len() == i,
            query.list_only ==> forall|j: int| 0 <= j < i ==> #[trigger] out@[j] == ItemAction::List,
            !query.list_only ==> forall|j: int|
                0 <= j < i ==> #[trigger] out@[j] == action_for(query.only_new, present@[j]),
            any_download <==> exists|j: int|
                0 <= j < i && action_for(query.only_new, #[trigger] present@[j])
                    == ItemAction::Download,
        decreases present.len() - i,
    {
        let skip = query.only_new && present[i];
        if !skip {
            any_download = true;
        }
        assert(action_for(query.only_new, present@[i as int]) == ItemAction::Download <==> !skip);
        if query.list_only {
            out.push(ItemAction::List);
        } else if skip {
            out.push(ItemAction::Skip);
        } else {
            out.push(ItemAction::Download);
        }
        i = i + 1;
    }
    if !query.list_only && !any_download {
        return Err(FetchError::SkippingFile);
    }
    Ok(out)
}

} // verus!
