use psyche_raw_utils::enums::Instrument;
use psyche_raw_utils::metadata::{url_last_segment, Metadata};
use psyche_raw_utils::psyche::{
    api_results_to_image_vec, convert_to_std_metadata, matches_search, query_params, ImageRecord,
    PsycheApiResults, PsycheFetch,
};
use psyche_raw_utils::psychefetch::PsycheFetch as FetchOptions;
use psyche_raw_utils::remotequery::{
    merge_pages, page_count, plan_downloads, stats_from_counts, Fetch, FetchError, ItemAction,
    RemoteQuery,
};
use psyche_raw_utils::text::{join_strings, u32_to_decimal};

fn strings(v: &[&str]) -> Vec<String> {
    v.iter().map(|s| s.to_string()).collect()
}

fn record(id: u32, imageid: &str) -> ImageRecord {
    ImageRecord {
        id,
        imageid: imageid.to_string(),
        url: format!("https://example.org/{}.png", imageid),
        date_taken_utc: "2025-12-01T00:00:00Z".to_string(),
        date_received: "2025-12-02T00:00:00Z".to_string(),
        width: 1024,
        height: 768,
        instrument: "A".to_string(),
        camera_name: "Imager A".to_string(),
        camera_title: "Multispectral Imager A".to_string(),
        filter: 3,
        filter_name: "F3".to_string(),
        filter_wavelength: "540".to_string(),
        target: Some("Psyche".to_string()),
        distance: Some(12),
        orbit_number: None,
        spacecraft_clock_bits: Some(1.5f64.to_bits()),
        created_at: "2025-12-02".to_string(),
        updated_at: "2025-12-03".to_string(),
    }
}

fn query(search: &[&str], page: Option<u32>) -> RemoteQuery {
    RemoteQuery {
        cameras: strings(&["A", "B"]),
        num_per_page: 100,
        page,
        min_date: "2000-01-01".to_string(),
        max_date: "2100-01-01".to_string(),
        list_only: false,
        search: strings(search),
        only_new: false,
        filter_num: None,
        filter: None,
        output_path: "/tmp/out".to_string(),
    }
}

fn page_of(records: Vec<ImageRecord>, total: u32, page: u32) -> PsycheApiResults {
    PsycheApiResults { items: records, per_page: "100".to_string(), total, page }
}

fn ids(v: &[Metadata]) -> Vec<u32> {
    v.iter().map(|m| m.id).collect()
}

fn options(camera: &[&str]) -> FetchOptions {
    FetchOptions {
        camera: strings(camera),
        date: None,
        mindate: None,
        maxdate: None,
        list: false,
        num: None,
        page: None,
        filter_num: None,
        filter: None,
        instruments: false,
        output: None,
        new: false,
    }
}

#[test]
fn page_count_is_ceiling() {
    assert_eq!(page_count(250, 100), 3);
    assert_eq!(page_count(200, 100), 2);
    assert_eq!(page_count(0, 100), 0);
    assert_eq!(page_count(1, 100), 1);
    assert_eq!(page_count(u32::MAX, 1), u32::MAX);
    assert_eq!(page_count(u32::MAX, 2), 2147483648);
}

#[test]
fn stats_more_pages_flag() {
    let s = stats_from_counts(250, 0, 100, 100);
    assert!(s.more);
    assert_eq!(s.total_results, 250);
    assert_eq!(s.page, 0);
    assert_eq!(s.total_images, 100);
    assert_eq!(s.error_message, "");
    assert!(!stats_from_counts(250, 2, 50, 100).more);
    assert!(stats_from_counts(250, 1, 100, 100).more);
    assert!(!stats_from_counts(0, 0, 0, 100).more);
    assert!(!stats_from_counts(100, 0, 100, 100).more);
}

#[test]
fn stats_from_catalog_answer() {
    let client = PsycheFetch::new();
    let q = query(&[], None);
    let res = page_of(vec![record(1, "X")], 150, 0);
    let s = client.fetch_stats_from(Ok(res), &q).unwrap();
    assert_eq!(s.total_results, 150);
    assert_eq!(s.page, 0);
    assert_eq!(s.total_images, 1);
    assert_eq!(s.error_message, "");
    assert!(s.more);
    match client.fetch_stats_from(Err("timed out".to_string()), &q) {
        Err(FetchError::RemoteError(c)) => assert_eq!(c, "timed out"),
        _ => panic!("expected a remote error"),
    }
}

#[test]
fn resolution_ignores_case() {
    let map = PsycheFetch::new().make_instrument_map();
    let a = map.find_remote_instrument_names_fromlist(&strings(&["a", "B"])).unwrap();
    let b = map.find_remote_instrument_names_fromlist(&strings(&["A", "b"])).unwrap();
    assert_eq!(a, strings(&["A", "B"]));
    assert_eq!(a, b);
}

#[test]
fn unknown_code_fails_whole_batch() {
    let map = PsycheFetch::new().make_instrument_map();
    match map.find_remote_instrument_names_fromlist(&strings(&["A", "Q", "B"])) {
        Err(FetchError::InvalidInstrument(c)) => assert_eq!(c, "Q"),
        _ => panic!("expected an invalid instrument"),
    }
    assert!(map.find_remote_instrument_names(&"z".to_string()).is_err());
    assert_eq!(map.find_remote_instrument_names_fromlist(&vec![]).unwrap(), Vec::<String>::new());
}

#[test]
fn known_codes_are_listed() {
    let map = PsycheFetch::new().make_instrument_map();
    assert_eq!(map.list_known(), strings(&["A", "B"]));
}

#[test]
fn instrument_from_code() {
    assert_eq!(Instrument::from_str("a").unwrap(), Instrument::PsycheImagerA);
    assert_eq!(Instrument::from_str("B").unwrap(), Instrument::PsycheImagerB);
    assert_eq!(Instrument::from_str("c").unwrap(), Instrument::Unknown);
    assert_eq!("b".parse::<Instrument>().unwrap(), Instrument::PsycheImagerB);
    assert_eq!(Instrument::default(), Instrument::Unknown);
}

#[test]
fn filter_is_substring_test() {
    assert!(matches_search(&strings(&["00042"]), &"PSY_A_00042".to_string()));
    assert!(matches_search(&strings(&["A_"]), &"PSY_A_00042".to_string()));
    assert!(!matches_search(&strings(&["00099"]), &"PSY_A_00042".to_string()));
    assert!(!matches_search(&strings(&["a_"]), &"PSY_A_00042".to_string()));
    assert!(matches_search(&vec![], &"PSY_A_00042".to_string()));
    assert!(matches_search(&strings(&["zz", "042"]), &"PSY_A_00042".to_string()));
}

#[test]
fn page_records_filtered_in_order() {
    let res = page_of(
        vec![record(1, "PSY_A_00042"), record(2, "PSY_B_00099"), record(3, "PSY_A_00043")],
        3,
        0,
    );
    assert_eq!(ids(&api_results_to_image_vec(&res, &query(&["A_"], None))), vec![1, 3]);
    assert_eq!(ids(&api_results_to_image_vec(&res, &query(&[], None))), vec![1, 2, 3]);
    assert_eq!(ids(&api_results_to_image_vec(&res, &query(&["00099"], None))), vec![2]);
    assert!(api_results_to_image_vec(&res, &query(&["nothing"], None)).is_empty());
}

#[test]
fn projection_keeps_every_field() {
    let r = record(7, "PSY_A_7");
    let m = convert_to_std_metadata(&r);
    assert_eq!(m.id, 7);
    assert_eq!(m.imageid, "PSY_A_7");
    assert_eq!(m.url, r.url);
    assert_eq!(m.target, Some("Psyche".to_string()));
    assert_eq!(m.distance, Some(12));
    assert_eq!(m.orbit_number, None);
    assert_eq!(m.spacecraft_clock_bits.map(f64::from_bits), Some(1.5));
    assert_eq!(m.updated_at, "2025-12-03");
}

#[test]
fn request_parameters() {
    let p = query_params(&query(&[], None));
    let expect = vec![
        ("feedtype", "json"),
        ("per_page", "100"),
        ("order", "date_received+desc"),
        ("search", "(A|B):camera"),
        ("condition_1", "2000-01-01:date_received:gte"),
        ("condition_2", "2100-01-01:date_received:lte"),
    ];
    let got: Vec<(&str, &str)> = p.iter().map(|(a, b)| (a.as_str(), b.as_str())).collect();
    assert_eq!(got, expect);
    let p = query_params(&query(&[], Some(17)));
    assert_eq!(p.len(), 7);
    assert_eq!(p[6], ("page".to_string(), "17".to_string()));
}

#[test]
fn join_with_separator() {
    assert_eq!(join_strings(&strings(&["A", "B", "C"]), "|"), "A|B|C");
    assert_eq!(join_strings(&strings(&["A"]), "|"), "A");
    assert_eq!(join_strings(&vec![], "|"), "");
}

#[test]
fn single_page_query_kept() {
    let q = query(&["x"], Some(4));
    let qs = q.page_queries(1000);
    assert_eq!(qs.len(), 1);
    assert_eq!(qs[0].page, Some(4));
    assert_eq!(qs[0].search, strings(&["x"]));
}

#[test]
fn all_pages_fan_out_scenario() {
    let q = query(&[], None);
    let qs = q.page_queries(250);
    assert_eq!(qs.len(), 3);
    for (i, pq) in qs.iter().enumerate() {
        assert_eq!(pq.page, Some(i as u32));
        assert_eq!(pq.cameras, q.cameras);
        assert_eq!(pq.num_per_page, 100);
    }
    let client = PsycheFetch::new();
    let mut outcomes = Vec::new();
    for (i, pq) in qs.iter().enumerate() {
        let n = if i < 2 { 100 } else { 50 };
        let recs: Vec<ImageRecord> =
            (0..n).map(|k| record(i as u32 * 100 + k, &format!("PSY_{}", k))).collect();
        outcomes.push(client.page_records_from(Ok(page_of(recs, 250, i as u32)), pq));
    }
    outcomes.reverse();
    let merged = merge_pages(outcomes).ok().unwrap();
    assert_eq!(merged.len(), 250);
    let mut got = ids(&merged);
    got.sort();
    assert_eq!(got, (0..250).collect::<Vec<u32>>());
}

#[test]
fn failed_page_fails_all() {
    let mut outcomes: Vec<Result<Vec<u32>, FetchError>> = Vec::new();
    for p in 0..5u32 {
        if p == 2 {
            outcomes.push(Err(FetchError::RemoteError("page 3 failed".to_string())));
        } else {
            outcomes.push(Ok(vec![p * 10, p * 10 + 1]));
        }
    }
    match merge_pages(outcomes) {
        Err(FetchError::RemoteError(c)) => assert_eq!(c, "page 3 failed"),
        _ => panic!("expected the page failure"),
    }
}

#[test]
fn first_failure_in_completion_order() {
    let outcomes: Vec<Result<Vec<u32>, FetchError>> = vec![
        Ok(vec![1]),
        Err(FetchError::ProgrammingError("first".to_string())),
        Err(FetchError::RemoteError("second".to_string())),
    ];
    match merge_pages(outcomes) {
        Err(FetchError::ProgrammingError(c)) => assert_eq!(c, "first"),
        _ => panic!("expected the first failure"),
    }
}

#[test]
fn merge_same_records_any_order() {
    let a: Vec<Result<Vec<u32>, FetchError>> = vec![Ok(vec![1, 2]), Ok(vec![]), Ok(vec![3])];
    let b: Vec<Result<Vec<u32>, FetchError>> = vec![Ok(vec![3]), Ok(vec![1, 2]), Ok(vec![])];
    let mut ra = merge_pages(a).ok().unwrap();
    let mut rb = merge_pages(b).ok().unwrap();
    assert_eq!(ra, vec![1, 2, 3]);
    assert_eq!(rb, vec![3, 1, 2]);
    ra.sort();
    rb.sort();
    assert_eq!(ra, rb);
    assert_eq!(merge_pages::<u32>(vec![]).ok().unwrap(), Vec::<u32>::new());
}

#[test]
fn page_failure_becomes_remote_error() {
    let client = PsycheFetch::new();
    match client.page_records_from(Err("bad json".to_string()), &query(&[], Some(0))) {
        Err(FetchError::RemoteError(c)) => assert_eq!(c, "bad json"),
        _ => panic!("expected a remote error"),
    }
}

#[test]
fn skipping_when_everything_present() {
    let mut q = query(&[], None);
    q.only_new = true;
    assert!(matches!(plan_downloads(&q, &vec![true, true, true]), Err(FetchError::SkippingFile)));
    assert!(matches!(plan_downloads(&q, &vec![]), Err(FetchError::SkippingFile)));
    let plan = plan_downloads(&q, &vec![true, false, true]).ok().unwrap();
    assert_eq!(plan, vec![ItemAction::Skip, ItemAction::Download, ItemAction::Skip]);
}

#[test]
fn downloads_everything_without_only_new() {
    let q = query(&[], None);
    let plan = plan_downloads(&q, &vec![true, false]).ok().unwrap();
    assert_eq!(plan, vec![ItemAction::Download, ItemAction::Download]);
}

#[test]
fn list_only_lists() {
    let mut q = query(&[], None);
    q.list_only = true;
    q.only_new = true;
    let plan = plan_downloads(&q, &vec![true, true]).ok().unwrap();
    assert_eq!(plan, vec![ItemAction::List, ItemAction::List]);
}

#[test]
fn options_with_defaults() {
    let map = PsycheFetch::new().make_instrument_map();
    let q = options(&["b", "a"]).build_query(&map, "/home/me".to_string()).ok().unwrap();
    assert_eq!(q.cameras, strings(&["B", "A"]));
    assert_eq!(q.num_per_page, 100);
    assert_eq!(q.page, None);
    assert_eq!(q.min_date, "2000-01-01");
    assert_eq!(q.max_date, "2100-01-01");
    assert_eq!(q.output_path, "/home/me");
    assert!(q.search.is_empty());
}

#[test]
fn options_given() {
    let map = PsycheFetch::new().make_instrument_map();
    let mut o = options(&["A"]);
    o.mindate = Some("2025-12-01".to_string());
    o.maxdate = Some("2025-12-06".to_string());
    o.num = Some(60);
    o.page = Some(2);
    o.filter = Some(strings(&["00042"]));
    o.output = Some("out".to_string());
    o.new = true;
    let q = o.build_query(&map, "/home/me".to_string()).ok().unwrap();
    assert_eq!(q.num_per_page, 60);
    assert_eq!(q.page, Some(2));
    assert_eq!(q.min_date, "2025-12-01");
    assert_eq!(q.max_date, "2025-12-06");
    assert_eq!(q.search, strings(&["00042"]));
    assert_eq!(q.filter, Some(strings(&["00042"])));
    assert_eq!(q.output_path, "out");
    assert!(q.only_new);
}

#[test]
fn options_with_unknown_camera() {
    let map = PsycheFetch::new().make_instrument_map();
    match options(&["A", "nope"]).build_query(&map, ".".to_string()) {
        Err(FetchError::InvalidInstrument(c)) => assert_eq!(c, "nope"),
        _ => panic!("expected an invalid instrument"),
    }
}

#[test]
fn image_file_names() {
    assert_eq!(url_last_segment("https://example.org/a/b/PSY_1.png"), "PSY_1.png");
    assert_eq!(url_last_segment("no_slash.png"), "no_slash.png");
    assert_eq!(url_last_segment("https://example.org/dir/"), "");
    assert_eq!(url_last_segment(""), "");
    let mut m = convert_to_std_metadata(&record(1, "PSY_A_1"));
    assert_eq!(m.file_name(), "PSY_A_1.png");
    m.url = "https://example.org/dir/".to_string();
    assert_eq!(m.file_name(), "PSY_A_1");
}

#[test]
fn stats_query_names_no_page() {
    let q = query(&["x"], Some(3));
    let s = q.without_page();
    assert_eq!(s.page, None);
    assert_eq!(s.search, strings(&["x"]));
    assert_eq!(s.cameras, q.cameras);
    assert_eq!(s.num_per_page, q.num_per_page);
    assert_eq!(q.with_page(5).page, Some(5));
}

#[test]
fn decimal_notation() {
    assert_eq!(u32_to_decimal(0), "0");
    assert_eq!(u32_to_decimal(7), "7");
    assert_eq!(u32_to_decimal(10), "10");
    assert_eq!(u32_to_decimal(1203), "1203");
    assert_eq!(u32_to_decimal(u32::MAX), "4294967295");
}
