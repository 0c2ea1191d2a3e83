use sf_tools::player::PlayerRecord;
use sf_tools::scanner::{scan_pages, should_emit, PageFetch, ScanEnd, ScanPolicy, Scanner};

fn rec(name: &str, level: u32, guild: Option<&str>) -> PlayerRecord {
    PlayerRecord { name: name.to_string(), level, guild: guild.map(|g| g.to_string()) }
}

fn tolerant() -> ScanPolicy {
    ScanPolicy { min_level: None, continue_on_error: true }
}

fn names(s: &Scanner) -> Vec<String> {
    s.results.iter().map(|p| p.name.clone()).collect()
}

#[test]
fn stops_at_empty_page() {
    // The first empty page stands at index 2: exactly 3 requests, and the
    // qualifying players of pages 0 and 1, in page-then-in-page order.
    let responses = vec![
        PageFetch::Players(vec![
            rec("Ann", 120, None),
            rec("Bob", 95, Some("Guild")),
            rec("Cyn", 80, None),
        ]),
        PageFetch::Players(vec![rec("Dee", 110, None)]),
        PageFetch::Players(vec![]),
        PageFetch::Players(vec![rec("Eve", 300, None)]),
        PageFetch::Players(vec![rec("Fay", 301, None)]),
    ];
    let r = scan_pages(&responses, 5, tolerant());
    assert_eq!(r.requested, 3);
    assert_eq!(r.end, Some(ScanEnd::EmptyPage));
    assert_eq!(names(&r), vec!["Ann".to_string(), "Cyn".to_string(), "Dee".to_string()]);
    assert_eq!(r.results[0].level, 120);
    assert_eq!(r.results[1].level, 80);
    assert_eq!(r.results[2].level, 110);
}

#[test]
fn stops_at_failure_keeping_partial_results() {
    // Page 1 fails: the results of page 0 are kept, and page 2 is never
    // requested.
    let responses = vec![
        PageFetch::Players(vec![rec("Ann", 120, None), rec("Bob", 95, Some("G"))]),
        PageFetch::Failure,
        PageFetch::Players(vec![rec("Eve", 300, None)]),
    ];
    let r = scan_pages(&responses, 3, tolerant());
    assert_eq!(r.requested, 2);
    assert_eq!(r.end, Some(ScanEnd::PageFailure));
    assert_eq!(names(&r), vec!["Ann".to_string()]);
}

#[test]
fn failure_on_first_page_yields_empty_results() {
    let responses = vec![PageFetch::Failure, PageFetch::Players(vec![rec("Eve", 300, None)])];
    let r = scan_pages(&responses, 2, tolerant());
    assert_eq!(r.requested, 1);
    assert_eq!(r.end, Some(ScanEnd::PageFailure));
    assert!(r.results.is_empty());
}

#[test]
fn cap_bounds_requests_against_endless_server() {
    // Five non-empty pages on offer, cap of 3: exactly 3 requests.
    let responses = vec![
        PageFetch::Players(vec![rec("P0", 10, None)]),
        PageFetch::Players(vec![rec("P1", 11, None)]),
        PageFetch::Players(vec![rec("P2", 12, None)]),
        PageFetch::Players(vec![rec("P3", 13, None)]),
        PageFetch::Players(vec![rec("P4", 14, None)]),
    ];
    let r = scan_pages(&responses, 3, tolerant());
    assert_eq!(r.requested, 3);
    assert_eq!(r.end, Some(ScanEnd::CapReached));
    assert_eq!(names(&r), vec!["P0".to_string(), "P1".to_string(), "P2".to_string()]);
}

#[test]
fn cap_of_zero_requests_nothing() {
    let responses: Vec<PageFetch> = Vec::new();
    let r = scan_pages(&responses, 0, tolerant());
    assert_eq!(r.requested, 0);
    assert_eq!(r.end, Some(ScanEnd::CapReached));
    assert!(r.results.is_empty());
}

#[test]
fn rerun_on_unchanged_server_is_identical() {
    // Idempotence: the same trace scanned twice yields the same ordered
    // result set.
    let responses = vec![
        PageFetch::Players(vec![rec("Ann", 120, None), rec("Bob", 95, Some("G"))]),
        PageFetch::Players(vec![rec("Cyn", 80, None)]),
        PageFetch::Players(vec![]),
    ];
    let r1 = scan_pages(&responses, 3, tolerant());
    let r2 = scan_pages(&responses, 3, tolerant());
    assert_eq!(r1.results, r2.results);
    assert_eq!(r1.requested, r2.requested);
    assert_eq!(r1.end, r2.end);
}

#[test]
fn level_threshold_variant_filters_by_level() {
    // With a minimum level of 100, only unguilded players strictly above
    // 100 are retained, with exact name and level.
    let policy = ScanPolicy { min_level: Some(100), continue_on_error: false };
    let responses = vec![
        PageFetch::Players(vec![
            rec("AtCap", 100, None),
            rec("Above", 101, None),
            rec("Guilded", 150, Some("G")),
        ]),
        PageFetch::Players(vec![]),
    ];
    let r = scan_pages(&responses, 2, policy);
    assert_eq!(names(&r), vec!["Above".to_string()]);
    assert_eq!(r.results[0].level, 101);
}

#[test]
fn step_by_step_scan_reaches_cap() {
    let mut s = Scanner::new(2, tolerant());
    assert_eq!(s.pending_page(), Some(0));
    s.on_page(&vec![rec("Ann", 120, None)]);
    assert_eq!(s.pending_page(), Some(1));
    s.on_page(&vec![rec("Bob", 110, None)]);
    assert_eq!(s.pending_page(), None);
    assert_eq!(s.end, Some(ScanEnd::CapReached));
    assert_eq!(names(&s), vec!["Ann".to_string(), "Bob".to_string()]);
}

#[test]
fn step_by_step_failure_ends_scan() {
    let mut s = Scanner::new(5, tolerant());
    assert_eq!(s.pending_page(), Some(0));
    s.on_page(&vec![rec("Ann", 120, None)]);
    s.on_failure();
    assert_eq!(s.pending_page(), None);
    assert_eq!(s.end, Some(ScanEnd::PageFailure));
    assert_eq!(names(&s), vec!["Ann".to_string()]);
}

#[test]
fn emission_follows_the_tolerance_knob() {
    let strict = ScanPolicy { min_level: None, continue_on_error: false };
    assert!(should_emit(&tolerant(), ScanEnd::PageFailure));
    assert!(!should_emit(&strict, ScanEnd::PageFailure));
    assert!(should_emit(&strict, ScanEnd::EmptyPage));
    assert!(should_emit(&strict, ScanEnd::CapReached));
    assert!(should_emit(&tolerant(), ScanEnd::EmptyPage));
}
