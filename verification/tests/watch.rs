use ssrf_cloudrf::cloudrf::misc::Bounds;
use ssrf_cloudrf::cloudrf::multisite::MultisiteRes;
use ssrf_cloudrf::multisite_pipeline::{
    plan_file, plan_with_stamp, rendering_address, sorted_names, stem_of, watched_request, FilePlan,
    Timestamp, WatchErr, WatchLedger, STAMP_LAYOUT,
};
use ssrf_cloudrf::openssrf::assignment::link::{Link, StationConfig};
use ssrf_cloudrf::openssrf::assignment::Assignment;
use ssrf_cloudrf::openssrf::serial::Serial;
use ssrf_cloudrf::openssrf::{OpenssrfErr, SSRF};
use ssrf_cloudrf::openssrf_to_cloudrf::SsrfToCloudRFrr;

fn at(secs: i64, nanos: u32) -> Timestamp {
    Timestamp { secs, nanos }
}

fn run(name: &str) -> FilePlan {
    FilePlan::Run { output_name: name.to_owned() }
}

#[test]
fn a_new_file_is_due_once() {
    let mut ledger = WatchLedger::new();
    assert_eq!(ledger.recorded("in/a.xml"), None);
    assert!(ledger.observe("in/a.xml", at(100, 5)));
    assert_eq!(ledger.recorded("in/a.xml"), Some(at(100, 5)));
    assert!(!ledger.observe("in/a.xml", at(100, 5)));
    assert!(!ledger.observe("in/a.xml", at(100, 5)));
    assert_eq!(ledger.recorded("in/a.xml"), Some(at(100, 5)));
}

#[test]
fn a_newer_time_is_due_once() {
    let mut ledger = WatchLedger::new();
    assert!(ledger.observe("a", at(100, 5)));
    assert!(ledger.observe("a", at(100, 6)));
    assert!(!ledger.observe("a", at(100, 6)));
    assert!(ledger.observe("a", at(101, 0)));
    assert!(!ledger.observe("a", at(101, 0)));
    assert_eq!(ledger.recorded("a"), Some(at(101, 0)));
}

#[test]
fn an_older_time_is_not_due_and_not_recorded() {
    let mut ledger = WatchLedger::new();
    assert!(ledger.observe("a", at(100, 5)));
    assert!(!ledger.observe("a", at(100, 4)));
    assert!(!ledger.observe("a", at(99, 999_999_999)));
    assert!(!ledger.observe("a", at(-5, 0)));
    assert_eq!(ledger.recorded("a"), Some(at(100, 5)));
}

#[test]
fn files_do_not_disturb_each_other() {
    let mut ledger = WatchLedger::new();
    assert!(ledger.observe("a", at(100, 0)));
    assert!(ledger.observe("b", at(50, 0)));
    assert!(ledger.observe("", at(1, 0)));
    assert!(!ledger.observe("a", at(100, 0)));
    assert!(ledger.observe("b", at(60, 0)));
    assert!(!ledger.observe("a", at(60, 0)));
    assert_eq!(ledger.recorded("a"), Some(at(100, 0)));
    assert_eq!(ledger.recorded("b"), Some(at(60, 0)));
    assert_eq!(ledger.recorded(""), Some(at(1, 0)));
    assert_eq!(ledger.recorded("c"), None);
}

#[test]
fn times_compare_by_seconds_then_nanoseconds() {
    assert!(at(2, 0).newer_than(&at(1, 999_999_999)));
    assert!(at(1, 2).newer_than(&at(1, 1)));
    assert!(!at(1, 1).newer_than(&at(1, 1)));
    assert!(!at(1, 1).newer_than(&at(2, 0)));
    assert!(at(0, 0).newer_than(&at(-1, 5)));
}

#[test]
fn only_documents_have_a_stem() {
    assert_eq!(stem_of("rnd-ssrf-004.xml"), Some("rnd-ssrf-004".to_owned()));
    assert_eq!(stem_of(".xml"), Some(String::new()));
    assert_eq!(stem_of("a.xml.xml"), Some("a.xml".to_owned()));
    assert_eq!(stem_of("é.xml"), Some("é".to_owned()));
    assert_eq!(stem_of("a.XML"), None);
    assert_eq!(stem_of("a.xml "), None);
    assert_eq!(stem_of("xml"), None);
    assert_eq!(stem_of(""), None);
    assert_eq!(stem_of("a.kmz"), None);
}

#[test]
fn the_rendering_is_named_after_stem_and_time() {
    let mut ledger = WatchLedger::new();
    assert_eq!(STAMP_LAYOUT, "%Y-%m-%d:%T");
    assert_eq!(
        plan_file(&mut ledger, "rnd-ssrf-004.xml", "in/rnd-ssrf-004.xml", at(1_700_000_000, 0)),
        run("rnd-ssrf-004--2023-11-14:22:13:20.kmz")
    );
    assert_eq!(
        plan_file(&mut ledger, "rnd-ssrf-004.xml", "in/rnd-ssrf-004.xml", at(1_700_000_000, 0)),
        FilePlan::Skip
    );
    assert_eq!(
        plan_file(&mut ledger, "rnd-ssrf-004.xml", "in/rnd-ssrf-004.xml", at(1_700_000_001, 999_999_999)),
        run("rnd-ssrf-004--2023-11-14:22:13:21.kmz")
    );
    assert_eq!(plan_file(&mut ledger, "b.xml", "in/b.xml", at(0, 0)), run("b--1970-01-01:00:00:00.kmz"));
    assert_eq!(plan_file(&mut ledger, "c.xml", "in/c.xml", at(-1, 0)), run("c--1969-12-31:23:59:59.kmz"));
}

#[test]
fn other_files_are_passed_over_and_not_recorded() {
    let mut ledger = WatchLedger::new();
    assert_eq!(plan_file(&mut ledger, "notes.txt", "in/notes.txt", at(5, 0)), FilePlan::Skip);
    assert_eq!(ledger.recorded("in/notes.txt"), None);
    assert_eq!(plan_file(&mut ledger, "a.xml", "in/a.xml", at(i64::MAX, 0)), FilePlan::Skip);
    assert_eq!(ledger.recorded("in/a.xml"), None);
    assert_eq!(plan_file(&mut ledger, "a.xml", "in/a.xml", at(5, 2_000_000_000)), FilePlan::Skip);
    assert_eq!(ledger.recorded("in/a.xml"), None);
}

#[test]
fn a_written_time_is_used_as_it_is() {
    let mut ledger = WatchLedger::new();
    assert_eq!(
        plan_with_stamp(&mut ledger, "a.xml", "p", at(1, 0), Some("then".to_owned())),
        run("a--then.kmz")
    );
    assert_eq!(plan_with_stamp(&mut ledger, "a.xml", "p", at(1, 0), Some("then".to_owned())), FilePlan::Skip);
    assert_eq!(plan_with_stamp(&mut ledger, "a.xml", "q", at(1, 0), None), FilePlan::Skip);
    assert_eq!(ledger.recorded("q"), None);
    assert_eq!(plan_with_stamp(&mut ledger, "a", "r", at(1, 0), Some("then".to_owned())), FilePlan::Skip);
    assert_eq!(ledger.recorded("r"), None);
    assert_eq!(plan_with_stamp(&mut ledger, ".xml", "s", at(1, 0), Some(String::new())), run("--.kmz"));
}

#[test]
fn names_are_taken_in_alphabetical_order() {
    let names: Vec<String> = ["b.xml", "a.xml", "B.xml", "a.txt", "a", "", "é", "a.xml"]
        .iter()
        .map(|n| n.to_string())
        .collect();
    let sorted = sorted_names(names);
    assert_eq!(sorted, ["", "B.xml", "a", "a.txt", "a.xml", "a.xml", "b.xml", "é"]);
    assert!(sorted_names(vec![]).is_empty());
}

#[test]
fn a_round_takes_each_file_in_order() {
    let mut ledger = WatchLedger::new();
    let folder = vec!["b.xml".to_owned(), "README".to_owned(), "a.xml".to_owned()];
    let mut planned = Vec::new();
    for round in 0..3 {
        for name in sorted_names(folder.clone()) {
            let changed = if name == "b.xml" && round == 2 { at(86_400, 0) } else { at(0, 0) };
            if let FilePlan::Run { output_name } = plan_file(&mut ledger, &name, &format!("in/{}", name), changed) {
                planned.push(output_name);
            }
        }
    }
    assert_eq!(
        planned,
        ["a--1970-01-01:00:00:00.kmz", "b--1970-01-01:00:00:00.kmz", "b--1970-01-02:00:00:00.kmz"]
    );
}

#[test]
fn a_document_is_computed_by_its_first_assignment() {
    let empty = SSRF { locations: vec![], assignments: vec![] };
    assert!(matches!(watched_request(&empty), Err(WatchErr::NoAssignment)));
    let serial = |name: &str| Serial {
        country: "GBR".to_owned(),
        org: None,
        kind: "AS".to_owned(),
        name: name.to_owned(),
    };
    let assignment = |name: &str| Assignment {
        title: Some(name.to_owned()),
        serial: serial(name),
        stations: vec![],
        configurations: vec![],
        links: vec![],
    };
    let mut doc = SSRF { locations: vec![], assignments: vec![assignment("first"), assignment("second")] };
    assert_eq!(watched_request(&doc).unwrap().network, "first");
    doc.assignments[0].links.push(Link {
        link_id: "l".to_owned(),
        station_config: StationConfig {
            config_id: "c".to_owned(),
            station_id: "s".to_owned(),
            feedline_loss: 0,
            pointing_az_min: 0,
            pointing_elev_min: 0,
        },
    });
    match watched_request(&doc) {
        Err(WatchErr::Translation(SsrfToCloudRFrr::OpenssrfError(OpenssrfErr::StationNotFound {
            station,
            ..
        }))) => assert_eq!(station, "s"),
        other => panic!("{:?}", other),
    }
}

#[test]
fn an_answer_gives_the_address_of_its_rendering() {
    let answer = MultisiteRes::Success {
        kmz: "https://e/1.kmz".to_owned(),
        png_wgs84: String::new(),
        png_mercator: String::new(),
        bounds: Bounds { north: 1, east: 2, south: 3, west: 4 },
        area: 5,
        coverage: 6,
        key: vec![],
        elapsed: 7,
        calculation_adjusted: Some(vec!["resolution".to_owned()]),
    };
    assert_eq!(rendering_address(answer).unwrap(), "https://e/1.kmz");
    match rendering_address(MultisiteRes::Error { error: "no credit".to_owned() }) {
        Err(WatchErr::Engine(message)) => assert_eq!(message, "no credit"),
        other => panic!("{:?}", other),
    }
}
