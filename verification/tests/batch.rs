use ssrf_cloudrf::cloudrf::interference::{InterferenceReq, InterferenceRes, Jamming, Signal};
use ssrf_cloudrf::cloudrf::misc::Bounds;
use ssrf_cloudrf::cloudrf::multisite::MultisiteRes;
use ssrf_cloudrf::cloudrf::CloudRfErr;
use ssrf_cloudrf::interference_analysis::{
    coverage_artifact, coverage_request, interference_artifact, interference_request_for,
    interference_requests, Action, Analysis, AnalysisErr, Event, Stage,
};
use ssrf_cloudrf::openssrf::assignment::config::{ConfigEmission, ConfigFreq, Configuration};
use ssrf_cloudrf::openssrf::assignment::link::{Link, StationConfig};
use ssrf_cloudrf::openssrf::assignment::station::{Station, StationLoc};
use ssrf_cloudrf::openssrf::assignment::Assignment;
use ssrf_cloudrf::openssrf::location::{Location, Point};
use ssrf_cloudrf::openssrf::serial::Serial;
use ssrf_cloudrf::openssrf::{OpenssrfErr, SSRF};
use ssrf_cloudrf::openssrf_to_cloudrf::SsrfToCloudRFrr;

fn names(list: &[&str]) -> Vec<String> {
    list.iter().map(|n| n.to_string()).collect()
}

fn sites(request: &InterferenceReq) -> (Vec<String>, Vec<String>) {
    match (&request.signal, &request.jamming) {
        (Signal::Sites { s_sites }, Jamming::Sites { j_sites }) => (s_sites.clone(), j_sites.clone()),
        other => panic!("{:?}", other),
    }
}

fn serial(kind: &str, name: &str) -> Serial {
    Serial { country: "GBR".to_owned(), org: None, kind: kind.to_owned(), name: name.to_owned() }
}

fn assignment(name: &str, title: &str, station_ref: &str) -> Assignment {
    Assignment {
        title: Some(title.to_owned()),
        serial: serial("AS", name),
        stations: vec![Station {
            station_id: "s".to_owned(),
            station_name: None,
            ant_structure_height: 10,
            station_loc: StationLoc { loc_sat_ref: serial("LO", station_ref), location_radius: 15_000_000 },
        }],
        configurations: vec![Configuration {
            config_id: "A".to_owned(),
            config_emission: ConfigEmission { necessary_bw_min: 10_000_000 },
            config_freq: ConfigFreq { freq_min: 100_000_000 },
            eirp_min: 1_000_000,
        }],
        links: vec![Link {
            link_id: "s-A".to_owned(),
            station_config: StationConfig {
                config_id: "A".to_owned(),
                station_id: "s".to_owned(),
                feedline_loss: 0,
                pointing_az_min: 0,
                pointing_elev_min: 0,
            },
        }],
    }
}

fn document(titles: &[&str]) -> SSRF {
    SSRF {
        locations: vec![Location { name: "L".to_owned(), serial: serial("LO", "L"), point: Point { lat: 1, lon: 2 } }],
        assignments: titles.iter().enumerate().map(|(i, t)| assignment(&format!("a{}", i), t, "L")).collect(),
    }
}

fn coverage(network: &str, number: u32) -> MultisiteRes {
    MultisiteRes::Success {
        kmz: format!("https://e/{}.kmz", number),
        png_wgs84: format!("https://e/{}_{}_MULTISITE.4326.png", number, network),
        png_mercator: String::new(),
        bounds: Bounds { north: 0, east: 0, south: 0, west: 0 },
        area: 0,
        coverage: 0,
        key: vec![],
        elapsed: 0,
        calculation_adjusted: None,
    }
}

fn interference(number: u32) -> InterferenceRes {
    InterferenceRes::Success {
        kmz: format!("https://e/i{}.kmz", number),
        png_wgs84: String::new(),
        png_mercator: String::new(),
        bounds: Bounds { north: 0, east: 0, south: 0, west: 0 },
        key: vec![],
        elapsed: 0,
        calculation_adjusted: None,
    }
}

#[test]
fn each_calculation_against_all_the_others() {
    let requests = interference_requests(&names(&["A", "B", "C"]));
    assert_eq!(requests.len(), 3);
    assert_eq!(sites(&requests[0]), (names(&["A"]), names(&["B", "C"])));
    assert_eq!(sites(&requests[1]), (names(&["B"]), names(&["A", "C"])));
    assert_eq!(sites(&requests[2]), (names(&["C"]), names(&["A", "B"])));
    for (request, name) in requests.iter().zip(["A", "B", "C"]) {
        assert_eq!(request.name, name);
        assert_eq!(request.colour_key, "JS.dB");
    }
}

#[test]
fn few_calculations() {
    assert!(interference_requests(&vec![]).is_empty());
    let alone = interference_requests(&names(&["A"]));
    assert_eq!(sites(&alone[0]), (names(&["A"]), names(&[])));
    let twins = interference_requests(&names(&["A", "A"]));
    assert_eq!(sites(&twins[0]), (names(&["A"]), names(&["A"])));
    assert_eq!(sites(&twins[1]), (names(&["A"]), names(&["A"])));
    assert!(interference_request_for(&names(&["A"]), 1).is_none());
    assert!(interference_request_for(&vec![], 0).is_none());
    assert_eq!(sites(&interference_request_for(&names(&["A", "B"]), 1).unwrap()), (names(&["B"]), names(&["A"])));
}

#[test]
fn coverage_answers() {
    match coverage_artifact(coverage("Net", 41), "Net") {
        Ok((name, Action::Fetch { url, file_name })) => {
            assert_eq!(name, "41_Net_MULTISITE");
            assert_eq!(url, "https://e/41.kmz");
            assert_eq!(file_name, "41_Net_MULTISITE.kmz");
        }
        other => panic!("{:?}", other),
    }
    match coverage_artifact(coverage("Net", 41), "Other") {
        Err(AnalysisErr::Client(CloudRfErr::CalcNameError(address))) => {
            assert_eq!(address, "https://e/41_Net_MULTISITE.4326.png")
        }
        other => panic!("{:?}", other),
    }
    match coverage_artifact(MultisiteRes::Error { error: "no credit".to_owned() }, "Net") {
        Err(AnalysisErr::Engine(message)) => assert_eq!(message, "no credit"),
        other => panic!("{:?}", other),
    }
}

#[test]
fn interference_answers() {
    match interference_artifact(interference(3), "41_Net_MULTISITE") {
        Ok(Action::Fetch { url, file_name }) => {
            assert_eq!(url, "https://e/i3.kmz");
            assert_eq!(file_name, "41_Net_MULTISITE_interference.kmz");
        }
        other => panic!("{:?}", other),
    }
    match interference_artifact(InterferenceRes::Error { error: "busy".to_owned() }, "x") {
        Err(AnalysisErr::Engine(message)) => assert_eq!(message, "busy"),
        other => panic!("{:?}", other),
    }
}

#[test]
fn coverage_request_of_each_assignment() {
    let doc = document(&["One", "Two"]);
    let request = coverage_request(&doc, 1).unwrap().unwrap();
    assert_eq!(request.network, "Two");
    assert!(coverage_request(&doc, 2).is_none());
    assert_eq!(request.output.col, "LTE.dBm");
    assert_eq!(request.transmitters.len(), 1);
}

#[test]
fn a_whole_run() {
    let doc = document(&["One", "Two", "Three"]);
    let mut log: Vec<String> = Vec::new();
    let (mut run, mut action) = Analysis::new().step(&doc, Event::Begin);
    let mut number = 0;
    loop {
        let event = match action {
            Action::AskMultisite(request) => {
                number += 1;
                log.push(format!("multisite {}", request.network));
                Event::Multisite(coverage(&request.network, number))
            }
            Action::AskInterference(request) => {
                let (signal, jamming) = sites(&request);
                log.push(format!("interference {:?} {:?}", signal, jamming));
                Event::Interference(interference(number))
            }
            Action::Fetch { url, file_name } => {
                log.push(format!("fetch {} {}", url, file_name));
                Event::Stored
            }
            Action::Finish => break,
            Action::Abort(error) => panic!("{:?}", error),
        };
        let next = run.step(&doc, event);
        run = next.0;
        action = next.1;
    }
    assert!(matches!(run.stage, Stage::Over));
    assert_eq!(run.calc_names, names(&["1_One_MULTISITE", "2_Two_MULTISITE", "3_Three_MULTISITE"]));
    assert_eq!(
        log,
        names(&[
            "multisite One",
            "fetch https://e/1.kmz 1_One_MULTISITE.kmz",
            "multisite Two",
            "fetch https://e/2.kmz 2_Two_MULTISITE.kmz",
            "multisite Three",
            "fetch https://e/3.kmz 3_Three_MULTISITE.kmz",
            "interference [\"1_One_MULTISITE\"] [\"2_Two_MULTISITE\", \"3_Three_MULTISITE\"]",
            "fetch https://e/i3.kmz 1_One_MULTISITE_interference.kmz",
            "interference [\"2_Two_MULTISITE\"] [\"1_One_MULTISITE\", \"3_Three_MULTISITE\"]",
            "fetch https://e/i3.kmz 2_Two_MULTISITE_interference.kmz",
            "interference [\"3_Three_MULTISITE\"] [\"1_One_MULTISITE\", \"2_Two_MULTISITE\"]",
            "fetch https://e/i3.kmz 3_Three_MULTISITE_interference.kmz",
        ])
    );
}

#[test]
fn an_empty_document_finishes_at_once() {
    let doc = document(&[]);
    let (run, action) = Analysis::new().step(&doc, Event::Begin);
    assert!(matches!(action, Action::Finish));
    assert!(matches!(run.stage, Stage::Over));
}

#[test]
fn any_failure_ends_the_run() {
    let doc = document(&["One", "Two"]);
    let (run, _) = Analysis::new().step(&doc, Event::Begin);
    let (run, action) = run.step(&doc, Event::Multisite(MultisiteRes::Error { error: "bad key".to_owned() }));
    match action {
        Action::Abort(AnalysisErr::Engine(message)) => assert_eq!(message, "bad key"),
        other => panic!("{:?}", other),
    }
    assert!(matches!(run.stage, Stage::Over));
    let (_, action) = run.step(&doc, Event::Stored);
    assert!(matches!(action, Action::Abort(AnalysisErr::OutOfTurn)));

    let (run, _) = Analysis::new().step(&doc, Event::Begin);
    let (_, action) = run.step(&doc, Event::Failed(CloudRfErr::ReqwestError("refused".to_owned())));
    match action {
        Action::Abort(AnalysisErr::Client(CloudRfErr::ReqwestError(message))) => assert_eq!(message, "refused"),
        other => panic!("{:?}", other),
    }

    let (run, _) = Analysis::new().step(&doc, Event::Begin);
    let (run, _) = run.step(&doc, Event::Multisite(coverage("One", 1)));
    let (_, action) = run.step(&doc, Event::Failed(CloudRfErr::DownloadError("disk full".to_owned())));
    match action {
        Action::Abort(AnalysisErr::Client(CloudRfErr::DownloadError(message))) => assert_eq!(message, "disk full"),
        other => panic!("{:?}", other),
    }

    let (run, _) = Analysis::new().step(&doc, Event::Begin);
    let (_, action) = run.step(&doc, Event::Multisite(coverage("Else", 1)));
    assert!(matches!(action, Action::Abort(AnalysisErr::Client(CloudRfErr::CalcNameError(_)))));
}

#[test]
fn an_assignment_that_does_not_translate_ends_the_run() {
    let mut doc = document(&["One", "Two"]);
    doc.assignments[1].stations[0].station_loc.loc_sat_ref = serial("LO", "nowhere");
    let (run, _) = Analysis::new().step(&doc, Event::Begin);
    let (run, _) = run.step(&doc, Event::Multisite(coverage("One", 1)));
    let (run, action) = run.step(&doc, Event::Stored);
    match action {
        Action::Abort(AnalysisErr::Translation(SsrfToCloudRFrr::OpenssrfError(
            OpenssrfErr::LocationNotFound { serial: missing },
        ))) => assert_eq!(missing, serial("LO", "nowhere")),
        other => panic!("{:?}", other),
    }
    assert!(matches!(run.stage, Stage::Over));
}

#[test]
fn events_out_of_turn_end_the_run() {
    let doc = document(&["One"]);
    let (_, action) = Analysis::new().step(&doc, Event::Stored);
    assert!(matches!(action, Action::Abort(AnalysisErr::OutOfTurn)));
    let (run, _) = Analysis::new().step(&doc, Event::Begin);
    let (_, action) = run.step(&doc, Event::Interference(interference(1)));
    assert!(matches!(action, Action::Abort(AnalysisErr::OutOfTurn)));
    let stray = Analysis { stage: Stage::Interference { index: 4 }, calc_names: names(&["A"]) };
    let (_, action) = stray.step(&doc, Event::Interference(interference(1)));
    assert!(matches!(action, Action::Abort(AnalysisErr::OutOfTurn)));
    let last = Analysis { stage: Stage::CoverageFile { index: usize::MAX }, calc_names: vec![] };
    let (_, action) = last.step(&doc, Event::Stored);
    assert!(matches!(action, Action::Abort(AnalysisErr::OutOfTurn)));
}
