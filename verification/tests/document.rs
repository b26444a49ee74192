use ssrf_cloudrf::openssrf::assignment::config::{ConfigEmission, ConfigFreq, Configuration};
use ssrf_cloudrf::openssrf::assignment::link::{Link, StationConfig};
use ssrf_cloudrf::openssrf::assignment::station::{Station, StationLoc};
use ssrf_cloudrf::openssrf::assignment::Assignment;
use ssrf_cloudrf::openssrf::location::{Location, Point};
use ssrf_cloudrf::openssrf::serial::Serial;
use ssrf_cloudrf::openssrf::{OpenssrfErr, SSRF};

fn serial(kind: &str, name: &str) -> Serial {
    Serial { country: "GBR".to_owned(), org: None, kind: kind.to_owned(), name: name.to_owned() }
}

fn station(id: &str, location: &str) -> Station {
    Station {
        station_id: id.to_owned(),
        station_name: None,
        ant_structure_height: 10,
        station_loc: StationLoc { loc_sat_ref: serial("LO", location), location_radius: 15_000_000 },
    }
}

fn config(id: &str, eirp: i64) -> Configuration {
    Configuration {
        config_id: id.to_owned(),
        config_emission: ConfigEmission { necessary_bw_min: 10_000_000 },
        config_freq: ConfigFreq { freq_min: 100_000_000 },
        eirp_min: eirp,
    }
}

fn link(id: &str, station: &str, config: &str) -> Link {
    Link {
        link_id: id.to_owned(),
        station_config: StationConfig {
            config_id: config.to_owned(),
            station_id: station.to_owned(),
            feedline_loss: 0,
            pointing_az_min: 0,
            pointing_elev_min: 0,
        },
    }
}

fn assignment(name: &str, stations: &[&str]) -> Assignment {
    Assignment {
        title: None,
        serial: serial("AS", name),
        stations: stations.iter().map(|s| station(s, "L")).collect(),
        configurations: vec![config("A", 1), config("B", 2), config("A", 3)],
        links: vec![link("l1", "s1", "A"), link("l2", "s2", "B"), link("l1", "s2", "A")],
    }
}

fn document() -> SSRF {
    SSRF {
        locations: vec![
            Location { name: "first".to_owned(), serial: serial("LO", "L"), point: Point { lat: 1, lon: 2 } },
            Location { name: "second".to_owned(), serial: serial("LO", "M"), point: Point { lat: 3, lon: 4 } },
            Location { name: "third".to_owned(), serial: serial("LO", "L"), point: Point { lat: 5, lon: 6 } },
        ],
        assignments: vec![assignment("one", &["s1", "s2"]), assignment("two", &["s3"])],
    }
}

#[test]
fn finds_what_is_there() {
    let doc = document();
    assert_eq!(doc.get_assignment(&serial("AS", "two")).unwrap().stations[0].station_id, "s3");
    assert_eq!(doc.get_location(&serial("LO", "M")).unwrap().name, "second");
    let one = doc.get_assignment(&serial("AS", "one")).unwrap();
    assert_eq!(one.get_station("s2").unwrap().station_id, "s2");
    assert_eq!(one.get_config("B").unwrap().eirp_min, 2);
    assert_eq!(one.get_link("l2").unwrap().station_config.station_id, "s2");
}

#[test]
fn the_first_of_equal_keys_is_found() {
    let doc = document();
    assert_eq!(doc.get_location(&serial("LO", "L")).unwrap().name, "first");
    let one = doc.get_assignment(&serial("AS", "one")).unwrap();
    assert_eq!(one.get_config("A").unwrap().eirp_min, 1);
    assert_eq!(one.get_link("l1").unwrap().station_config.station_id, "s1");
}

#[test]
fn a_missing_station_names_assignment_and_id() {
    let doc = document();
    let one = doc.get_assignment(&serial("AS", "one")).unwrap();
    match one.get_station("s3") {
        Err(OpenssrfErr::StationNotFound { station, assignment }) => {
            assert_eq!(station, "s3");
            assert_eq!(assignment, serial("AS", "one"));
        }
        other => panic!("{:?}", other),
    }
    let two = doc.get_assignment(&serial("AS", "two")).unwrap();
    assert_eq!(two.get_station("s3").unwrap().station_id, "s3");
    assert!(two.get_station("s1").is_err());
}

#[test]
fn each_lookup_has_its_own_error() {
    let doc = document();
    match doc.get_assignment(&serial("AS", "none")) {
        Err(OpenssrfErr::AssignmentNotFound { serial: missing }) => assert_eq!(missing, serial("AS", "none")),
        other => panic!("{:?}", other),
    }
    match doc.get_assignment(&serial("LO", "L")) {
        Err(OpenssrfErr::AssignmentNotFound { serial: missing }) => assert_eq!(missing, serial("LO", "L")),
        other => panic!("{:?}", other),
    }
    match doc.get_location(&serial("AS", "one")) {
        Err(OpenssrfErr::LocationNotFound { serial: missing }) => assert_eq!(missing, serial("AS", "one")),
        other => panic!("{:?}", other),
    }
    let one = doc.get_assignment(&serial("AS", "one")).unwrap();
    match one.get_link("") {
        Err(OpenssrfErr::LinkNotFound { link, assignment }) => {
            assert_eq!(link, "");
            assert_eq!(assignment, serial("AS", "one"));
        }
        other => panic!("{:?}", other),
    }
    match one.get_config("a") {
        Err(OpenssrfErr::ConfigNotFound { config, assignment }) => {
            assert_eq!(config, "a");
            assert_eq!(assignment, serial("AS", "one"));
        }
        other => panic!("{:?}", other),
    }
}

#[test]
fn an_empty_document_holds_nothing() {
    let doc = SSRF { locations: vec![], assignments: vec![] };
    assert!(doc.get_assignment(&serial("AS", "one")).is_err());
    assert!(doc.get_location(&serial("LO", "L")).is_err());
}
