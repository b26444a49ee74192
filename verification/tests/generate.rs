use ssrf_cloudrf::generate::{build_configurations, generate_random_openssrf, FULL_TURN, HIGHEST, LOWEST, RADIUS};
use ssrf_cloudrf::openssrf::location::Point;
use ssrf_cloudrf::openssrf::serial::{format_serial, Serial};
use ssrf_cloudrf::openssrf_to_cloudrf::{ssrf_to_area_req, ssrf_to_multisite_req};

fn points(n: usize) -> Vec<Point> {
    (0..n).map(|i| Point { lat: 18_000_000 + i as i64, lon: -36_000 - i as i64 }).collect()
}

#[test]
fn the_three_configurations() {
    let list = build_configurations();
    let seen: Vec<(String, i64, i64, i64)> = list
        .iter()
        .map(|c| (c.config_id.clone(), c.config_freq.freq_min, c.eirp_min, c.config_emission.necessary_bw_min))
        .collect();
    assert_eq!(
        seen,
        [
            ("A".to_owned(), 100_000_000, 1_000_000, 10_000_000),
            ("B".to_owned(), 80_000_000, 500_000, 10_000_000),
            ("C".to_owned(), 120_000_000, 1_500_000, 10_000_000),
        ]
    );
}

#[test]
fn one_site_for_each_point() {
    let doc = generate_random_openssrf(points(12));
    assert_eq!(doc.locations.len(), 12);
    assert_eq!(doc.assignments.len(), 1);
    let assignment = &doc.assignments[0];
    assert_eq!(assignment.title, Some("RandomSSRF-12".to_owned()));
    assert_eq!(format_serial(&assignment.serial), "GBR::AS:RND12");
    assert_eq!(assignment.stations.len(), 12);
    assert_eq!(assignment.links.len(), 12);
    assert_eq!(assignment.configurations.len(), 3);
    for i in 0..12 {
        let name = format!("RND{}", i);
        let location = &doc.locations[i];
        assert_eq!(location.name, name);
        assert_eq!(format_serial(&location.serial), format!("GBR::LO:{}", name));
        assert_eq!(location.point, points(12)[i]);
        let station = &assignment.stations[i];
        assert_eq!(station.station_id, name);
        assert_eq!(station.station_name, Some(name.clone()));
        assert!(LOWEST <= station.ant_structure_height && station.ant_structure_height <= HIGHEST);
        assert_eq!(station.station_loc.loc_sat_ref, location.serial);
        assert_eq!(station.station_loc.location_radius, RADIUS);
        let link = &assignment.links[i];
        let config = &link.station_config.config_id;
        assert!(["A", "B", "C"].contains(&config.as_str()));
        assert_eq!(link.link_id, format!("{}-{}", name, config));
        assert_eq!(link.station_config.station_id, name);
        assert_eq!(link.station_config.feedline_loss, 0);
        assert_eq!(link.station_config.pointing_elev_min, 0);
        assert!(0 <= link.station_config.pointing_az_min && link.station_config.pointing_az_min < FULL_TURN);
    }
}

#[test]
fn draws_differ() {
    let doc = generate_random_openssrf(points(400));
    let assignment = &doc.assignments[0];
    let first = assignment.links[0].station_config.pointing_az_min;
    assert!(assignment.links.iter().any(|l| l.station_config.pointing_az_min != first));
    for height in LOWEST..=HIGHEST {
        assert!(assignment.stations.iter().any(|s| s.ant_structure_height == height));
    }
    for config in ["A", "B", "C"] {
        assert!(assignment.links.iter().any(|l| l.station_config.config_id == config));
    }
}

#[test]
fn no_point_no_site() {
    let doc = generate_random_openssrf(vec![]);
    assert!(doc.locations.is_empty());
    assert_eq!(doc.assignments[0].title, Some("RandomSSRF-0".to_owned()));
    assert!(doc.assignments[0].links.is_empty());
    assert_eq!(doc.assignments[0].configurations.len(), 3);
}

#[test]
fn a_generated_document_translates() {
    let doc = generate_random_openssrf(points(9));
    let serial = Serial { country: "GBR".to_owned(), org: None, kind: "AS".to_owned(), name: "RND9".to_owned() };
    let request = ssrf_to_multisite_req(&doc, &serial).unwrap();
    assert_eq!(request.network, "RandomSSRF-9");
    assert_eq!(request.transmitters.len(), 9);
    assert_eq!(request.output.rad, RADIUS);
    for (i, transmitter) in request.transmitters.iter().enumerate() {
        assert_eq!(transmitter.tx.lat, 18_000_000 + i as i64);
        assert_eq!(transmitter.tx.lon, -36_000 - i as i64);
    }
    let link = doc.assignments[0].links[4].link_id.clone();
    let area = ssrf_to_area_req(&doc, &serial, &link).unwrap();
    assert_eq!(area.site, "RND4");
}
