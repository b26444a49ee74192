use ssrf_cloudrf::openssrf::serial::{format_serial, parse_serial, Serial};

fn serial(country: &str, org: Option<&str>, kind: &str, name: &str) -> Serial {
    Serial {
        country: country.to_owned(),
        org: org.map(|o| o.to_owned()),
        kind: kind.to_owned(),
        name: name.to_owned(),
    }
}

#[test]
fn parses_serial_without_organisation() {
    let parsed = parse_serial("GBR::AS:RND1");
    assert_eq!(parsed, serial("GBR", None, "AS", "RND1"));
    assert_eq!(format_serial(&parsed), "GBR::AS:RND1");
}

#[test]
fn parses_serial_with_organisation() {
    let parsed = parse_serial("USA:FCC:LO:KX7");
    assert_eq!(parsed, serial("USA", Some("FCC"), "LO", "KX7"));
    assert_eq!(format_serial(&parsed), "USA:FCC:LO:KX7");
}

#[test]
fn missing_parts_become_placeholders() {
    assert_eq!(parse_serial("GBR"), serial("GBR", None, "ERR_EXPECTED_TYPE", "ERR_EXPECTED_NAME"));
    assert_eq!(parse_serial("GBR:MOD"), serial("GBR", Some("MOD"), "ERR_EXPECTED_TYPE", "ERR_EXPECTED_NAME"));
    assert_eq!(parse_serial("GBR::AS"), serial("GBR", None, "AS", "ERR_EXPECTED_NAME"));
    assert_eq!(parse_serial(""), serial("", None, "ERR_EXPECTED_TYPE", "ERR_EXPECTED_NAME"));
}

#[test]
fn text_behind_a_fourth_separator_is_dropped() {
    assert_eq!(parse_serial("A:B:C:D:E:F"), serial("A", Some("B"), "C", "D"));
    assert_eq!(parse_serial("A:B:C:"), serial("A", Some("B"), "C", ""));
}

#[test]
fn serial_round_trips_through_text() {
    let cases = [
        serial("GBR", None, "AS", "RND1"),
        serial("", None, "", ""),
        serial("DEU", Some("BNetzA"), "LO", "Sender Nord"),
        serial("ERR_EXPECTED_TYPE", Some("x"), "ERR_EXPECTED_NAME", "é✓"),
    ];
    for case in cases.iter() {
        assert_eq!(&parse_serial(&format_serial(case)), case);
    }
}

#[test]
fn serials_compare_part_by_part() {
    assert_eq!(serial("GBR", None, "AS", "A"), serial("GBR", None, "AS", "A"));
    assert_ne!(serial("GBR", None, "AS", "A"), serial("GBR", Some("X"), "AS", "A"));
    assert_ne!(serial("GBR", None, "AS", "A"), serial("GBR", None, "AS", "B"));
    assert_ne!(serial("GBR", None, "AS", "A"), serial("GBR", None, "LO", "A"));
    assert_ne!(serial("GBR", None, "AS", "A"), serial("FRA", None, "AS", "A"));
    let copy = serial("GBR", Some("X"), "AS", "A").clone();
    assert_eq!(copy, serial("GBR", Some("X"), "AS", "A"));
}

#[test]
fn text_with_three_separators_round_trips() {
    for text in ["GBR::AS:RND1", ":::", "a:b:c:d", "USA:FCC:LO:", ":x::"] {
        assert_eq!(format_serial(&parse_serial(text)), text);
    }
    assert_eq!(format_serial(&parse_serial("GBR")), "GBR::ERR_EXPECTED_TYPE:ERR_EXPECTED_NAME");
    assert_eq!(format_serial(&parse_serial("a:b:c:d:e")), "a:b:c:d");
}
