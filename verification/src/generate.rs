//! Documents for trying things out: any number of sites at given places,
//! each with a station of random height and a link of random bearing to one
//! of three configurations.

use vstd::prelude::*;
use vstd::string::*;

use rand::seq::SliceRandom;
use rand::Rng;

use crate::find::{first_index, first_index_missing, first_index_sound, least_match};
use crate::openssrf::assignment::config::{ConfigEmission, ConfigFreq, Configuration};
use crate::openssrf::assignment::link::{Link, StationConfig};
use crate::openssrf::assignment::station::{Station, StationLoc};
use crate::openssrf::assignment::Assignment;
use crate::openssrf::coordinate::{padded, push_padded};
use crate::openssrf::location::{Location, Point};
use crate::openssrf::serial::{Serial, SerialView};
use crate::openssrf::SSRF;
use crate::openssrf_to_cloudrf::{link_resolves, links_resolve};
use crate::quantity::{Micro, MICRO};

verus! {

/// The lowest antenna structure, in metres.
pub const LOWEST: i32 = 5;

/// The highest antenna structure, in metres.
pub const HIGHEST: i32 = 15;

/// The radius that every station covers: 15 km.
pub const RADIUS: Micro = 15_000_000;

/// One full turn, in degrees.
pub const FULL_TURN: Micro = 360_000_000;

/// Trusted: `rand::Rng::gen_range` over an inclusive range, on the
/// generator of the thread. Which number comes back is not said, only that
/// it lies in the range; an empty range is not asked for.
#[verifier::external_body]
fn random_between(low: i64, high: i64) -> (drawn: i64)
    requires
        low <= high,
    ensures
        low <= drawn <= high,
{
    rand::thread_rng().gen_range(low..=high)
}

/// Trusted: `rand::seq::SliceRandom::choose`, on the generator of the
/// thread. Which item comes back is not said, only that it is one of the
/// list, and that none comes back just when the list is empty.
#[verifier::external_body]
fn choose_configuration(configurations: &Vec<Configuration>) -> (chosen: Option<&Configuration>)
    ensures
        match chosen {
            Some(one) => exists|i: int|
                0 <= i < configurations.len() && *one == #[trigger] configurations[i],
            None => configurations.len() == 0,
        },
{
    configurations.choose(&mut rand::thread_rng())
}

/// A configuration with this id, frequency and power, 10 MHz wide.
pub open spec fn is_configuration(c: Configuration, id: Seq<char>, freq: int, eirp: int) -> bool {
    &&& c.config_id@ == id
    &&& c.config_emission.necessary_bw_min == 10 * MICRO
    &&& c.config_freq.freq_min == freq
    &&& c.eirp_min == eirp
}

/// The three configurations of every generated assignment: `A` at 100 MHz
/// and 1 dBW, `B` at 80 MHz and 0.5 dBW, `C` at 120 MHz and 1.5 dBW.
pub open spec fn are_the_configurations(list: Seq<Configuration>) -> bool {
    &&& list.len() == 3
    &&& is_configuration(list[0], "A"@, 100 * MICRO, 1_000_000)
    &&& is_configuration(list[1], "B"@, 80 * MICRO, 500_000)
    &&& is_configuration(list[2], "C"@, 120 * MICRO, 1_500_000)
}

fn configuration(id: &str, freq: Micro, eirp: Micro) -> (made: Configuration)
    ensures
        is_configuration(made, id@, freq as int, eirp as int),
{
    Configuration {
        config_id: id.to_owned(),
        config_emission: ConfigEmission { necessary_bw_min: 10 * MICRO },
        config_freq: ConfigFreq { freq_min: freq },
        eirp_min: eirp,
    }
}

/// The configurations that generated links choose from.
pub fn build_configurations() -> (list: Vec<Configuration>)
    ensures
        are_the_configurations(list@),
{
    let mut list: Vec<Configuration> = Vec::new();
    list.push(configuration("A", 100 * MICRO, 1_000_000));
    list.push(configuration("B", 80 * MICRO, 500_000));
    list.push(configuration("C", 120 * MICRO, 1_500_000));
    list
}

/// `head` followed by `number` in decimal.
pub open spec fn numbered(head: Seq<char>, number: nat) -> Seq<char> {
    head + padded(number, 0)
}

/// The serial of a generated item: British, no organisation.
pub open spec fn british(kind: Seq<char>, name: Seq<char>) -> SerialView {
    SerialView { country: "GBR"@, org: None, kind, name }
}

fn numbered_text(head: &str, number: u64) -> (text: String)
    ensures
        text@ == numbered(head@, number as nat),
{
    let mut text = head.to_owned();
    push_padded(&mut text, number, 0);
    text
}

fn british_serial(kind: &str, name: &String) -> (serial: Serial)
    ensures
        serial@ == british(kind@, name@),
{
    Serial { country: "GBR".to_owned(), org: None, kind: kind.to_owned(), name: name.clone() }
}

/// Location `i`: named `RND<i>`, at its point.
pub open spec fn is_site_location(location: Location, i: int, point: Point) -> bool {
    &&& location.name@ == numbered("RND"@, i as nat)
    &&& location.serial@ == british("LO"@, numbered("RND"@, i as nat))
    &&& location.point == point
}

/// Station `i`: named as its location and standing there, between 5 m and
/// 15 m high, covering 15 km.
pub open spec fn is_site_station(station: Station, i: int) -> bool {
    &&& station.station_id@ == numbered("RND"@, i as nat)
    &&& station.station_name matches Some(name)
    &&& name@ == numbered("RND"@, i as nat)
    &&& LOWEST <= station.ant_structure_height <= HIGHEST
    &&& station.station_loc.loc_sat_ref@ == british("LO"@, numbered("RND"@, i as nat))
    &&& station.station_loc.location_radius == RADIUS
}

/// Link `i`: from station `i` to one of the configurations, named after
/// both, without loss or tilt, pointing anywhere in the full turn.
pub open spec fn is_site_link(link: Link, i: int, configurations: Seq<Configuration>) -> bool {
    &&& exists|c: int|
        0 <= c < configurations.len() && link.station_config.config_id@
            == (#[trigger] configurations[c]).config_id@
    &&& link.link_id@ == numbered("RND"@, i as nat) + seq!['-'] + link.station_config.config_id@
    &&& link.station_config.station_id@ == numbered("RND"@, i as nat)
    &&& link.station_config.feedline_loss == 0
    &&& 0 <= link.station_config.pointing_az_min < FULL_TURN
    &&& link.station_config.pointing_elev_min == 0
}

/// A generated document for these points: one location, station and link
/// for each point, in one assignment `RandomSSRF-<n>` under the serial
/// `GBR::AS:RND<n>`.
pub open spec fn is_generated(doc: SSRF, points: Seq<Point>) -> bool {
    let n = points.len();
    &&& doc.locations.len() == n
    &&& forall|i: int| 0 <= i < n ==> is_site_location(#[trigger] doc.locations[i], i, points[i])
    &&& doc.assignments.len() == 1
    &&& doc.assignments[0].title matches Some(title)
    &&& title@ == numbered("RandomSSRF-"@, n)
    &&& doc.assignments[0].serial@ == british("AS"@, numbered("RND"@, n))
    &&& are_the_configurations(doc.assignments[0].configurations@)
    &&& doc.assignments[0].stations.len() == n
    &&& forall|i: int| 0 <= i < n ==> is_site_station(#[trigger] doc.assignments[0].stations[i], i)
    &&& doc.assignments[0].links.len() == n
    &&& forall|i: int|
        0 <= i < n ==> is_site_link(
            #[trigger] doc.assignments[0].links[i],
            i,
            doc.assignments[0].configurations@,
        )
}

/// A location for each point.
fn site_locations(points: &Vec<Point>) -> (locations: Vec<Location>)
    ensures
        locations.len() == points.len(),
        forall|i: int|
            0 <= i < points.len() ==> is_site_location(#[trigger] locations[i], i, points[i]),
{
    let mut locations: Vec<Location> = Vec::new();
    let mut i: usize = 0;
    while i < points.len()
        invariant
            i <= points.len(),
            locations.len() == i,
            forall|j: int| 0 <= j < i ==> is_site_location(#[trigger] locations[j], j, points[j]),
        decreases points.len() - i,
    {
        let name = numbered_text("RND", i as u64);
        let serial = british_serial("LO", &name);
        locations.push(Location { name, serial, point: points[i] });
        i += 1;
    }
    locations
}

/// A document for trying things out, with one site at each of the points.
/// Heights, configurations and bearings are drawn at random.
pub fn generate_random_openssrf(points: Vec<Point>) -> (doc: SSRF)
    ensures
        is_generated(doc, points@),
{
    let n = points.len();
    let configurations = build_configurations();
    let locations = site_locations(&points);
    let mut stations: Vec<Station> = Vec::new();
    let mut links: Vec<Link> = Vec::new();
    let mut i: usize = 0;
    while i < n
        invariant
            i <= n,
            n == points.len(),
            are_the_configurations(configurations@),
            stations.len() == i,
            links.len() == i,
            forall|j: int| 0 <= j < i ==> is_site_station(#[trigger] stations[j], j),
            forall|j: int| 0 <= j < i ==> is_site_link(#[trigger] links[j], j, configurations@),
        decreases n - i,
    {
        let name = numbered_text("RND", i as u64);
        let height = random_between(LOWEST as i64, HIGHEST as i64) as i32;
        let station = Station {
            station_id: name.clone(),
            station_name: Some(name.clone()),
            ant_structure_height: height,
            station_loc: StationLoc {
                loc_sat_ref: british_serial("LO", &name),
                location_radius: RADIUS,
            },
        };
        let config = match choose_configuration(&configurations) {
            Some(config) => config,
            None => &configurations[0],
        };
        let mut link_id = name.clone();
        link_id.append("-");
        link_id.append(config.config_id.as_str());
        proof {
            reveal_strlit("-");
            assert("-"@ == seq!['-']);
        }
        let link = Link {
            link_id,
            station_config: StationConfig {
                config_id: config.config_id.clone(),
                station_id: name,
                feedline_loss: 0,
                pointing_az_min: random_between(0, FULL_TURN - 1),
                pointing_elev_min: 0,
            },
        };
        assert(is_site_link(link, i as int, configurations@));
        stations.push(station);
        links.push(link);
        i += 1;
    }
    let title = numbered_text("RandomSSRF-", n as u64);
    let short = numbered_text("RND", n as u64);
    let assignment = Assignment {
        title: Some(title),
        serial: british_serial("AS", &short),
        stations,
        configurations,
        links,
    };
    let mut assignments: Vec<Assignment> = Vec::new();
    assignments.push(assignment);
    SSRF { locations, assignments }
}

/// Every link of a generated document resolves: its multisite request can
/// always be made.
pub proof fn generated_links_resolve(doc: SSRF, points: Seq<Point>)
    requires
        is_generated(doc, points),
    ensures
        first_index(links_resolve(doc, doc.assignments[0]), false) is None,
{
    let assignment = doc.assignments[0];
    let resolve = links_resolve(doc, assignment);
    assert forall|i: int| 0 <= i < resolve.len() implies resolve[i] != false by {
        let link = assignment.links[i];
        assert(is_site_link(link, i, assignment.configurations@));
        let name = numbered("RND"@, i as nat);
        assert(is_site_station(assignment.stations[i], i));
        assert(assignment.station_ids()[i] == name);
        least_match(assignment.station_ids(), name, i);
        first_index_sound(assignment.station_ids(), name);
        let s = first_index(assignment.station_ids(), name)->0;
        let station = assignment.stations[s];
        assert(is_site_station(station, s));
        assert(station.station_id@ == assignment.station_ids()[s]);
        let c = choose|c: int|
            0 <= c < assignment.configurations.len() && link.station_config.config_id@
                == (#[trigger] assignment.configurations[c]).config_id@;
        assert(assignment.config_ids()[c] == link.station_config.config_id@);
        least_match(assignment.config_ids(), link.station_config.config_id@, c);
        assert(is_site_location(doc.locations[s], s, points[s]));
        assert(doc.location_serials()[s] == station.station_loc.loc_sat_ref@);
        least_match(doc.location_serials(), station.station_loc.loc_sat_ref@, s);
        assert(link_resolves(doc, assignment, link));
    }
    first_index_missing(resolve, false);
}

} // verus!
