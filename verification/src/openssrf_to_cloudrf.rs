//! From a network description to requests for the engine.
//!
//! Each link of an assignment becomes one transmitter: the station gives
//! the height, its location the place, the configuration frequency,
//! bandwidth and power, the link itself gain and pointing.

use vstd::prelude::*;
use vstd::string::*;

use crate::cloudrf::antenna::Antenna;
use crate::cloudrf::area::{AreaReq, AreaReqView};
use crate::cloudrf::multisite::{MultisiteReq, MultisiteReqView, MultisiteTransmitter};
use crate::cloudrf::output::{Output, OutputView, DEFAULT_NOISE_FLOOR};
use crate::cloudrf::transmitter::{Power, Transmitter};
use crate::cloudrf::{cloudrf_message, CloudRfErr};
use crate::find::{first_index, first_index_found, first_index_missing};
use crate::openssrf::assignment::config::Configuration;
use crate::openssrf::assignment::link::Link;
use crate::openssrf::assignment::station::Station;
use crate::openssrf::assignment::Assignment;
use crate::openssrf::location::Location;
use crate::openssrf::serial::Serial;
use crate::openssrf::{openssrf_message, OpenssrfErr, SSRF};
use crate::quantity::{clamped, lowered, negated, whole, Micro, MICRO};

verus! {

/// Why a description could not be turned into a request.
#[derive(Debug)]
pub enum SsrfToCloudRFrr {
    /// The engine's side failed.
    CloudRfError(CloudRfErr),
    /// The description lacks something.
    OpenssrfError(OpenssrfErr),
}

/// What the error says: which side failed, and that side's own words.
pub open spec fn translation_message(error: SsrfToCloudRFrr) -> Seq<char> {
    match error {
        SsrfToCloudRFrr::CloudRfError(inner) => "Cloudrf error `"@ + cloudrf_message(inner) + "`"@,
        SsrfToCloudRFrr::OpenssrfError(inner) => "Openssrf error `"@ + openssrf_message(inner)
            + "`"@,
    }
}

impl SsrfToCloudRFrr {
    /// The error in words.
    pub fn message(&self) -> (text: String)
        ensures
            text@ == translation_message(*self),
    {
        let (head, inner) = match self {
            SsrfToCloudRFrr::CloudRfError(inner) => ("Cloudrf error `", inner.message()),
            SsrfToCloudRFrr::OpenssrfError(inner) => ("Openssrf error `", inner.message()),
        };
        let mut text = head.to_owned();
        text.append(inner.as_str());
        text.append("`");
        text
    }
}

/// What a dipole radiates less than an isotropic radiator at equal power:
/// 2.15 dB.
pub const DIPOLE_OFFSET: Micro = 2_150_000;

/// The station that a link names, if the assignment has it.
pub open spec fn station_of(assignment: Assignment, link: Link) -> Option<Station> {
    match first_index(assignment.station_ids(), link.station_config.station_id@) {
        Some(i) => Some(assignment.stations[i]),
        None => None,
    }
}

/// The configuration that a link names, if the assignment has it.
pub open spec fn config_of(assignment: Assignment, link: Link) -> Option<Configuration> {
    match first_index(assignment.config_ids(), link.station_config.config_id@) {
        Some(i) => Some(assignment.configurations[i]),
        None => None,
    }
}

/// The location that a station refers to, if the document has it.
pub open spec fn location_of(ssrf: SSRF, station: Station) -> Option<Location> {
    match first_index(ssrf.location_serials(), station.station_loc.loc_sat_ref@) {
        Some(i) => Some(ssrf.locations[i]),
        None => None,
    }
}

/// Station, configuration and location of a link are all there.
pub open spec fn link_resolves(ssrf: SSRF, assignment: Assignment, link: Link) -> bool {
    &&& station_of(assignment, link) is Some
    &&& config_of(assignment, link) is Some
    &&& location_of(ssrf, station_of(assignment, link)->0) is Some
}

/// `error` names what a link lacks: its station first, else its
/// configuration, else the location of its station.
pub open spec fn is_link_failure(
    error: OpenssrfErr,
    ssrf: SSRF,
    assignment: Assignment,
    link: Link,
) -> bool {
    if station_of(assignment, link) is None {
        error matches OpenssrfErr::StationNotFound { station, assignment: of }
            && station@ == link.station_config.station_id@ && of == assignment.serial
    } else if config_of(assignment, link) is None {
        error matches OpenssrfErr::ConfigNotFound { config, assignment: of } && config@
            == link.station_config.config_id@ && of == assignment.serial
    } else {
        error matches OpenssrfErr::LocationNotFound { serial } && serial == station_of(
            assignment,
            link,
        )->0.station_loc.loc_sat_ref
    }
}

/// The transmitter of a link.
///
/// Its power is the level of the configuration's radiated power lowered by
/// [`DIPOLE_OFFSET`]: in watts, `10^((eirp_min - 2.15) / 10)`.
pub open spec fn transmitter_of(
    station: Station,
    config: Configuration,
    location: Location,
) -> Transmitter {
    Transmitter {
        lat: location.point.lat,
        lon: location.point.lon,
        alt: (station.ant_structure_height * MICRO) as i64,
        frq: config.config_freq.freq_min,
        txw: Power::Level(clamped(config.eirp_min - DIPOLE_OFFSET) as i64),
        bwi: config.config_emission.necessary_bw_min,
    }
}

/// The antenna of a link: its gain is the loss of the feed line with the
/// opposite sign.
pub open spec fn antenna_of(link: Link) -> Antenna {
    Antenna {
        txg: clamped(-(link.station_config.feedline_loss as int)) as i64,
        azi: link.station_config.pointing_az_min,
        tlt: link.station_config.pointing_elev_min,
        ..Antenna::default_spec()
    }
}

/// What a link that resolves adds to a multisite request.
pub open spec fn link_transmitter(
    ssrf: SSRF,
    assignment: Assignment,
    link: Link,
) -> MultisiteTransmitter {
    let station = station_of(assignment, link)->0;
    MultisiteTransmitter {
        tx: transmitter_of(
            station,
            config_of(assignment, link)->0,
            location_of(ssrf, station)->0,
        ),
        nf: DEFAULT_NOISE_FLOOR,
        antenna: antenna_of(link),
    }
}

/// The radius that the station of a link covers.
pub open spec fn link_radius(assignment: Assignment, link: Link) -> int {
    station_of(assignment, link)->0.station_loc.location_radius as int
}

/// The largest of the radii, and zero where none is above zero.
pub open spec fn widest(radii: Seq<int>) -> int
    decreases radii.len(),
{
    if radii.len() == 0 {
        0
    } else if widest(radii.drop_last()) >= radii.last() {
        widest(radii.drop_last())
    } else {
        radii.last()
    }
}

/// The name of the network in a request: the title of the assignment, or
/// `My_Network` where it has none.
pub open spec fn network_name(assignment: Assignment) -> Seq<char> {
    match assignment.title {
        Some(title) => title@,
        None => "My_Network"@,
    }
}

/// For each link, whether it resolves.
pub open spec fn links_resolve(ssrf: SSRF, assignment: Assignment) -> Seq<bool> {
    assignment.links@.map_values(|l: Link| link_resolves(ssrf, assignment, l))
}

/// The multisite request of an assignment whose links all resolve: one
/// transmitter for each link, in their order, and the widest radius.
pub open spec fn multisite_request(ssrf: SSRF, assignment: Assignment) -> MultisiteReqView {
    MultisiteReqView {
        network: network_name(assignment),
        transmitters: assignment.links@.map_values(
            |l: Link| link_transmitter(ssrf, assignment, l),
        ),
        output: OutputView {
            rad: widest(assignment.links@.map_values(|l: Link| link_radius(assignment, l))) as i64,
            ..Output::default_view()
        },
        ..MultisiteReq::default_view()
    }
}

/// The site of an area request: the name of the station, or of its location
/// where the station has none.
pub open spec fn site_name(station: Station, location: Location) -> Seq<char> {
    match station.station_name {
        Some(name) => name@,
        None => location.name@,
    }
}

/// The area request of a link that resolves.
pub open spec fn area_request(ssrf: SSRF, assignment: Assignment, link: Link) -> AreaReqView {
    let station = station_of(assignment, link)->0;
    let location = location_of(ssrf, station)->0;
    AreaReqView {
        site: site_name(station, location),
        network: network_name(assignment),
        transmitter: transmitter_of(station, config_of(assignment, link)->0, location),
        antenna: antenna_of(link),
        output: OutputView { rad: station.station_loc.location_radius, ..Output::default_view() },
        ..AreaReq::default_view()
    }
}

/// The widest radius is at least every radius and at least zero, and it is
/// zero or one of the radii: a maximum, never a sum.
pub proof fn widest_is_maximum(radii: Seq<int>)
    ensures
        widest(radii) >= 0,
        forall|i: int| 0 <= i < radii.len() ==> radii[i] <= widest(radii),
        widest(radii) == 0 || exists|i: int| 0 <= i < radii.len() && radii[i] == widest(radii),
    decreases radii.len(),
{
    if radii.len() > 0 {
        let front = radii.drop_last();
        widest_is_maximum(front);
        assert forall|i: int| 0 <= i < radii.len() implies radii[i] <= widest(radii) by {
            if i < front.len() {
                assert(radii[i] == front[i]);
            }
        }
        if widest(radii) != 0 {
            if widest(radii) == radii.last() {
                assert(radii[radii.len() - 1] == widest(radii));
            } else {
                let i = choose|i: int| 0 <= i < front.len() && front[i] == widest(front);
                assert(radii[i] == widest(radii));
            }
        }
    }
}

/// `request` is what the translation of the assignment with the given
/// serial comes to.
///
/// Without such an assignment it is the error that names the serial. With a
/// link that does not resolve it is the failure of the first such link.
/// Otherwise it is [`multisite_request`] of the first assignment with that
/// serial.
pub open spec fn is_multisite_outcome(
    ssrf: SSRF,
    assignment_serial: Serial,
    request: Result<MultisiteReq, SsrfToCloudRFrr>,
) -> bool {
    match first_index(ssrf.assignment_serials(), assignment_serial@) {
        None => request matches Err(
            SsrfToCloudRFrr::OpenssrfError(OpenssrfErr::AssignmentNotFound { serial }),
        ) && serial == assignment_serial,
        Some(a) => match first_index(links_resolve(ssrf, ssrf.assignments[a]), false) {
            Some(k) => request matches Err(SsrfToCloudRFrr::OpenssrfError(error))
                && is_link_failure(error, ssrf, ssrf.assignments[a], ssrf.assignments[a].links[k]),
            None => request matches Ok(made) && made@ == multisite_request(
                ssrf,
                ssrf.assignments[a],
            ),
        },
    }
}

/// A multisite request holds one transmitter for each link, in the order of
/// the links; the power of each is the level of its configuration lowered
/// by the dipole offset, and its gain the loss of its link with the
/// opposite sign.
pub proof fn one_transmitter_for_each_link(ssrf: SSRF, assignment: Assignment, i: int)
    requires
        0 <= i < assignment.links.len(),
    ensures
        multisite_request(ssrf, assignment).transmitters.len() == assignment.links.len(),
        multisite_request(ssrf, assignment).transmitters[i].tx.txw == Power::Level(
            clamped(config_of(assignment, assignment.links[i])->0.eirp_min - DIPOLE_OFFSET) as i64,
        ),
        multisite_request(ssrf, assignment).transmitters[i].antenna.txg == clamped(
            -(assignment.links[i].station_config.feedline_loss as int),
        ),
        multisite_request(ssrf, assignment).output.rad == widest(
            assignment.links@.map_values(|l: Link| link_radius(assignment, l)),
        ),
{
    let radii = assignment.links@.map_values(|l: Link| link_radius(assignment, l));
    widest_is_maximum(radii);
    assert(forall|k: int| 0 <= k < radii.len() ==> i64::MIN <= #[trigger] radii[k] <= i64::MAX);
}

/// The area request of a link holds the transmitter and the antenna that
/// the multisite request holds for that link, and the radius of its own
/// station alone.
pub proof fn area_agrees_with_multisite(ssrf: SSRF, assignment: Assignment, i: int)
    requires
        0 <= i < assignment.links.len(),
    ensures
        area_request(ssrf, assignment, assignment.links[i]).transmitter == multisite_request(
            ssrf,
            assignment,
        ).transmitters[i].tx,
        area_request(ssrf, assignment, assignment.links[i]).antenna == multisite_request(
            ssrf,
            assignment,
        ).transmitters[i].antenna,
        area_request(ssrf, assignment, assignment.links[i]).output.rad == link_radius(
            assignment,
            assignment.links[i],
        ),
{
}

/// Station, configuration and location of a link.
fn link_parts<'a>(ssrf: &'a SSRF, assignment: &'a Assignment, link: &Link) -> (parts: Result<
    (&'a Station, &'a Configuration, &'a Location),
    OpenssrfErr,
>)
    ensures
        match parts {
            Ok((station, config, location)) => {
                &&& link_resolves(*ssrf, *assignment, *link)
                &&& Some(*station) == station_of(*assignment, *link)
                &&& Some(*config) == config_of(*assignment, *link)
                &&& Some(*location) == location_of(*ssrf, *station)
            },
            Err(error) => !link_resolves(*ssrf, *assignment, *link) && is_link_failure(
                error,
                *ssrf,
                *assignment,
                *link,
            ),
        },
{
    let station = assignment.get_station(link.station_config.station_id.as_str())?;
    let config = assignment.get_config(link.station_config.config_id.as_str())?;
    let location = ssrf.get_location(&station.station_loc.loc_sat_ref)?;
    Ok((station, config, location))
}

/// The transmitter of a link whose parts are at hand.
fn transmitter_for(station: &Station, config: &Configuration, location: &Location) -> (tx:
    Transmitter)
    ensures
        tx == transmitter_of(*station, *config, *location),
{
    Transmitter {
        lat: location.point.lat,
        lon: location.point.lon,
        alt: whole(station.ant_structure_height),
        frq: config.config_freq.freq_min,
        txw: Power::Level(lowered(config.eirp_min, DIPOLE_OFFSET)),
        bwi: config.config_emission.necessary_bw_min,
    }
}

/// The antenna of a link.
fn antenna_for(link: &Link) -> (antenna: Antenna)
    ensures
        antenna == antenna_of(*link),
{
    let mut antenna = Antenna::default();
    antenna.txg = negated(link.station_config.feedline_loss);
    antenna.azi = link.station_config.pointing_az_min;
    antenna.tlt = link.station_config.pointing_elev_min;
    antenna
}

/// The multisite request of the assignment with the given serial.
///
/// Fails with what is missing: the assignment, or, for the first link that
/// does not resolve, its station, configuration or location. No request is
/// made of the links that do resolve.
pub fn ssrf_to_multisite_req(ssrf: &SSRF, assignment_serial: &Serial) -> (request: Result<
    MultisiteReq,
    SsrfToCloudRFrr,
>)
    ensures
        is_multisite_outcome(*ssrf, *assignment_serial, request),
{
    let assignment = match ssrf.get_assignment(assignment_serial) {
        Ok(assignment) => assignment,
        Err(error) => {
            return Err(SsrfToCloudRFrr::OpenssrfError(error));
        },
    };
    let ghost resolve = links_resolve(*ssrf, *assignment);
    let ghost radii = assignment.links@.map_values(|l: Link| link_radius(*assignment, l));
    let ghost wanted = assignment.links@.map_values(
        |l: Link| link_transmitter(*ssrf, *assignment, l),
    );
    let request = MultisiteReq::default();
    let mut transmitters: Vec<MultisiteTransmitter> = Vec::new();
    let mut rad: Micro = 0;
    let mut i: usize = 0;
    while i < assignment.links.len()
        invariant
            i <= assignment.links.len(),
            first_index(ssrf.assignment_serials(), assignment_serial@) matches Some(a)
                && *assignment == ssrf.assignments[a],
            resolve == links_resolve(*ssrf, *assignment),
            radii == assignment.links@.map_values(|l: Link| link_radius(*assignment, l)),
            wanted == assignment.links@.map_values(
                |l: Link| link_transmitter(*ssrf, *assignment, l),
            ),
            forall|j: int| 0 <= j < i ==> resolve[j] != false,
            transmitters@ == wanted.take(i as int),
            rad == widest(radii.take(i as int)),
        decreases assignment.links.len() - i,
    {
        let link = &assignment.links[i];
        let (station, config, location) = match link_parts(ssrf, assignment, link) {
            Ok(parts) => parts,
            Err(error) => {
                proof {
                    assert(resolve[i as int] == link_resolves(*ssrf, *assignment, *link));
                    first_index_found(resolve, false, i as int);
                }
                return Err(SsrfToCloudRFrr::OpenssrfError(error));
            },
        };
        let transmitter = MultisiteTransmitter {
            tx: transmitter_for(station, config, location),
            nf: DEFAULT_NOISE_FLOOR,
            antenna: antenna_for(link),
        };
        proof {
            assert(radii.take(i + 1).drop_last() == radii.take(i as int));
            assert(wanted.take(i + 1) == wanted.take(i as int).push(transmitter));
        }
        if station.station_loc.location_radius > rad {
            rad = station.station_loc.location_radius;
        }
        transmitters.push(transmitter);
        i += 1;
    }
    proof {
        first_index_missing(resolve, false);
        assert(radii.take(i as int) == radii);
        assert(wanted.take(i as int) == wanted);
    }
    let network = match &assignment.title {
        Some(title) => title.clone(),
        None => request.network,
    };
    let mut output = request.output;
    output.rad = rad;
    Ok(
        MultisiteReq {
            site: request.site,
            network,
            transmitters,
            receiver: request.receiver,
            model: request.model,
            environment: request.environment,
            output,
        },
    )
}

/// The area request of one link of the assignment with the given serial.
///
/// Fails with what is missing: the assignment, the link, or the station,
/// configuration or location of the link.
pub fn ssrf_to_area_req(ssrf: &SSRF, assignment_serial: &Serial, link_id: &str) -> (request:
    Result<AreaReq, SsrfToCloudRFrr>)
    ensures
        match first_index(ssrf.assignment_serials(), assignment_serial@) {
            None => request matches Err(
                SsrfToCloudRFrr::OpenssrfError(OpenssrfErr::AssignmentNotFound { serial }),
            ) && serial == *assignment_serial,
            Some(a) => match first_index(ssrf.assignments[a].link_ids(), link_id@) {
                None => request matches Err(
                    SsrfToCloudRFrr::OpenssrfError(
                        OpenssrfErr::LinkNotFound { link, assignment },
                    ),
                ) && link@ == link_id@ && assignment == ssrf.assignments[a].serial,
                Some(k) => if link_resolves(
                    *ssrf,
                    ssrf.assignments[a],
                    ssrf.assignments[a].links[k],
                ) {
                    request matches Ok(made) && made@ == area_request(
                        *ssrf,
                        ssrf.assignments[a],
                        ssrf.assignments[a].links[k],
                    )
                } else {
                    request matches Err(SsrfToCloudRFrr::OpenssrfError(error))
                        && is_link_failure(
                        error,
                        *ssrf,
                        ssrf.assignments[a],
                        ssrf.assignments[a].links[k],
                    )
                },
            },
        },
{
    let assignment = match ssrf.get_assignment(assignment_serial) {
        Ok(assignment) => assignment,
        Err(error) => {
            return Err(SsrfToCloudRFrr::OpenssrfError(error));
        },
    };
    let link = match assignment.get_link(link_id) {
        Ok(link) => link,
        Err(error) => {
            return Err(SsrfToCloudRFrr::OpenssrfError(error));
        },
    };
    let (station, config, location) = match link_parts(ssrf, assignment, link) {
        Ok(parts) => parts,
        Err(error) => {
            return Err(SsrfToCloudRFrr::OpenssrfError(error));
        },
    };
    let request = AreaReq::default();
    let site = match &station.station_name {
        Some(name) => name.clone(),
        None => location.name.clone(),
    };
    let network = match &assignment.title {
        Some(title) => title.clone(),
        None => request.network,
    };
    let mut output = request.output;
    output.rad = station.station_loc.location_radius;
    Ok(
        AreaReq {
            site,
            network,
            engine: request.engine,
            transmitter: transmitter_for(station, config, location),
            receiver: request.receiver,
            antenna: antenna_for(link),
            model: request.model,
            environment: request.environment,
            output,
        },
    )
}

} // verus!
