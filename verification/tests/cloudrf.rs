use ssrf_cloudrf::cloudrf::antenna::{Antenna, Polarisation};
use ssrf_cloudrf::cloudrf::area::AreaReq;
use ssrf_cloudrf::cloudrf::environment::{serialize_bool, Elevation, Environment};
use ssrf_cloudrf::cloudrf::interference::{InterferenceReq, Jamming, Signal};
use ssrf_cloudrf::cloudrf::misc::Engine;
use ssrf_cloudrf::cloudrf::model::{DiffractionModel, Model, PropagationModel, Propagationenvironment};
use ssrf_cloudrf::cloudrf::multisite::{MultisiteReq, MultisiteTransmitter};
use ssrf_cloudrf::cloudrf::output::{Output, Units};
use ssrf_cloudrf::cloudrf::receiver::Receiver;
use ssrf_cloudrf::cloudrf::transmitter::{Power, Transmitter};
use ssrf_cloudrf::cloudrf::{
    calc_name_or_error, extract_calc_name_from_png_wgs84_link, request_url, Calculation, CloudRfErr,
};
use ssrf_cloudrf::quantity::{lowered, negated, whole, MICRO};

#[test]
fn default_parts_of_a_request() {
    let antenna = Antenna::default();
    assert_eq!(
        antenna,
        Antenna {
            txg: 2 * MICRO,
            txl: 0,
            ant: 1,
            azi: 0,
            tlt: 0,
            hbw: 0,
            vbw: 0,
            fbr: 0,
            pol: Polarisation::Vertical
        }
    );
    let transmitter = Transmitter::default();
    assert_eq!(transmitter.lat as f64 / 360_000.0, 38.916);
    assert_eq!(transmitter.lon as f64 / 360_000.0, 1.448);
    assert_eq!(transmitter.alt, 2 * MICRO);
    assert_eq!(transmitter.frq, 2200 * MICRO);
    assert_eq!(transmitter.txw, Power::Watts(2 * MICRO));
    assert_eq!(transmitter.bwi, MICRO);
    assert_eq!(
        Receiver::default(),
        Receiver { lat: 0, lon: 0, alt: 2 * MICRO, rxg: MICRO, rxs: -110 * MICRO }
    );
    assert_eq!(
        Model::default(),
        Model {
            pm: PropagationModel::EGLI,
            pe: Propagationenvironment::Average,
            ked: DiffractionModel::Bullington,
            rel: 50
        }
    );
    assert_eq!(
        Environment::default(),
        Environment {
            clt: "Temperate.clt".to_owned(),
            elevation: Elevation::Surface,
            landcover: false,
            buildings: false,
            obstacles: false
        }
    );
    assert_eq!(
        Output::default(),
        Output {
            units: Units::MetersAGL,
            col: "LTE.dBm".to_owned(),
            out: 2,
            nf: -100 * MICRO,
            res: 4 * MICRO,
            rad: 2 * MICRO
        }
    );
    let one = MultisiteTransmitter::default();
    assert_eq!(one.tx, Transmitter::default());
    assert_eq!(one.nf, -100 * MICRO);
    assert_eq!(one.antenna, Antenna::default());
}

#[test]
fn default_requests() {
    let area = AreaReq::default();
    assert_eq!(area.site, "My_Site");
    assert_eq!(area.network, "My_Network");
    assert_eq!(area.engine, Engine::GPU);
    assert_eq!(area.transmitter, Transmitter::default());
    assert_eq!(area.receiver, Receiver::default());
    assert_eq!(area.antenna, Antenna::default());
    assert_eq!(area.model, Model::default());
    assert_eq!(area.environment, Environment::default());
    assert_eq!(area.output, Output::default());
    let multisite = MultisiteReq::default();
    assert_eq!(multisite.site, "My_Multiite");
    assert_eq!(multisite.network, "My_Network");
    assert!(multisite.transmitters.is_empty());
    assert_eq!(multisite.output, Output::default());
    let interference = InterferenceReq::default();
    assert_eq!(interference.signal, Signal::Network { s_network: "My_Signal_Network".to_owned() });
    assert_eq!(interference.jamming, Jamming::Network { j_network: "My_Jamming_Network".to_owned() });
    assert_eq!(interference.name, "QRM");
    assert_eq!(interference.colour_key, "JS.dB");
}

#[test]
fn codes_of_the_engine() {
    assert_eq!(Engine::CPU.code(), 2);
    assert_eq!(Engine::GPU.code(), 1);
    assert_eq!(Elevation::Surface.code(), 1);
    assert_eq!(Elevation::Terrain.code(), 2);
    assert_eq!(PropagationModel::ITM.code(), 1);
    assert_eq!(PropagationModel::EGLI.code(), 11);
    assert_eq!(Propagationenvironment::Conservative.code(), 1);
    assert_eq!(Propagationenvironment::Average.code(), 2);
    assert_eq!(Propagationenvironment::Optimistic.code(), 3);
    assert_eq!(DiffractionModel::LineOfSight.code(), 0);
    assert_eq!(DiffractionModel::SingleKnifeEdge.code(), 1);
    assert_eq!(DiffractionModel::Bullington.code(), 2);
    assert_eq!(DiffractionModel::Deygout.code(), 4);
    assert_eq!(Polarisation::Vertical.code(), "v");
    assert_eq!(Polarisation::Horizontal.code(), "h");
    assert_eq!(Units::MetersAGL.code(), "m");
    assert_eq!(Units::MetersASL.code(), "m_amsl");
    assert_eq!(Units::FeetAGL.code(), "f");
    assert_eq!(Units::FeetASL.code(), "f_amsl");
    assert_eq!(serialize_bool(true), 1);
    assert_eq!(serialize_bool(false), 0);
}

#[test]
fn addresses_of_the_calculations() {
    assert_eq!(request_url("https://api.cloudrf.com", Calculation::Area), "https://api.cloudrf.com/area");
    assert_eq!(request_url("http://h:8080", Calculation::Multisite), "http://h:8080/multisite");
    assert_eq!(request_url("", Calculation::Interference), "/interference");
}

#[test]
fn quantities_stop_at_the_ends() {
    assert_eq!(negated(5), -5);
    assert_eq!(negated(-5), 5);
    assert_eq!(negated(0), 0);
    assert_eq!(negated(i64::MAX), -i64::MAX);
    assert_eq!(negated(i64::MIN), i64::MAX);
    assert_eq!(lowered(1_000_000, 2_150_000), -1_150_000);
    assert_eq!(lowered(-5, -7), 2);
    assert_eq!(lowered(i64::MIN + 1, 2), i64::MIN);
    assert_eq!(lowered(i64::MIN, 0), i64::MIN);
    assert_eq!(lowered(i64::MAX - 1, -2), i64::MAX);
    assert_eq!(lowered(i64::MAX, i64::MAX), 0);
    assert_eq!(lowered(i64::MIN, i64::MIN), 0);
    assert_eq!(lowered(-1, i64::MIN), i64::MAX);
    assert_eq!(whole(12), 12_000_000);
    assert_eq!(whole(i32::MIN), -2_147_483_648_000_000);
    assert_eq!(whole(i32::MAX), 2_147_483_647_000_000);
}

#[test]
fn finds_the_calculation_name() {
    let link = "https://api.cloudrf.com/users/27/1718_RandomSSRF-3_MULTISITE.4326.png";
    assert_eq!(
        extract_calc_name_from_png_wgs84_link(link, "RandomSSRF-3"),
        Ok("1718_RandomSSRF-3_MULTISITE".to_owned())
    );
}

#[test]
fn the_leftmost_name_wins() {
    let link = "x/7_N_MULTISITE.4326.png?y=88_N_MULTISITE.4326.png";
    assert_eq!(extract_calc_name_from_png_wgs84_link(link, "N"), Ok("7_N_MULTISITE".to_owned()));
}

#[test]
fn the_network_name_is_taken_literally() {
    let link = "u/12_a.b_MULTISITE.4326.png";
    assert_eq!(extract_calc_name_from_png_wgs84_link(link, "a.b"), Ok("12_a.b_MULTISITE".to_owned()));
    let other = "u/12_aXb_MULTISITE.4326.png";
    assert_eq!(
        extract_calc_name_from_png_wgs84_link(other, "a.b"),
        Err(CloudRfErr::CalcNameError(other.to_owned()))
    );
    let odd = "u/3_(x)[y]{z}^$|+*?#&-~\\_MULTISITE.4326.png";
    assert_eq!(
        extract_calc_name_from_png_wgs84_link(odd, "(x)[y]{z}^$|+*?#&-~\\"),
        Ok("3_(x)[y]{z}^$|+*?#&-~\\_MULTISITE".to_owned())
    );
}

#[test]
fn an_address_without_name_is_an_error() {
    for link in [
        "",
        "https://api.cloudrf.com/users/27/1718_Other_MULTISITE.4326.png",
        "https://api.cloudrf.com/users/27/_Net_MULTISITE.4326.png",
        "https://api.cloudrf.com/users/27/1718_Net_MULTISITE.3857.png",
        "https://api.cloudrf.com/users/27/1718_Net_MULTISITE.4326.kmz",
        "https://api.cloudrf.com/users/27/1718_Net_MULTISITEx4326xpng",
    ] {
        assert_eq!(
            extract_calc_name_from_png_wgs84_link(link, "Net"),
            Err(CloudRfErr::CalcNameError(link.to_owned()))
        );
    }
}

#[test]
fn a_pattern_too_large_is_an_error_not_a_crash() {
    let network = "a".repeat(12_000_000);
    let link = "u/1_a_MULTISITE.4326.png";
    assert_eq!(
        extract_calc_name_from_png_wgs84_link(link, &network),
        Err(CloudRfErr::CalcNameError(link.to_owned()))
    );
}

#[test]
fn a_found_name_is_handed_on() {
    assert_eq!(calc_name_or_error(Some("9_N_MULTISITE".to_owned()), "l"), Ok("9_N_MULTISITE".to_owned()));
    assert_eq!(calc_name_or_error(None, "l"), Err(CloudRfErr::CalcNameError("l".to_owned())));
}
