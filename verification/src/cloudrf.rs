//! Requests to the calculation engine and what it answers.

pub mod antenna;
pub mod area;
pub mod environment;
pub mod interference;
pub mod misc;
pub mod model;
pub mod multisite;
pub mod output;
pub mod receiver;
pub mod transmitter;

use vstd::prelude::*;
use vstd::string::*;

verus! {

/// What can go wrong between this library and the engine.
#[derive(Debug, Clone, PartialEq, Eq)]
pub enum CloudRfErr {
    /// The request did not reach the engine, or its answer could not be
    /// read; the text says why.
    ReqwestError(String),
    /// A rendered file could not be fetched or stored; the text says why.
    DownloadError(String),
    /// The address of a rendering does not hold the name of its calculation;
    /// the text is the address.
    CalcNameError(String),
}

/// What the error says.
pub open spec fn cloudrf_message(error: CloudRfErr) -> Seq<char> {
    match error {
        CloudRfErr::ReqwestError(why) => "request failed with error `"@ + why@ + "`"@,
        CloudRfErr::DownloadError(why) => "download failed with error `"@ + why@ + "`"@,
        CloudRfErr::CalcNameError(link) => "failed to extract calc name from link `"@ + link@
            + "`"@,
    }
}

impl CloudRfErr {
    /// The error in words.
    pub fn message(&self) -> (text: String)
        ensures
            text@ == cloudrf_message(*self),
    {
        let (head, inner) = match self {
            CloudRfErr::ReqwestError(why) => ("request failed with error `", why),
            CloudRfErr::DownloadError(why) => ("download failed with error `", why),
            CloudRfErr::CalcNameError(link) => ("failed to extract calc name from link `", link),
        };
        let mut text = head.to_owned();
        text.append(inner.as_str());
        text.append("`");
        text
    }
}

/// The three calculations that the engine offers.
#[derive(Debug, Clone, Copy, PartialEq, Eq, Structural)]
pub enum Calculation {
    Area,
    Multisite,
    Interference,
}

/// The last part of the address of a calculation.
pub open spec fn calculation_path(calculation: Calculation) -> Seq<char> {
    match calculation {
        Calculation::Area => "area"@,
        Calculation::Multisite => "multisite"@,
        Calculation::Interference => "interference"@,
    }
}

/// The address that a request is sent to: that of the engine, a slash, and
/// the name of the calculation.
pub fn request_url(api_url: &str, calculation: Calculation) -> (url: String)
    ensures
        url@ == api_url@ + seq!['/'] + calculation_path(calculation),
{
    let mut url = api_url.to_owned();
    url.append("/");
    url.append(
        match calculation {
            Calculation::Area => "area",
            Calculation::Multisite => "multisite",
            Calculation::Interference => "interference",
        },
    );
    proof {
        reveal_strlit("/");
        assert("/"@ == seq!['/']);
    }
    url
}

/// The error of the `regex` crate, carried but never looked into.
#[verifier::external_type_specification]
#[verifier::external_body]
pub struct ExRegexError(regex::Error);

/// Whether a character means something to a regular expression.
pub open spec fn is_meta_character(c: char) -> bool {
    c == '\\' || c == '.' || c == '+' || c == '*' || c == '?' || c == '(' || c == ')' || c == '|'
        || c == '[' || c == ']' || c == '{' || c == '}' || c == '^' || c == '$' || c == '#' || c
        == '&' || c == '-' || c == '~'
}

/// `text` with a backslash before each character that means something to a
/// regular expression.
pub open spec fn escaped(text: Seq<char>) -> Seq<char>
    decreases text.len(),
{
    if text.len() == 0 {
        Seq::empty()
    } else if is_meta_character(text.last()) {
        escaped(text.drop_last()).push('\\').push(text.last())
    } else {
        escaped(text.drop_last()).push(text.last())
    }
}

/// What a group of a regular expression holds at the leftmost match in a
/// text: `None` where the pattern is not accepted, `Some(None)` where
/// nothing matches or the group took no part in the match.
pub uninterp spec fn group_match(pattern: Seq<char>, haystack: Seq<char>, group: int) -> Option<
    Option<Seq<char>>,
>;

/// Trusted: `regex::escape`, which copies the text and puts a backslash
/// before each of the eighteen characters of [`is_meta_character`].
#[verifier::external_body]
fn escape(text: &str) -> (quoted: String)
    ensures
        quoted@ == escaped(text@),
{
    regex::escape(text)
}

/// Trusted: `regex::Regex::new` and `Regex::captures`, then `Captures::get`
/// for the group. The contract only gives the outcome its name: the same
/// pattern, text and group always yield the same outcome.
#[verifier::external_body]
fn capture_group(pattern: &str, haystack: &str, group: usize) -> (found: Result<
    Option<String>,
    regex::Error,
>)
    ensures
        match found {
            Ok(Some(text)) => group_match(pattern@, haystack@, group as int) == Some(Some(text@)),
            Ok(None) => group_match(pattern@, haystack@, group as int) == Some(
                None::<Seq<char>>,
            ),
            Err(_) => group_match(pattern@, haystack@, group as int) is None,
        },
{
    let expression = regex::Regex::new(pattern)?;
    match expression.captures(haystack) {
        Some(groups) => Ok(groups.get(group).map(|found| found.as_str().to_owned())),
        None => Ok(None),
    }
}

/// The pattern of the address of a rendering: digits, the name of the
/// network between underscores, `MULTISITE`, then `.4326.png`. Its one group
/// spans all but the ending.
pub open spec fn calc_name_pattern(network: Seq<char>) -> Seq<char> {
    "([0-9]+_"@ + escaped(network) + "_MULTISITE)\\.4326\\.png"@
}

/// The name of the calculation in the address of a rendering, if it is
/// there: what the first group of [`calc_name_pattern`] holds.
pub open spec fn calc_name_in(link: Seq<char>, network: Seq<char>) -> Option<Seq<char>> {
    match group_match(calc_name_pattern(network), link, 1) {
        Some(Some(name)) => Some(name),
        _ => None,
    }
}

/// The name that was found in an address, or the error that names the
/// address.
pub fn calc_name_or_error(found: Option<String>, link: &str) -> (name: Result<String, CloudRfErr>)
    ensures
        match found {
            Some(text) => name == Ok::<String, CloudRfErr>(text),
            None => name matches Err(CloudRfErr::CalcNameError(address)) && address@ == link@,
        },
{
    match found {
        Some(text) => Ok(text),
        None => Err(CloudRfErr::CalcNameError(link.to_owned())),
    }
}

/// Finds the name of a calculation in the address of its rendering: the
/// leftmost `<digits>_<network>_MULTISITE` that stands right before
/// `.4326.png`.
pub fn extract_calc_name_from_png_wgs84_link(link: &str, network: &str) -> (name: Result<
    String,
    CloudRfErr,
>)
    ensures
        match calc_name_in(link@, network@) {
            Some(text) => name matches Ok(found) && found@ == text,
            None => name matches Err(CloudRfErr::CalcNameError(address)) && address@ == link@,
        },
{
    let mut pattern = "([0-9]+_".to_owned();
    pattern.append(escape(network).as_str());
    pattern.append("_MULTISITE)\\.4326\\.png");
    let found = match capture_group(pattern.as_str(), link, 1) {
        Ok(found) => found,
        Err(_) => None,
    };
    calc_name_or_error(found, link)
}

} // verus!
