//! The batch run: the coverage of every assignment, then each coverage held
//! against all the others.
//!
//! The run is a state machine. [`Analysis::step`] takes what happened last
//! and says what to do next; asking the engine and fetching files is left to
//! the caller. Any failure ends the run.

use vstd::prelude::*;
use vstd::string::*;

use crate::cloudrf::interference::{
    InterferenceReq,
    InterferenceReqView,
    InterferenceRes,
    Jamming,
    Signal,
    SourceView,
};
use crate::cloudrf::multisite::{MultisiteReq, MultisiteRes};
use crate::cloudrf::{calc_name_in, extract_calc_name_from_png_wgs84_link, CloudRfErr};
use crate::openssrf::SSRF;
use crate::openssrf_to_cloudrf::{is_multisite_outcome, ssrf_to_multisite_req, SsrfToCloudRFrr};
use crate::text::texts;

verus! {

/// Why a run ended early.
#[derive(Debug)]
pub enum AnalysisErr {
    /// An assignment could not be turned into a request.
    Translation(SsrfToCloudRFrr),
    /// The engine answered with an error; the text is its message.
    Engine(String),
    /// The engine was not reached, a file was not fetched, or an address
    /// held no calculation name.
    Client(CloudRfErr),
    /// Something was reported that the run was not waiting for.
    OutOfTurn,
}

/// What the caller is to do next.
#[derive(Debug)]
pub enum Action {
    /// Send this request and report the answer.
    AskMultisite(MultisiteReq),
    /// Send this request and report the answer.
    AskInterference(InterferenceReq),
    /// Fetch `url` into the file `file_name` of the output folder and report
    /// that it is stored.
    Fetch { url: String, file_name: String },
    /// Nothing: the run is complete.
    Finish,
    /// Nothing: the run has failed.
    Abort(AnalysisErr),
}

/// What the caller reports.
#[derive(Debug)]
pub enum Event {
    /// The run starts.
    Begin,
    /// The engine answered a multisite request.
    Multisite(MultisiteRes),
    /// The engine answered an interference request.
    Interference(InterferenceRes),
    /// The file is stored.
    Stored,
    /// The last action failed.
    Failed(CloudRfErr),
}

/// What a run is waiting for.
#[derive(Debug)]
pub enum Stage {
    /// The start.
    Idle,
    /// The answer to the multisite request of assignment `index`, which was
    /// sent under the network name `network`.
    Coverage { index: usize, network: String },
    /// The coverage file of assignment `index`.
    CoverageFile { index: usize },
    /// The answer to the interference request of calculation `index`.
    Interference { index: usize },
    /// The interference file of calculation `index`.
    InterferenceFile { index: usize },
    /// Nothing more.
    Over,
}

/// A run: what it waits for, and the names of the calculations made so far.
#[derive(Debug)]
pub struct Analysis {
    pub stage: Stage,
    pub calc_names: Vec<String>,
}

/// The interference request of calculation `index`: that one is the signal,
/// all the others, in their order, are the jammers.
pub open spec fn interference_request(names: Seq<Seq<char>>, index: int) -> InterferenceReqView {
    InterferenceReqView {
        signal: SourceView::Sites { sites: seq![names[index]] },
        jamming: SourceView::Sites { sites: names.remove(index) },
        name: names[index],
        colour_key: "JS.dB"@,
    }
}

/// `name` followed by `ending`.
fn with_ending(name: &str, ending: &str) -> (text: String)
    ensures
        text@ == name@ + ending@,
{
    let mut text = name.to_owned();
    text.append(ending);
    text
}

/// The interference request of calculation `index` among `calc_names`, or
/// nothing where there is no such calculation.
pub fn interference_request_for(calc_names: &Vec<String>, index: usize) -> (request: Option<
    InterferenceReq,
>)
    ensures
        index >= calc_names.len() ==> request is None,
        index < calc_names.len() ==> (request matches Some(made) && made@
            == interference_request(texts(calc_names@), index as int)),
{
    if index >= calc_names.len() {
        return None;
    }
    let ghost names = texts(calc_names@);
    let mut others: Vec<String> = Vec::new();
    let mut i: usize = 0;
    while i < calc_names.len()
        invariant
            i <= calc_names.len(),
            index < calc_names.len(),
            names == texts(calc_names@),
            i <= index ==> texts(others@) == names.take(i as int),
            i > index ==> texts(others@) == names.remove(index as int).take(i - 1),
        decreases calc_names.len() - i,
    {
        if i != index {
            let ghost before = texts(others@);
            others.push(calc_names[i].clone());
            proof {
                assert(texts(others@) == before.push(names[i as int]));
                if i < index {
                    assert(names.take(i + 1) == names.take(i as int).push(names[i as int]));
                } else {
                    let rest = names.remove(index as int);
                    assert(rest[i - 1] == names[i as int]);
                    assert(rest.take(i as int) == rest.take(i - 1).push(names[i as int]));
                }
            }
        } else {
            proof {
                let rest = names.remove(index as int);
                assert(rest.take(index as int) == names.take(index as int));
            }
        }
        i += 1;
    }
    proof {
        let rest = names.remove(index as int);
        assert(rest.take(calc_names.len() - 1) == rest);
    }
    let mut signal: Vec<String> = Vec::new();
    signal.push(calc_names[index].clone());
    proof {
        assert(texts(signal@) == seq![names[index as int]]);
    }
    Some(
        InterferenceReq {
            signal: Signal::Sites { s_sites: signal },
            jamming: Jamming::Sites { j_sites: others },
            name: calc_names[index].clone(),
            colour_key: "JS.dB".to_owned(),
        },
    )
}

/// The interference requests of a run, one for each calculation and in
/// their order.
pub fn interference_requests(calc_names: &Vec<String>) -> (requests: Vec<InterferenceReq>)
    ensures
        requests.len() == calc_names.len(),
        forall|i: int|
            0 <= i < requests.len() ==> (#[trigger] requests[i])@ == interference_request(
                texts(calc_names@),
                i,
            ),
{
    let mut requests: Vec<InterferenceReq> = Vec::new();
    let mut i: usize = 0;
    while i < calc_names.len()
        invariant
            i <= calc_names.len(),
            requests.len() == i,
            forall|j: int|
                0 <= j < i ==> (#[trigger] requests[j])@ == interference_request(
                    texts(calc_names@),
                    j,
                ),
        decreases calc_names.len() - i,
    {
        match interference_request_for(calc_names, i) {
            Some(request) => requests.push(request),
            None => {},
        }
        i += 1;
    }
    requests
}

/// Every calculation is the signal of exactly its own request, and the
/// jammers of that request are all the calculations but this one: one fewer
/// than there are, and each other calculation among them at its place.
pub proof fn each_against_the_rest(names: Seq<Seq<char>>, index: int)
    requires
        0 <= index < names.len(),
    ensures
        interference_request(names, index).signal == (SourceView::Sites {
            sites: seq![names[index]],
        }),
        interference_request(names, index).jamming matches SourceView::Sites { sites }
            && sites.len() == names.len() - 1 && (forall|j: int|
            0 <= j < index ==> sites[j] == names[j]) && (forall|j: int|
            index < j < names.len() ==> sites[j - 1] == names[j]),
{
}

/// The request for the coverage of assignment `index`: the multisite request
/// of its serial, rendered in the colours `LTE.dBm`; or nothing where the
/// document has no such assignment.
pub fn coverage_request(ssrf: &SSRF, index: usize) -> (request: Option<
    Result<MultisiteReq, SsrfToCloudRFrr>,
>)
    ensures
        index >= ssrf.assignments.len() ==> request is None,
        index < ssrf.assignments.len() ==> (request matches Some(outcome) && is_multisite_outcome(
            *ssrf,
            ssrf.assignments[index as int].serial,
            outcome,
        )),
{
    if index >= ssrf.assignments.len() {
        return None;
    }
    match ssrf_to_multisite_req(ssrf, &ssrf.assignments[index].serial) {
        Ok(made) => {
            let mut request = made;
            let mut output = request.output;
            output.col = "LTE.dBm".to_owned();
            request.output = output;
            Some(Ok(request))
        },
        Err(error) => Some(Err(error)),
    }
}

/// What a multisite answer leads to: the name of the calculation, as found
/// in the address of its rendering, and the action that fetches its file
/// `<name>.kmz`; or the failure.
pub fn coverage_artifact(answer: MultisiteRes, network: &str) -> (found: Result<
    (String, Action),
    AnalysisErr,
>)
    ensures
        match answer {
            MultisiteRes::Error { error } => found == Err::<(String, Action), AnalysisErr>(
                AnalysisErr::Engine(error),
            ),
            MultisiteRes::Success { kmz, png_wgs84, .. } => match calc_name_in(
                png_wgs84@,
                network@,
            ) {
                Some(text) => found matches Ok((name, Action::Fetch { url, file_name })) && name@
                    == text && url == kmz && file_name@ == text + ".kmz"@,
                None => found matches Err(
                    AnalysisErr::Client(CloudRfErr::CalcNameError(address)),
                ) && address@ == png_wgs84@,
            },
        },
{
    match answer {
        MultisiteRes::Error { error } => Err(AnalysisErr::Engine(error)),
        MultisiteRes::Success { kmz, png_wgs84, .. } => {
            match extract_calc_name_from_png_wgs84_link(png_wgs84.as_str(), network) {
                Ok(name) => {
                    let file_name = with_ending(name.as_str(), ".kmz");
                    Ok((name, Action::Fetch { url: kmz, file_name }))
                },
                Err(error) => Err(AnalysisErr::Client(error)),
            }
        },
    }
}

/// What an interference answer leads to: the action that fetches the file
/// `<calculation>_interference.kmz`, or the failure.
pub fn interference_artifact(answer: InterferenceRes, calc_name: &str) -> (found: Result<
    Action,
    AnalysisErr,
>)
    ensures
        match answer {
            InterferenceRes::Error { error } => found == Err::<Action, AnalysisErr>(
                AnalysisErr::Engine(error),
            ),
            InterferenceRes::Success { kmz, .. } => found matches Ok(
                Action::Fetch { url, file_name },
            ) && url == kmz && file_name@ == calc_name@ + "_interference.kmz"@,
        },
{
    match answer {
        InterferenceRes::Error { error } => Err(AnalysisErr::Engine(error)),
        InterferenceRes::Success { kmz, .. } => Ok(
            Action::Fetch { url: kmz, file_name: with_ending(calc_name, "_interference.kmz") },
        ),
    }
}

/// The run stops with `error`.
pub open spec fn aborts_with(after: Analysis, action: Action, error: AnalysisErr) -> bool {
    after.stage is Over && action == Action::Abort(error)
}

/// The run turns to the interference of calculation `index`: it asks for
/// it, or finishes where no calculation is left.
pub open spec fn turns_to_interference(
    names: Seq<Seq<char>>,
    index: int,
    after: Analysis,
    action: Action,
) -> bool {
    &&& texts(after.calc_names@) == names
    &&& if index < names.len() {
        &&& after.stage == (Stage::Interference { index: index as usize })
        &&& action matches Action::AskInterference(request)
        &&& request@ == interference_request(names, index)
    } else {
        after.stage is Over && action is Finish
    }
}

/// The run turns to the coverage of assignment `index`: it asks for it, or
/// fails where the assignment cannot be translated; where no assignment is
/// left it turns to the first interference.
pub open spec fn turns_to_coverage(
    ssrf: SSRF,
    names: Seq<Seq<char>>,
    index: int,
    after: Analysis,
    action: Action,
) -> bool {
    if index < ssrf.assignments.len() {
        &&& texts(after.calc_names@) == names
        &&& match action {
            Action::AskMultisite(request) => {
                &&& is_multisite_outcome(ssrf, ssrf.assignments[index].serial, Ok(request))
                &&& after.stage matches Stage::Coverage { index: asked, network }
                &&& asked == index
                &&& network@ == request.network@
            },
            Action::Abort(AnalysisErr::Translation(error)) => {
                &&& is_multisite_outcome(ssrf, ssrf.assignments[index].serial, Err(error))
                &&& after.stage is Over
            },
            _ => false,
        }
    } else {
        turns_to_interference(names, 0, after, action)
    }
}

/// What one step of a run comes to.
///
/// At the start the run turns to the first coverage. A multisite answer
/// that holds a calculation name adds the name and fetches the file; the
/// stored file turns the run to the next coverage. An interference answer
/// fetches its file; the stored file turns the run to the next
/// interference. An error from the engine, a reported failure, an address
/// without name, or an event that the stage does not wait for, ends the run.
pub open spec fn is_step(
    before: Analysis,
    ssrf: SSRF,
    event: Event,
    after: Analysis,
    action: Action,
) -> bool {
    let names = texts(before.calc_names@);
    match (before.stage, event) {
        (_, Event::Failed(error)) => aborts_with(after, action, AnalysisErr::Client(error)),
        (Stage::Idle, Event::Begin) => turns_to_coverage(ssrf, names, 0, after, action),
        (Stage::Coverage { index, network }, Event::Multisite(answer)) => match answer {
            MultisiteRes::Error { error } => aborts_with(after, action, AnalysisErr::Engine(error)),
            MultisiteRes::Success { kmz, png_wgs84, .. } => match calc_name_in(
                png_wgs84@,
                network@,
            ) {
                Some(text) => {
                    &&& after.stage == (Stage::CoverageFile { index })
                    &&& texts(after.calc_names@) == names.push(text)
                    &&& action matches Action::Fetch { url, file_name }
                    &&& url == kmz
                    &&& file_name@ == text + ".kmz"@
                },
                None => {
                    &&& after.stage is Over
                    &&& action matches Action::Abort(
                        AnalysisErr::Client(CloudRfErr::CalcNameError(address)),
                    )
                    &&& address@ == png_wgs84@
                },
            },
        },
        (Stage::CoverageFile { index }, Event::Stored) => if index < usize::MAX {
            turns_to_coverage(ssrf, names, index + 1, after, action)
        } else {
            aborts_with(after, action, AnalysisErr::OutOfTurn)
        },
        (Stage::Interference { index }, Event::Interference(answer)) => if index < names.len() {
            match answer {
                InterferenceRes::Error { error } => aborts_with(
                    after,
                    action,
                    AnalysisErr::Engine(error),
                ),
                InterferenceRes::Success { kmz, .. } => {
                    &&& after.stage == (Stage::InterferenceFile { index })
                    &&& texts(after.calc_names@) == names
                    &&& action matches Action::Fetch { url, file_name }
                    &&& url == kmz
                    &&& file_name@ == names[index as int] + "_interference.kmz"@
                },
            }
        } else {
            aborts_with(after, action, AnalysisErr::OutOfTurn)
        },
        (Stage::InterferenceFile { index }, Event::Stored) => if index < usize::MAX {
            turns_to_interference(names, index + 1, after, action)
        } else {
            aborts_with(after, action, AnalysisErr::OutOfTurn)
        },
        _ => aborts_with(after, action, AnalysisErr::OutOfTurn),
    }
}

impl Analysis {
    /// A run at its start.
    pub fn new() -> (run: Analysis)
        ensures
            run.stage is Idle,
            run.calc_names@.len() == 0,
    {
        Analysis { stage: Stage::Idle, calc_names: Vec::new() }
    }

    fn abort(error: AnalysisErr) -> (next: (Analysis, Action))
        ensures
            aborts_with(next.0, next.1, error),
    {
        (Analysis { stage: Stage::Over, calc_names: Vec::new() }, Action::Abort(error))
    }

    fn to_interference(calc_names: Vec<String>, index: usize) -> (next: (Analysis, Action))
        ensures
            turns_to_interference(texts(calc_names@), index as int, next.0, next.1),
    {
        match interference_request_for(&calc_names, index) {
            Some(request) => (
                Analysis { stage: Stage::Interference { index }, calc_names },
                Action::AskInterference(request),
            ),
            None => (Analysis { stage: Stage::Over, calc_names }, Action::Finish),
        }
    }

    fn to_coverage(ssrf: &SSRF, calc_names: Vec<String>, index: usize) -> (next: (
        Analysis,
        Action,
    ))
        ensures
            turns_to_coverage(*ssrf, texts(calc_names@), index as int, next.0, next.1),
    {
        match coverage_request(ssrf, index) {
            Some(Ok(request)) => {
                let network = request.network.clone();
                (
                    Analysis { stage: Stage::Coverage { index, network }, calc_names },
                    Action::AskMultisite(request),
                )
            },
            Some(Err(error)) => (
                Analysis { stage: Stage::Over, calc_names },
                Action::Abort(AnalysisErr::Translation(error)),
            ),
            None => Analysis::to_interference(calc_names, 0),
        }
    }

    /// Takes what happened and says what to do next.
    pub fn step(self, ssrf: &SSRF, event: Event) -> (next: (Analysis, Action))
        ensures
            is_step(self, *ssrf, event, next.0, next.1),
    {
        let Analysis { stage, calc_names } = self;
        let ghost names = texts(calc_names@);
        match (stage, event) {
            (_, Event::Failed(error)) => Analysis::abort(AnalysisErr::Client(error)),
            (Stage::Idle, Event::Begin) => Analysis::to_coverage(ssrf, calc_names, 0),
            (Stage::Coverage { index, network }, Event::Multisite(answer)) => {
                match coverage_artifact(answer, network.as_str()) {
                    Ok((name, fetch)) => {
                        let mut calc_names = calc_names;
                        calc_names.push(name);
                        proof {
                            assert(texts(calc_names@) == names.push(name@));
                        }
                        (Analysis { stage: Stage::CoverageFile { index }, calc_names }, fetch)
                    },
                    Err(error) => Analysis::abort(error),
                }
            },
            (Stage::CoverageFile { index }, Event::Stored) => {
                if index < usize::MAX {
                    Analysis::to_coverage(ssrf, calc_names, index + 1)
                } else {
                    Analysis::abort(AnalysisErr::OutOfTurn)
                }
            },
            (Stage::Interference { index }, Event::Interference(answer)) => {
                if index < calc_names.len() {
                    match interference_artifact(answer, calc_names[index].as_str()) {
                        Ok(fetch) => (
                            Analysis { stage: Stage::InterferenceFile { index }, calc_names },
                            fetch,
                        ),
                        Err(error) => Analysis::abort(error),
                    }
                } else {
                    Analysis::abort(AnalysisErr::OutOfTurn)
                }
            },
            (Stage::InterferenceFile { index }, Event::Stored) => {
                if index < usize::MAX {
                    Analysis::to_interference(calc_names, index + 1)
                } else {
                    Analysis::abort(AnalysisErr::OutOfTurn)
                }
            },
            _ => Analysis::abort(AnalysisErr::OutOfTurn),
        }
    }
}

} // verus!
