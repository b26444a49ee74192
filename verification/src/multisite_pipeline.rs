//! The watching run: a folder of documents, each computed again whenever it
//! has changed.
//!
//! The library decides; reading the folder, waiting, asking the engine and
//! fetching files is left to the caller. In each round the caller takes the
//! names of the folder in the order of [`sorted_names`] and asks
//! [`plan_file`] for each what to do. The ledger of what was seen only ever
//! grows: a file that is gone keeps its line.

use vstd::prelude::*;
use vstd::string::*;

use crate::cloudrf::multisite::{MultisiteReq, MultisiteRes};
use crate::find::{
    all_distinct,
    first_index,
    first_index_found,
    first_index_missing,
    first_index_sound,
};
use crate::openssrf::SSRF;
use crate::openssrf_to_cloudrf::{is_multisite_outcome, ssrf_to_multisite_req, SsrfToCloudRFrr};
use crate::text::{chars_of, owned_range, texts};

verus! {

/// A point in time: whole seconds since 1970 began in UTC, and the
/// nanoseconds into that second.
#[derive(Debug, Clone, Copy, PartialEq, Eq, Structural)]
pub struct Timestamp {
    pub secs: i64,
    pub nanos: u32,
}

impl Timestamp {
    /// Later than `other`: by the seconds, and by the nanoseconds where the
    /// seconds agree.
    pub open spec fn is_after(self, other: Timestamp) -> bool {
        self.secs > other.secs || (self.secs == other.secs && self.nanos > other.nanos)
    }

    /// Whether this time is later than `other`.
    pub fn newer_than(&self, other: &Timestamp) -> (newer: bool)
        ensures
            newer == self.is_after(*other),
    {
        self.secs > other.secs || (self.secs == other.secs && self.nanos > other.nanos)
    }
}

/// How the time of a file is written into the name of its rendering.
pub const STAMP_LAYOUT: &'static str = "%Y-%m-%d:%T";

/// The text of a time in UTC under a layout of `strftime` kind, or `None`
/// where the time is out of the calendar's range or the layout is not
/// understood.
pub uninterp spec fn utc_text(secs: int, nanos: int, layout: Seq<char>) -> Option<Seq<char>>;

/// Trusted: `chrono::DateTime::from_timestamp`, `DateTime::format` and
/// `DelayedFormat::write_to`. The contract only gives the text its name:
/// the same time and layout always yield the same text.
#[verifier::external_body]
fn format_utc(secs: i64, nanos: u32, layout: &str) -> (text: Option<String>)
    ensures
        match text {
            Some(written) => utc_text(secs as int, nanos as int, layout@) == Some(written@),
            None => utc_text(secs as int, nanos as int, layout@) is None,
        },
{
    let time = chrono::DateTime::from_timestamp(secs, nanos)?;
    let mut text = String::new();
    match time.format(layout).write_to(&mut text) {
        Ok(()) => Some(text),
        Err(_) => None,
    }
}

/// Alphabetical order of texts, character by character, a shorter text
/// before its extensions.
pub open spec fn text_le(a: Seq<char>, b: Seq<char>) -> bool
    decreases a.len(),
{
    if a.len() == 0 {
        true
    } else if b.len() == 0 {
        false
    } else if a[0] != b[0] {
        a[0] < b[0]
    } else {
        text_le(a.drop_first(), b.drop_first())
    }
}

/// Each text stands before all that follow it.
pub open spec fn is_sorted(names: Seq<Seq<char>>) -> bool {
    forall|i: int, j: int| 0 <= i < j < names.len() ==> text_le(names[i], names[j])
}

/// Of two texts, one stands before the other.
pub proof fn text_le_total(a: Seq<char>, b: Seq<char>)
    ensures
        text_le(a, b) || text_le(b, a),
    decreases a.len(),
{
    if a.len() > 0 && b.len() > 0 && a[0] == b[0] {
        text_le_total(a.drop_first(), b.drop_first());
    }
}

/// What stands before a text stands before all that the text stands before.
pub proof fn text_le_transitive(a: Seq<char>, b: Seq<char>, c: Seq<char>)
    requires
        text_le(a, b),
        text_le(b, c),
    ensures
        text_le(a, c),
    decreases a.len(),
{
    if a.len() > 0 && a[0] == b[0] && b[0] == c[0] {
        text_le_transitive(a.drop_first(), b.drop_first(), c.drop_first());
    }
}

/// Whether `a` stands before `b` or is the same text.
fn stands_before(a: &Vec<char>, b: &Vec<char>) -> (before: bool)
    ensures
        before == text_le(a@, b@),
{
    let mut i: usize = 0;
    assert(a@.skip(0) == a@ && b@.skip(0) == b@);
    while i < a.len() && i < b.len()
        invariant
            i <= a.len(),
            i <= b.len(),
            text_le(a@, b@) == text_le(a@.skip(i as int), b@.skip(i as int)),
        decreases a.len() - i,
    {
        proof {
            assert(a@.skip(i as int)[0] == a[i as int]);
            assert(b@.skip(i as int)[0] == b[i as int]);
            assert(a@.skip(i as int).drop_first() == a@.skip(i + 1));
            assert(b@.skip(i as int).drop_first() == b@.skip(i + 1));
        }
        if a[i] != b[i] {
            return a[i] < b[i];
        }
        i += 1;
    }
    i == a.len()
}

/// The names of a folder in the order in which a round takes them:
/// alphabetical, none lost and none added.
pub fn sorted_names(names: Vec<String>) -> (sorted: Vec<String>)
    ensures
        texts(sorted@).to_multiset() == texts(names@).to_multiset(),
        is_sorted(texts(sorted@)),
{
    let mut sorted: Vec<String> = Vec::new();
    let mut keys: Vec<Vec<char>> = Vec::new();
    let mut i: usize = 0;
    assert(texts(sorted@) =~= texts(names@.take(0)));
    while i < names.len()
        invariant
            i <= names.len(),
            keys.len() == sorted.len(),
            forall|k: int| 0 <= k < keys.len() ==> (#[trigger] keys[k])@ == sorted[k]@,
            is_sorted(texts(sorted@)),
            texts(sorted@).to_multiset() == texts(names@.take(i as int)).to_multiset(),
        decreases names.len() - i,
    {
        let name = names[i].clone();
        let key = chars_of(name.as_str());
        let mut at: usize = 0;
        while at < keys.len() && stands_before(&keys[at], &key)
            invariant
                at <= keys.len(),
                keys.len() == sorted.len(),
                forall|k: int| 0 <= k < keys.len() ==> (#[trigger] keys[k])@ == sorted[k]@,
                forall|k: int| 0 <= k < at ==> text_le(#[trigger] sorted[k]@, key@),
            decreases keys.len() - at,
        {
            at += 1;
        }
        let ghost before = texts(sorted@);
        proof {
            assert forall|k: int| at <= k < before.len() implies text_le(
                key@,
                #[trigger] before[k],
            ) by {
                assert(keys[at as int]@ == before[at as int]);
                text_le_total(before[at as int], key@);
                if k > at {
                    text_le_transitive(key@, before[at as int], before[k]);
                }
            }
            vstd::seq_lib::to_multiset_insert(before, at as int, key@);
            vstd::seq_lib::to_multiset_build(texts(names@.take(i as int)), key@);
            assert(texts(names@.take(i + 1)) =~= texts(names@.take(i as int)).push(key@));
        }
        sorted.insert(at, name);
        keys.insert(at, key);
        proof {
            let after = texts(sorted@);
            assert(after =~= before.insert(at as int, key@));
            assert forall|a: int, b: int| 0 <= a < b < after.len() implies text_le(
                after[a],
                after[b],
            ) by {
                if a < at && b > at {
                    assert(after[a] == before[a]);
                    assert(after[b] == before[b - 1]);
                } else if a < at && b < at {
                    assert(after[a] == before[a]);
                    assert(after[b] == before[b]);
                } else if a > at {
                    assert(after[a] == before[a - 1]);
                    assert(after[b] == before[b - 1]);
                } else if a == at {
                    assert(after[b] == before[b - 1]);
                } else {
                    assert(after[a] == before[a]);
                    assert(text_le(sorted[a]@, key@));
                }
            }
        }
        i += 1;
    }
    assert(names@.take(names.len() as int) == names@);
    sorted
}

/// What stands before the ending `.xml` of a file name, if it ends so.
pub open spec fn xml_stem(file_name: Seq<char>) -> Option<Seq<char>> {
    let n = file_name.len() as int;
    if n >= 4 && file_name.subrange(n - 4, n) == seq!['.', 'x', 'm', 'l'] {
        Some(file_name.subrange(0, n - 4))
    } else {
        None
    }
}

/// The name of a rendering: the stem of the document, two dashes, the time
/// of the document, and `.kmz`.
pub open spec fn rendering_name(stem: Seq<char>, stamp: Seq<char>) -> Seq<char> {
    stem + "--"@ + stamp + ".kmz"@
}

/// The stem of a file name that ends in `.xml`.
pub fn stem_of(file_name: &str) -> (stem: Option<String>)
    ensures
        match xml_stem(file_name@) {
            Some(text) => stem matches Some(found) && found@ == text,
            None => stem is None,
        },
{
    let chars = chars_of(file_name);
    let n = chars.len();
    if n >= 4 && chars[n - 4] == '.' && chars[n - 3] == 'x' && chars[n - 2] == 'm' && chars[n
        - 1] == 'l' {
        assert(file_name@.subrange(n - 4, n as int) == seq!['.', 'x', 'm', 'l']);
        Some(owned_range(file_name, 0, n - 4))
    } else {
        proof {
            if n >= 4 {
                let tail = file_name@.subrange(n - 4, n as int);
                assert(tail[0] == chars[n - 4]);
                assert(tail[1] == chars[n - 3]);
                assert(tail[2] == chars[n - 2]);
                assert(tail[3] == chars[n - 1]);
            }
        }
        None
    }
}

/// One line of the ledger.
#[derive(Debug)]
pub struct Seen {
    pub path: String,
    pub modified: Timestamp,
}

/// What was seen of each file: its path and the time it was last changed
/// when it was last computed. No path has two lines.
#[derive(Debug)]
pub struct WatchLedger {
    entries: Vec<Seen>,
}

/// What a round does with a file.
#[derive(Debug, PartialEq, Eq)]
pub enum FilePlan {
    /// Nothing.
    Skip,
    /// Compute the document and store its rendering under this name.
    Run { output_name: String },
}

/// Whether a file with this time is computed, given what the ledger holds:
/// when its path is new, or its time later than the one recorded.
pub open spec fn is_due(
    ledger: Map<Seq<char>, Timestamp>,
    path: Seq<char>,
    modified: Timestamp,
) -> bool {
    !ledger.contains_key(path) || modified.is_after(ledger[path])
}

/// The ledger after a file was looked at: the time is recorded where the
/// file is due, and nothing changes where it is not.
pub open spec fn noted(
    ledger: Map<Seq<char>, Timestamp>,
    path: Seq<char>,
    modified: Timestamp,
) -> Map<Seq<char>, Timestamp> {
    if is_due(ledger, path, modified) {
        ledger.insert(path, modified)
    } else {
        ledger
    }
}

impl WatchLedger {
    #[verifier::type_invariant]
    spec fn one_line_each(self) -> bool {
        all_distinct(self.paths())
    }

    /// The paths of the lines, in their order.
    pub closed spec fn paths(self) -> Seq<Seq<char>> {
        self.entries@.map_values(|e: Seen| e.path@)
    }

    /// An empty ledger.
    pub fn new() -> (ledger: WatchLedger)
        ensures
            ledger@ == Map::<Seq<char>, Timestamp>::empty(),
    {
        let ledger = WatchLedger { entries: Vec::new() };
        assert(ledger@ =~= Map::<Seq<char>, Timestamp>::empty());
        ledger
    }

    /// The time recorded for a path.
    pub fn recorded(&self, path: &str) -> (time: Option<Timestamp>)
        ensures
            time == if self@.contains_key(path@) {
                Some(self@[path@])
            } else {
                None
            },
    {
        proof {
            first_index_sound(self.paths(), path@);
        }
        match self.position(path) {
            Some(i) => Some(self.entries[i].modified),
            None => None,
        }
    }

    fn position(&self, path: &str) -> (at: Option<usize>)
        ensures
            match at {
                Some(i) => first_index(self.paths(), path@) == Some(i as int) && i
                    < self.entries.len(),
                None => first_index(self.paths(), path@) is None,
            },
    {
        let wanted = path.to_owned();
        let mut i: usize = 0;
        while i < self.entries.len()
            invariant
                i <= self.entries.len(),
                wanted@ == path@,
                forall|j: int| 0 <= j < i ==> self.paths()[j] != path@,
            decreases self.entries.len() - i,
        {
            if self.entries[i].path == wanted {
                proof {
                    first_index_found(self.paths(), path@, i as int);
                }
                return Some(i);
            }
            i += 1;
        }
        proof {
            first_index_missing(self.paths(), path@);
        }
        None
    }

    /// Looks at a file: says whether it is due, and records its time if so.
    pub fn observe(&mut self, path: &str, modified: Timestamp) -> (due: bool)
        ensures
            due == is_due(old(self)@, path@, modified),
            final(self)@ == noted(old(self)@, path@, modified),
    {
        proof {
            use_type_invariant(&*self);
            first_index_sound(self.paths(), path@);
        }
        let ghost before = self@;
        let ghost paths = self.paths();
        match self.position(path) {
            Some(i) => {
                if modified.newer_than(&self.entries[i].modified) {
                    let mut entries: Vec<Seen> = Vec::new();
                    std::mem::swap(&mut entries, &mut self.entries);
                    let kept = entries[i].path.clone();
                    entries.set(i, Seen { path: kept, modified });
                    assert(entries@.map_values(|e: Seen| e.path@) =~= paths);
                    self.entries = entries;
                    proof {
                        assert(self.paths() =~= paths);
                        assert(self@ =~= before.insert(path@, modified)) by {
                            assert forall|p: Seq<char>| self@.contains_key(p) implies self@[p]
                                == before.insert(path@, modified)[p] by {
                                first_index_sound(paths, p);
                            }
                        }
                    }
                    true
                } else {
                    false
                }
            },
            None => {
                let mut entries: Vec<Seen> = Vec::new();
                std::mem::swap(&mut entries, &mut self.entries);
                entries.push(Seen { path: path.to_owned(), modified });
                assert(entries@.map_values(|e: Seen| e.path@) =~= paths.push(path@));
                assert(all_distinct(paths.push(path@)));
                self.entries = entries;
                proof {
                    assert(self.paths() =~= paths.push(path@));
                    first_index_found(self.paths(), path@, paths.len() as int);
                    assert(self@ =~= before.insert(path@, modified)) by {
                        assert forall|p: Seq<char>|
                            self@.contains_key(p) <==> before.insert(
                                path@,
                                modified,
                            ).contains_key(p) by {
                            first_index_sound(paths, p);
                            first_index_sound(self.paths(), p);
                            if p != path@ && paths.contains(p) {
                                let k = choose|k: int| 0 <= k < paths.len() && paths[k] == p;
                                assert(self.paths()[k] == p);
                            }
                        }
                        assert forall|p: Seq<char>| self@.contains_key(p) implies self@[p]
                            == before.insert(path@, modified)[p] by {
                            first_index_sound(paths, p);
                            first_index_sound(self.paths(), p);
                            if p != path@ {
                                let k = first_index(self.paths(), p)->0;
                                assert(paths[k] == p);
                                first_index_found(paths, p, k);
                            }
                        }
                    }
                }
                true
            },
        }
    }
}

impl View for WatchLedger {
    type V = Map<Seq<char>, Timestamp>;

    /// The time recorded for each path that was seen.
    closed spec fn view(&self) -> Map<Seq<char>, Timestamp> {
        Map::new(
            |p: Seq<char>| self.paths().contains(p),
            |p: Seq<char>| self.entries[first_index(self.paths(), p)->0].modified,
        )
    }
}

/// A file that was looked at is not due again at the same time, nor at an
/// earlier one.
pub proof fn seen_is_not_due_again(
    ledger: Map<Seq<char>, Timestamp>,
    path: Seq<char>,
    modified: Timestamp,
    again: Timestamp,
)
    requires
        !again.is_after(modified),
    ensures
        !is_due(noted(ledger, path, modified), path, again),
{
}

/// A file that was never seen is due, and so is a file whose time is later
/// than the one recorded; once noted, it is not due until it changes again.
pub proof fn change_is_due_once(
    ledger: Map<Seq<char>, Timestamp>,
    path: Seq<char>,
    modified: Timestamp,
)
    requires
        !ledger.contains_key(path) || modified.is_after(ledger[path]),
    ensures
        is_due(ledger, path, modified),
        noted(ledger, path, modified)[path] == modified,
        !is_due(noted(ledger, path, modified), path, modified),
{
}

/// Looking at one file changes nothing for another.
pub proof fn files_are_independent(
    ledger: Map<Seq<char>, Timestamp>,
    path: Seq<char>,
    modified: Timestamp,
    other: Seq<char>,
    time: Timestamp,
)
    requires
        other != path,
    ensures
        is_due(noted(ledger, path, modified), other, time) == is_due(ledger, other, time),
{
}

/// What a round does with a file whose time is written as `stamp`.
///
/// A file that does not end in `.xml`, or whose time has no text, is
/// passed over and not recorded. Any other file is looked up in the ledger:
/// where it is due it is recorded and computed, and its rendering is named
/// after its stem and its time.
pub open spec fn planned(
    ledger: Map<Seq<char>, Timestamp>,
    file_name: Seq<char>,
    path: Seq<char>,
    modified: Timestamp,
    stamp: Option<Seq<char>>,
) -> (Map<Seq<char>, Timestamp>, Option<Seq<char>>) {
    match (xml_stem(file_name), stamp) {
        (Some(stem), Some(stamp)) => if is_due(ledger, path, modified) {
            (ledger.insert(path, modified), Some(rendering_name(stem, stamp)))
        } else {
            (ledger, None)
        },
        _ => (ledger, None),
    }
}

/// Decides on a file whose time has been written already.
pub fn plan_with_stamp(
    ledger: &mut WatchLedger,
    file_name: &str,
    path: &str,
    modified: Timestamp,
    stamp: Option<String>,
) -> (plan: FilePlan)
    ensures
        final(ledger)@ == planned(
            old(ledger)@,
            file_name@,
            path@,
            modified,
            match stamp {
                Some(text) => Some(text@),
                None => None,
            },
        ).0,
        match planned(
            old(ledger)@,
            file_name@,
            path@,
            modified,
            match stamp {
                Some(text) => Some(text@),
                None => None,
            },
        ).1 {
            Some(name) => plan matches FilePlan::Run { output_name } && output_name@ == name,
            None => plan is Skip,
        },
{
    let stem = match stem_of(file_name) {
        Some(stem) => stem,
        None => {
            return FilePlan::Skip;
        },
    };
    let stamp = match stamp {
        Some(stamp) => stamp,
        None => {
            return FilePlan::Skip;
        },
    };
    if !ledger.observe(path, modified) {
        return FilePlan::Skip;
    }
    let mut output_name = stem;
    output_name.append("--");
    output_name.append(stamp.as_str());
    output_name.append(".kmz");
    FilePlan::Run { output_name }
}

/// Decides on a file of the folder: [`planned`] with the time written in
/// UTC under [`STAMP_LAYOUT`].
pub fn plan_file(ledger: &mut WatchLedger, file_name: &str, path: &str, modified: Timestamp) -> (plan:
    FilePlan)
    ensures
        final(ledger)@ == planned(
            old(ledger)@,
            file_name@,
            path@,
            modified,
            utc_text(modified.secs as int, modified.nanos as int, STAMP_LAYOUT@),
        ).0,
        match planned(
            old(ledger)@,
            file_name@,
            path@,
            modified,
            utc_text(modified.secs as int, modified.nanos as int, STAMP_LAYOUT@),
        ).1 {
            Some(name) => plan matches FilePlan::Run { output_name } && output_name@ == name,
            None => plan is Skip,
        },
{
    let stamp = format_utc(modified.secs, modified.nanos, STAMP_LAYOUT);
    plan_with_stamp(ledger, file_name, path, modified, stamp)
}

/// Why a document of the folder was not computed.
#[derive(Debug)]
pub enum WatchErr {
    /// The document holds no assignment.
    NoAssignment,
    /// Its first assignment could not be turned into a request.
    Translation(SsrfToCloudRFrr),
    /// The engine answered with an error; the text is its message.
    Engine(String),
}

/// The request for a document of the folder: the multisite request of its
/// first assignment.
pub fn watched_request(ssrf: &SSRF) -> (request: Result<MultisiteReq, WatchErr>)
    ensures
        ssrf.assignments.len() == 0 ==> request is Err && request->Err_0 is NoAssignment,
        ssrf.assignments.len() > 0 ==> match request {
            Ok(made) => is_multisite_outcome(*ssrf, ssrf.assignments[0].serial, Ok(made)),
            Err(WatchErr::Translation(error)) => is_multisite_outcome(
                *ssrf,
                ssrf.assignments[0].serial,
                Err(error),
            ),
            Err(_) => false,
        },
{
    if ssrf.assignments.len() == 0 {
        return Err(WatchErr::NoAssignment);
    }
    match ssrf_to_multisite_req(ssrf, &ssrf.assignments[0].serial) {
        Ok(made) => Ok(made),
        Err(error) => Err(WatchErr::Translation(error)),
    }
}

/// Where the rendering of an answer lies, or the error of the engine.
pub fn rendering_address(answer: MultisiteRes) -> (address: Result<String, WatchErr>)
    ensures
        match answer {
            MultisiteRes::Error { error } => address == Err::<String, WatchErr>(
                WatchErr::Engine(error),
            ),
            MultisiteRes::Success { kmz, .. } => address == Ok::<String, WatchErr>(kmz),
        },
{
    match answer {
        MultisiteRes::Error { error } => Err(WatchErr::Engine(error)),
        MultisiteRes::Success { kmz, .. } => Ok(kmz),
    }
}

} // verus!
