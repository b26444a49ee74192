//! Composite serial identifiers: `country:organisation:type:name`.

use vstd::prelude::*;
use vstd::string::*;

use crate::text::{chars_of, owned_range};

verus! {

/// A four-part identifier, the primary key of locations and assignments.
#[derive(Debug)]
pub struct Serial {
    pub country: String,
    pub org: Option<String>,
    pub kind: String,
    pub name: String,
}

/// What a [`Serial`] holds, as character sequences.
pub struct SerialView {
    pub country: Seq<char>,
    pub org: Option<Seq<char>>,
    pub kind: Seq<char>,
    pub name: Seq<char>,
}

impl View for Serial {
    type V = SerialView;

    open spec fn view(&self) -> SerialView {
        SerialView {
            country: self.country@,
            org: match self.org {
                Some(org) => Some(org@),
                None => None,
            },
            kind: self.kind@,
            name: self.name@,
        }
    }
}

impl SerialView {
    /// A serial that its own text identifies: no part holds the separator,
    /// and an organisation that is present is not empty.
    pub open spec fn is_canonical(self) -> bool {
        &&& !self.country.contains(':')
        &&& !self.kind.contains(':')
        &&& !self.name.contains(':')
        &&& match self.org {
            Some(org) => org.len() > 0 && !org.contains(':'),
            None => true,
        }
    }
}

impl Clone for Serial {
    fn clone(&self) -> (copy: Self)
        ensures
            copy == *self,
    {
        let org = match &self.org {
            Some(org) => Some(org.clone()),
            None => None,
        };
        Serial { country: self.country.clone(), org, kind: self.kind.clone(), name: self.name.clone() }
    }
}

impl PartialEq for Serial {
    fn eq(&self, other: &Serial) -> (same: bool) {
        let same_org = match &self.org {
            Some(mine) => match &other.org {
                Some(theirs) => *mine == *theirs,
                None => false,
            },
            None => other.org.is_none(),
        };
        self.country == other.country && same_org && self.kind == other.kind && self.name
            == other.name
    }
}

impl vstd::std_specs::cmp::PartialEqSpecImpl for Serial {
    open spec fn obeys_eq_spec() -> bool {
        true
    }

    open spec fn eq_spec(&self, other: &Serial) -> bool {
        self@ == other@
    }
}

impl Eq for Serial {

}

/// Number of characters of `text` before its first `':'`, or all of them
/// when it holds none.
pub open spec fn field_len(text: Seq<char>) -> nat
    decreases text.len(),
{
    if text.len() == 0 || text[0] == ':' {
        0
    } else {
        1 + field_len(text.drop_first())
    }
}

/// The text before the first `':'`.
pub open spec fn first_field(text: Seq<char>) -> Seq<char> {
    text.take(field_len(text) as int)
}

/// The text behind the first `':'`, if there is one.
pub open spec fn after_first_field(text: Seq<char>) -> Option<Seq<char>> {
    if field_len(text) < text.len() {
        Some(text.skip(field_len(text) as int + 1))
    } else {
        None
    }
}

/// The text behind the first `':'` of an optional text.
pub open spec fn after_field(text: Option<Seq<char>>) -> Option<Seq<char>> {
    match text {
        Some(text) => after_first_field(text),
        None => None,
    }
}

/// The serial that a text denotes.
///
/// The text is cut at each `':'`. The first piece is the country. The second
/// is the organisation, absent when the piece is missing or empty. The third
/// and fourth are type and name; where the text ends early they read
/// `ERR_EXPECTED_TYPE` and `ERR_EXPECTED_NAME`. Anything behind a fourth
/// separator is ignored.
pub open spec fn parse_serial_spec(text: Seq<char>) -> SerialView {
    let second = after_first_field(text);
    let third = after_field(second);
    let fourth = after_field(third);
    SerialView {
        country: first_field(text),
        org: match second {
            Some(rest) if first_field(rest).len() > 0 => Some(first_field(rest)),
            _ => None,
        },
        kind: match third {
            Some(rest) => first_field(rest),
            None => "ERR_EXPECTED_TYPE"@,
        },
        name: match fourth {
            Some(rest) => first_field(rest),
            None => "ERR_EXPECTED_NAME"@,
        },
    }
}

/// The canonical text of a serial: its four parts joined by `':'`, an absent
/// organisation written as an empty part.
pub open spec fn format_serial_spec(serial: SerialView) -> Seq<char> {
    serial.country + seq![':'] + (match serial.org {
        Some(org) => org,
        None => Seq::empty(),
    }) + seq![':'] + serial.kind + seq![':'] + serial.name
}

proof fn field_len_bounded(text: Seq<char>)
    ensures
        field_len(text) <= text.len(),
        forall|i: int| 0 <= i < field_len(text) ==> text[i] != ':',
        field_len(text) < text.len() ==> text[field_len(text) as int] == ':',
    decreases text.len(),
{
    if text.len() > 0 && text[0] != ':' {
        let tail = text.drop_first();
        field_len_bounded(tail);
        assert forall|i: int| 0 <= i < field_len(text) implies text[i] != ':' by {
            if i > 0 {
                assert(text[i] == tail[i - 1]);
            }
        }
        if field_len(text) < text.len() {
            assert(text[field_len(text) as int] == tail[field_len(tail) as int]);
        }
    }
}

proof fn first_field_is_clean(text: Seq<char>)
    ensures
        !first_field(text).contains(':'),
{
    field_len_bounded(text);
}

/// `end` is where the field that starts at `start` stops.
proof fn field_len_from(text: Seq<char>, start: int, end: int)
    requires
        0 <= start <= end <= text.len(),
        forall|i: int| start <= i < end ==> text[i] != ':',
        end == text.len() || text[end] == ':',
    ensures
        field_len(text.skip(start)) == end - start,
    decreases end - start,
{
    let from = text.skip(start);
    if start < end {
        assert(from[0] == text[start]);
        assert(from.drop_first() == text.skip(start + 1));
        field_len_from(text, start + 1, end);
    } else if end < text.len() {
        assert(from[0] == text[end]);
    }
}

/// Scans one field: the position of the first `':'` at or behind `start`,
/// or the length of `chars`.
fn field_end(chars: &Vec<char>, start: usize) -> (end: usize)
    requires
        start <= chars.len(),
    ensures
        start <= end <= chars.len(),
        end - start == field_len(chars@.skip(start as int)),
{
    let mut end = start;
    while end < chars.len() && chars[end] != ':'
        invariant
            start <= end <= chars.len(),
            forall|i: int| start <= i < end ==> chars@[i] != ':',
        decreases chars.len() - end,
    {
        end += 1;
    }
    proof {
        field_len_from(chars@, start as int, end as int);
    }
    end
}

/// Reads a serial from its text. Never fails: missing parts are filled in as
/// [`parse_serial_spec`] says.
pub fn parse_serial(text: &str) -> (serial: Serial)
    ensures
        serial@ == parse_serial_spec(text@),
{
    let chars = chars_of(text);
    let len = chars.len();
    let ghost all = text@;
    let country_end = field_end(&chars, 0);
    assert(all.skip(0) == all);
    let country = owned_range(text, 0, country_end);
    let mut org: Option<String> = None;
    let mut kind: Option<String> = None;
    let mut name: Option<String> = None;
    if country_end < len {
        let org_start = country_end + 1;
        let org_end = field_end(&chars, org_start);
        let ghost second = all.skip(org_start as int);
        assert(first_field(second) == all.subrange(org_start as int, org_end as int));
        if org_end > org_start {
            org = Some(owned_range(text, org_start, org_end));
        }
        if org_end < len {
            let kind_start = org_end + 1;
            let kind_end = field_end(&chars, kind_start);
            let ghost third = all.skip(kind_start as int);
            assert(second.skip(org_end - org_start + 1) == third);
            assert(first_field(third) == all.subrange(kind_start as int, kind_end as int));
            kind = Some(owned_range(text, kind_start, kind_end));
            if kind_end < len {
                let name_start = kind_end + 1;
                let name_end = field_end(&chars, name_start);
                let ghost fourth = all.skip(name_start as int);
                assert(third.skip(kind_end - kind_start + 1) == fourth);
                assert(first_field(fourth) == all.subrange(name_start as int, name_end as int));
                name = Some(owned_range(text, name_start, name_end));
            }
        }
    }
    let kind = match kind {
        Some(kind) => kind,
        None => "ERR_EXPECTED_TYPE".to_owned(),
    };
    let name = match name {
        Some(name) => name,
        None => "ERR_EXPECTED_NAME".to_owned(),
    };
    Serial { country, org, kind, name }
}

/// Writes a serial as its canonical text.
pub fn format_serial(serial: &Serial) -> (text: String)
    ensures
        text@ == format_serial_spec(serial@),
{
    let mut text = serial.country.clone();
    text.append(":");
    match &serial.org {
        Some(org) => text.append(org.as_str()),
        None => {},
    }
    text.append(":");
    text.append(serial.kind.as_str());
    text.append(":");
    text.append(serial.name.as_str());
    proof {
        reveal_strlit(":");
        assert(":"@ == seq![':']);
        assert(serial.country@ + seq![':'] + Seq::<char>::empty() == serial.country@ + seq![':']);
    }
    text
}

/// A part without separator, followed by a separator, is read back as the
/// first field, and the text behind the separator is what remains.
proof fn field_of_joined(part: Seq<char>, rest: Seq<char>)
    requires
        !part.contains(':'),
    ensures
        first_field(part + seq![':'] + rest) == part,
        after_first_field(part + seq![':'] + rest) == Some(rest),
{
    let text = part + seq![':'] + rest;
    assert(text.skip(0) == text);
    assert forall|i: int| 0 <= i < part.len() implies text[i] != ':' by {
        assert(text[i] == part[i]);
        assert(part.contains(part[i]));
    }
    assert(text[part.len() as int] == ':');
    field_len_from(text, 0, part.len() as int);
    assert(text.take(part.len() as int) == part);
    assert(text.skip(part.len() as int + 1) == rest);
}

/// A last part without separator is read back whole, with nothing behind it.
proof fn field_of_last(part: Seq<char>)
    requires
        !part.contains(':'),
    ensures
        first_field(part) == part,
        after_first_field(part) == None::<Seq<char>>,
{
    assert(part.skip(0) == part);
    assert forall|i: int| 0 <= i < part.len() implies part[i] != ':' by {
        assert(part.contains(part[i]));
    }
    field_len_from(part, 0, part.len() as int);
    assert(part.take(part.len() as int) == part);
}

/// Reading the canonical text of a canonical serial gives the serial back.
pub proof fn parse_inverts_format(serial: SerialView)
    requires
        serial.is_canonical(),
    ensures
        parse_serial_spec(format_serial_spec(serial)) == serial,
{
    let org = match serial.org {
        Some(org) => org,
        None => Seq::<char>::empty(),
    };
    let fourth = serial.name;
    let third = serial.kind + seq![':'] + fourth;
    let second = org + seq![':'] + third;
    let text = serial.country + seq![':'] + second;
    assert(text == format_serial_spec(serial));
    field_of_joined(serial.country, second);
    field_of_joined(org, third);
    field_of_joined(serial.kind, fourth);
    field_of_last(fourth);
}

/// Reading never yields a part that holds a separator, nor an empty
/// organisation: what was read is written and read again unchanged.
pub proof fn parsed_is_canonical(text: Seq<char>)
    ensures
        parse_serial_spec(text).is_canonical(),
        parse_serial_spec(format_serial_spec(parse_serial_spec(text))) == parse_serial_spec(text),
{
    reveal_strlit("ERR_EXPECTED_TYPE");
    reveal_strlit("ERR_EXPECTED_NAME");
    let second = after_first_field(text);
    let third = after_field(second);
    let fourth = after_field(third);
    first_field_is_clean(text);
    if let Some(rest) = second {
        first_field_is_clean(rest);
    }
    if let Some(rest) = third {
        first_field_is_clean(rest);
    }
    if let Some(rest) = fourth {
        first_field_is_clean(rest);
    }
    parse_inverts_format(parse_serial_spec(text));
}

/// A text is its first field, and behind a separator whatever follows.
proof fn text_is_field_and_rest(text: Seq<char>)
    ensures
        match after_first_field(text) {
            Some(rest) => text == first_field(text) + seq![':'] + rest,
            None => text == first_field(text),
        },
{
    field_len_bounded(text);
    let n = field_len(text) as int;
    if n < text.len() {
        assert(text =~= text.take(n) + seq![':'] + text.skip(n + 1));
    } else {
        assert(text.take(n) =~= text);
    }
}

/// A text with exactly three separators is the canonical text of the
/// serial that it denotes.
pub proof fn format_inverts_parse(text: Seq<char>)
    requires
        after_field(after_field(after_first_field(text))) matches Some(last)
            && after_first_field(last) is None,
    ensures
        format_serial_spec(parse_serial_spec(text)) == text,
{
    let second = after_first_field(text)->0;
    let third = after_first_field(second)->0;
    let fourth = after_first_field(third)->0;
    text_is_field_and_rest(text);
    text_is_field_and_rest(second);
    text_is_field_and_rest(third);
    text_is_field_and_rest(fourth);
    let parsed = parse_serial_spec(text);
    let org = match parsed.org {
        Some(org) => org,
        None => Seq::<char>::empty(),
    };
    assert(org =~= first_field(second));
    assert(format_serial_spec(parsed) =~= first_field(text) + seq![':'] + (first_field(second)
        + seq![':'] + (first_field(third) + seq![':'] + first_field(fourth))));
}

} // verus!
