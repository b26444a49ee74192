//! Latitudes and longitudes as degrees, minutes and seconds.
//!
//! A coordinate is a signed whole number of hundredths of an arc-second,
//! north and east positive. Its text is fixed-width: `DDMMSS.ssN` for a
//! latitude, `DDDMMSS.ssE` for a longitude. One degree is 360 000 hundredths.

use vstd::prelude::*;
use vstd::string::*;

use crate::text::chars_of;

verus! {

/// Hundredths of an arc-second in one degree.
pub const PER_DEGREE: i64 = 360_000;

/// Hundredths of an arc-second in one minute.
pub const PER_MINUTE: i64 = 6_000;

/// Hundredths of an arc-second in one second.
pub const PER_SECOND: i64 = 100;

/// Which of the two coordinates a text stands for.
#[derive(Debug, Clone, Copy, PartialEq, Eq, Structural)]
pub enum Axis {
    Latitude,
    Longitude,
}

/// Why a text is not a coordinate.
#[derive(Debug, Clone, Copy, PartialEq, Eq, Structural)]
pub enum FormatError {
    /// The text does not have the fixed number of characters of its axis.
    WrongWidth,
    /// The last character is not a hemisphere letter of the axis.
    UnknownHemisphere,
    /// A digit or the decimal point is not where the layout wants it.
    NotNumeric,
}

/// One of the ten decimal digits.
pub open spec fn is_digit(c: char) -> bool {
    '0' <= c <= '9'
}

/// The number that a decimal digit stands for.
pub open spec fn digit_value(c: char) -> int {
    c as int - '0' as int
}

/// The character of a decimal digit.
pub open spec fn digit_char(d: int) -> char {
    seq!['0', '1', '2', '3', '4', '5', '6', '7', '8', '9'][d]
}

/// Nothing but decimal digits.
pub open spec fn all_digits(text: Seq<char>) -> bool {
    forall|i: int| 0 <= i < text.len() ==> is_digit(#[trigger] text[i])
}

/// The number that a run of decimal digits writes.
pub open spec fn number_of(digits: Seq<char>) -> int
    decreases digits.len(),
{
    if digits.len() == 0 {
        0
    } else {
        10 * number_of(digits.drop_last()) + digit_value(digits.last())
    }
}

/// Decimal digits of `n`, filled with zeros on the left up to `width`
/// characters, and longer where `n` needs more.
pub open spec fn padded(n: nat, width: nat) -> Seq<char>
    decreases n, width,
{
    if n < 10 && width <= 1 {
        seq![digit_char(n as int)]
    } else {
        let rest = if width > 0 {
            (width - 1) as nat
        } else {
            0
        };
        padded(n / 10, rest).push(digit_char((n % 10) as int))
    }
}

/// Digits that the degrees take: two for a latitude, three for a longitude.
pub open spec fn degree_width(axis: Axis) -> int {
    match axis {
        Axis::Latitude => 2,
        Axis::Longitude => 3,
    }
}

/// One more than the largest magnitude that the fixed-width degrees can hold.
pub open spec fn magnitude_limit(axis: Axis) -> int {
    match axis {
        Axis::Latitude => 100 * PER_DEGREE,
        Axis::Longitude => 1000 * PER_DEGREE,
    }
}

/// The letter of a hemisphere: `N` and `S` on a latitude, `E` and `W` on a
/// longitude; south and west are the negative ones.
pub open spec fn hemisphere_letter(axis: Axis, negative: bool) -> char {
    match axis {
        Axis::Latitude => if negative { 'S' } else { 'N' },
        Axis::Longitude => if negative { 'W' } else { 'E' },
    }
}

/// One of the two hemisphere letters of an axis.
pub open spec fn is_hemisphere(c: char, axis: Axis) -> bool {
    c == hemisphere_letter(axis, false) || c == hemisphere_letter(axis, true)
}

/// The coordinate that a text denotes, or why it denotes none.
///
/// The text must be exactly as wide as its axis demands and end in a
/// hemisphere letter of that axis. Before the letter stand the digits of
/// degrees, two of minutes, two of seconds, a point, and two of hundredths.
/// Width is tested first, then the letter, then the digits.
pub open spec fn parse_coordinate_spec(text: Seq<char>, axis: Axis) -> Result<int, FormatError> {
    let w = degree_width(axis);
    if text.len() != w + 8 {
        Err(FormatError::WrongWidth)
    } else if !is_hemisphere(text[w + 7], axis) {
        Err(FormatError::UnknownHemisphere)
    } else if !(all_digits(text.subrange(0, w + 4)) && text[w + 4] == '.' && all_digits(
        text.subrange(w + 5, w + 7),
    )) {
        Err(FormatError::NotNumeric)
    } else {
        let magnitude = number_of(text.subrange(0, w)) * PER_DEGREE + number_of(
            text.subrange(w, w + 2),
        ) * PER_MINUTE + number_of(text.subrange(w + 2, w + 4)) * PER_SECOND + number_of(
            text.subrange(w + 5, w + 7),
        );
        Ok(
            if text[w + 7] == hemisphere_letter(axis, true) {
                -magnitude
            } else {
                magnitude
            },
        )
    }
}

/// The text of a coordinate: its magnitude split into degrees, minutes,
/// seconds and hundredths, then the letter of its sign. Zero is north or east.
pub open spec fn format_coordinate_spec(value: int, axis: Axis) -> Seq<char> {
    let magnitude = if value < 0 {
        -value
    } else {
        value
    };
    padded((magnitude / PER_DEGREE as int) as nat, degree_width(axis) as nat) + padded(
        ((magnitude / PER_MINUTE as int) % 60) as nat,
        2,
    ) + padded(((magnitude / PER_SECOND as int) % 60) as nat, 2) + seq!['.'] + padded(
        (magnitude % PER_SECOND as int) as nat,
        2,
    ) + seq![hemisphere_letter(axis, value < 0)]
}

proof fn number_of_one(a: char)
    ensures
        number_of(seq![a]) == digit_value(a),
{
    reveal_with_fuel(number_of, 2);
    assert(seq![a].drop_last() == Seq::<char>::empty());
}

proof fn number_of_two(a: char, b: char)
    ensures
        number_of(seq![a, b]) == 10 * digit_value(a) + digit_value(b),
{
    assert(seq![a, b].drop_last() == seq![a]);
    number_of_one(a);
}

proof fn number_of_three(a: char, b: char, c: char)
    ensures
        number_of(seq![a, b, c]) == 100 * digit_value(a) + 10 * digit_value(b) + digit_value(c),
{
    assert(seq![a, b, c].drop_last() == seq![a, b]);
    number_of_two(a, b);
}

proof fn digit_char_is_digit(d: int)
    requires
        0 <= d <= 9,
    ensures
        is_digit(digit_char(d)),
        digit_value(digit_char(d)) == d,
{
}

proof fn padded_two(n: nat)
    requires
        n < 100,
    ensures
        padded(n, 2) == seq![digit_char((n / 10) as int), digit_char((n % 10) as int)],
{
    assert(padded(n / 10, 1) == seq![digit_char((n / 10) as int)]);
    assert(padded(n, 2) == padded(n / 10, 1).push(digit_char((n % 10) as int)));
}

proof fn padded_three(n: nat)
    requires
        n < 1000,
    ensures
        padded(n, 3) == seq![
            digit_char((n / 100) as int),
            digit_char(((n / 10) % 10) as int),
            digit_char((n % 10) as int),
        ],
{
    padded_two(n / 10);
    assert(padded(n, 3) == padded(n / 10, 2).push(digit_char((n % 10) as int)));
    assert((n / 10) / 10 == n / 100);
}

/// A number below `10^width` is written in exactly `width` digits, and those
/// digits write the number.
proof fn padded_reads_back(n: nat, width: int)
    requires
        width == 2 || width == 3,
        width == 2 ==> n < 100,
        n < 1000,
    ensures
        padded(n, width as nat).len() == width,
        all_digits(padded(n, width as nat)),
        number_of(padded(n, width as nat)) == n,
{
    if width == 2 {
        padded_two(n);
        let a = digit_char((n / 10) as int);
        let b = digit_char((n % 10) as int);
        digit_char_is_digit((n / 10) as int);
        digit_char_is_digit((n % 10) as int);
        number_of_two(a, b);
    } else {
        padded_three(n);
        let a = digit_char((n / 100) as int);
        let b = digit_char(((n / 10) % 10) as int);
        let c = digit_char((n % 10) as int);
        digit_char_is_digit((n / 100) as int);
        digit_char_is_digit(((n / 10) % 10) as int);
        digit_char_is_digit((n % 10) as int);
        number_of_three(a, b, c);
    }
}

/// Writing a coordinate whose degrees fit the fixed width, and reading the
/// text again, gives the coordinate back exactly; and the text ends in the
/// letter of the coordinate's sign.
pub proof fn parse_inverts_format(value: int, axis: Axis)
    requires
        -magnitude_limit(axis) < value < magnitude_limit(axis),
    ensures
        parse_coordinate_spec(format_coordinate_spec(value, axis), axis) == Ok::<
            int,
            FormatError,
        >(value),
        format_coordinate_spec(value, axis).len() == degree_width(axis) + 8,
        format_coordinate_spec(value, axis).last() == hemisphere_letter(axis, value < 0),
{
    let w = degree_width(axis);
    let m = if value < 0 {
        -value
    } else {
        value
    };
    let deg = (m / 360_000) as nat;
    let min = ((m / 6_000) % 60) as nat;
    let sec = ((m / 100) % 60) as nat;
    let hun = (m % 100) as nat;
    assert(m == deg * 360_000 + min * 6_000 + sec * 100 + hun);
    let d = padded(deg, w as nat);
    let mi = padded(min, 2);
    let s = padded(sec, 2);
    let h = padded(hun, 2);
    padded_reads_back(deg, w);
    padded_reads_back(min, 2);
    padded_reads_back(sec, 2);
    padded_reads_back(hun, 2);
    let letter = hemisphere_letter(axis, value < 0);
    let text = d + mi + s + seq!['.'] + h + seq![letter];
    assert(text == format_coordinate_spec(value, axis));
    assert(text.len() == w + 8);
    assert(text.subrange(0, w) == d);
    assert(text.subrange(w, w + 2) == mi);
    assert(text.subrange(w + 2, w + 4) == s);
    assert(text.subrange(w + 5, w + 7) == h);
    assert(text[w + 4] == '.');
    assert(text[w + 7] == letter);
    assert(text.last() == letter);
    assert(all_digits(text.subrange(0, w + 4))) by {
        assert forall|i: int| 0 <= i < w + 4 implies is_digit(
            #[trigger] text.subrange(0, w + 4)[i],
        ) by {
            if i < w {
                assert(text[i] == d[i]);
            } else if i < w + 2 {
                assert(text[i] == mi[i - w]);
            } else {
                assert(text[i] == s[i - w - 2]);
            }
        }
    }
    if value == 0 {
        assert(m == 0);
    }
}

/// A text as [`format_coordinate_spec`] writes it: a coordinate whose minutes
/// and seconds are below sixty, and zero on the positive side.
pub open spec fn is_canonical_text(text: Seq<char>, axis: Axis) -> bool {
    let w = degree_width(axis);
    &&& parse_coordinate_spec(text, axis) is Ok
    &&& number_of(text.subrange(w, w + 2)) < 60
    &&& number_of(text.subrange(w + 2, w + 4)) < 60
    &&& (parse_coordinate_spec(text, axis)->Ok_0 == 0 ==> text[w + 7] == hemisphere_letter(
        axis,
        false,
    ))
}

/// Two or three digits are what is written of the number that they write.
proof fn digits_write_back(digits: Seq<char>)
    requires
        digits.len() == 2 || digits.len() == 3,
        all_digits(digits),
    ensures
        0 <= number_of(digits),
        digits.len() == 2 ==> number_of(digits) < 100,
        digits.len() == 3 ==> number_of(digits) < 1000,
        padded(number_of(digits) as nat, digits.len()) == digits,
{
    assert(is_digit(digits[0]) && is_digit(digits[1]));
    if digits.len() == 2 {
        assert(digits == seq![digits[0], digits[1]]);
        number_of_two(digits[0], digits[1]);
        padded_two(number_of(digits) as nat);
    } else {
        assert(is_digit(digits[2]));
        assert(digits == seq![digits[0], digits[1], digits[2]]);
        number_of_three(digits[0], digits[1], digits[2]);
        padded_three(number_of(digits) as nat);
    }
}

/// Degrees, minutes, seconds and hundredths are what a magnitude made of
/// them splits into.
proof fn magnitude_splits(d: int, mi: int, s: int, h: int)
    requires
        0 <= d,
        0 <= mi < 60,
        0 <= s < 60,
        0 <= h < 100,
    ensures
        (d * 360_000 + mi * 6_000 + s * 100 + h) / 360_000 == d,
        ((d * 360_000 + mi * 6_000 + s * 100 + h) / 6_000) % 60 == mi,
        ((d * 360_000 + mi * 6_000 + s * 100 + h) / 100) % 60 == s,
        (d * 360_000 + mi * 6_000 + s * 100 + h) % 100 == h,
{
    let m = d * 360_000 + mi * 6_000 + s * 100 + h;
    let below = mi * 6_000 + s * 100 + h;
    assert(0 <= below < 360_000);
    assert(m == 360_000 * d + below);
    assert(m / 360_000 == d && m % 360_000 == below) by {
        vstd::arithmetic::div_mod::lemma_fundamental_div_mod_converse(m, 360_000, d, below);
    }
    let minutes = d * 60 + mi;
    let under = s * 100 + h;
    assert(0 <= under < 6_000);
    assert(m == 6_000 * minutes + under);
    assert(m / 6_000 == minutes) by {
        vstd::arithmetic::div_mod::lemma_fundamental_div_mod_converse(m, 6_000, minutes, under);
    }
    assert(minutes % 60 == mi) by {
        vstd::arithmetic::div_mod::lemma_fundamental_div_mod_converse(minutes, 60, d, mi);
    }
    let seconds = minutes * 60 + s;
    assert(m == 100 * seconds + h);
    assert(m / 100 == seconds && m % 100 == h) by {
        vstd::arithmetic::div_mod::lemma_fundamental_div_mod_converse(m, 100, seconds, h);
    }
    assert(seconds % 60 == s) by {
        vstd::arithmetic::div_mod::lemma_fundamental_div_mod_converse(seconds, 60, minutes, s);
    }
}

/// The digits of a text that parses: each field is made of digits.
proof fn fields_are_digits(text: Seq<char>, axis: Axis)
    requires
        parse_coordinate_spec(text, axis) is Ok,
    ensures
        all_digits(text.subrange(0, degree_width(axis))),
        all_digits(text.subrange(degree_width(axis), degree_width(axis) + 2)),
        all_digits(text.subrange(degree_width(axis) + 2, degree_width(axis) + 4)),
        all_digits(text.subrange(degree_width(axis) + 5, degree_width(axis) + 7)),
{
    let w = degree_width(axis);
    let head = text.subrange(0, w + 4);
    let d = text.subrange(0, w);
    let mi = text.subrange(w, w + 2);
    let s = text.subrange(w + 2, w + 4);
    assert forall|i: int| 0 <= i < d.len() implies is_digit(#[trigger] d[i]) by {
        assert(d[i] == head[i]);
    }
    assert forall|i: int| 0 <= i < mi.len() implies is_digit(#[trigger] mi[i]) by {
        assert(mi[i] == head[i + w]);
    }
    assert forall|i: int| 0 <= i < s.len() implies is_digit(#[trigger] s[i]) by {
        assert(s[i] == head[i + w + 2]);
    }
}

/// Reading a canonical text and writing the coordinate gives the text back.
pub proof fn format_inverts_parse(text: Seq<char>, axis: Axis)
    requires
        is_canonical_text(text, axis),
    ensures
        format_coordinate_spec(parse_coordinate_spec(text, axis)->Ok_0, axis) == text,
{
    let w = degree_width(axis);
    let d = text.subrange(0, w);
    let mi = text.subrange(w, w + 2);
    let s = text.subrange(w + 2, w + 4);
    let h = text.subrange(w + 5, w + 7);
    fields_are_digits(text, axis);
    digits_write_back(d);
    digits_write_back(mi);
    digits_write_back(s);
    digits_write_back(h);
    magnitude_splits(number_of(d), number_of(mi), number_of(s), number_of(h));
    let m = number_of(d) * 360_000 + number_of(mi) * 6_000 + number_of(s) * 100 + number_of(h);
    let value = parse_coordinate_spec(text, axis)->Ok_0;
    let letter = text[w + 7];
    assert(letter == hemisphere_letter(axis, value < 0));
    let written = d + mi + s + seq!['.'] + h + seq![letter];
    assert(written == format_coordinate_spec(value, axis));
    assert(written =~= text);
}

/// Reads the digits `from..to` of `chars` as a number.
fn read_number(chars: &Vec<char>, from: usize, to: usize) -> (number: Option<i64>)
    requires
        from <= to <= chars.len(),
        to - from <= 3,
    ensures
        number is Some <==> all_digits(chars@.subrange(from as int, to as int)),
        number matches Some(n) ==> n == number_of(chars@.subrange(from as int, to as int)) && 0
            <= n < 1000,
{
    let mut number: i64 = 0;
    let mut at = from;
    let ghost run = chars@.subrange(from as int, to as int);
    let ghost mut bound: int = 1;
    while at < to
        invariant
            from <= at <= to <= chars.len(),
            to - from <= 3,
            run == chars@.subrange(from as int, to as int),
            all_digits(run.take(at - from)),
            number == number_of(run.take(at - from)),
            0 <= number < bound,
            at - from == 0 ==> bound == 1,
            at - from == 1 ==> bound == 10,
            at - from == 2 ==> bound == 100,
            at - from == 3 ==> bound == 1000,
        decreases to - at,
    {
        let c = chars[at];
        assert(c == run[at - from]);
        if !('0' <= c && c <= '9') {
            assert(!all_digits(run));
            return None;
        }
        let ghost before = run.take(at - from);
        let ghost after = run.take(at - from + 1);
        assert(after.drop_last() == before);
        assert(after.last() == c);
        assert(all_digits(after)) by {
            assert forall|i: int| 0 <= i < after.len() implies is_digit(#[trigger] after[i]) by {
                if i < before.len() {
                    assert(after[i] == before[i]);
                }
            }
        }
        number = number * 10 + (c as i64 - '0' as i64);
        at += 1;
        proof {
            bound = bound * 10;
        }
    }
    assert(run.take(to - from) == run);
    Some(number)
}

/// Reads a coordinate from its text.
pub fn parse_coordinate(text: &str, axis: Axis) -> (value: Result<i64, FormatError>)
    ensures
        match value {
            Ok(v) => parse_coordinate_spec(text@, axis) == Ok::<int, FormatError>(v as int),
            Err(e) => parse_coordinate_spec(text@, axis) == Err::<int, FormatError>(e),
        },
{
    let chars = chars_of(text);
    let w: usize = match axis {
        Axis::Latitude => 2,
        Axis::Longitude => 3,
    };
    if chars.len() != w + 8 {
        return Err(FormatError::WrongWidth);
    }
    let letter = chars[w + 7];
    let (positive, negative) = match axis {
        Axis::Latitude => ('N', 'S'),
        Axis::Longitude => ('E', 'W'),
    };
    if letter != positive && letter != negative {
        return Err(FormatError::UnknownHemisphere);
    }
    let degrees = read_number(&chars, 0, w);
    let minutes = read_number(&chars, w, w + 2);
    let seconds = read_number(&chars, w + 2, w + 4);
    let hundredths = read_number(&chars, w + 5, w + 7);
    proof {
        let all = chars@;
        let head = all.subrange(0, w + 4);
        assert(all.subrange(0, w as int) == head.subrange(0, w as int));
        assert(all.subrange(w as int, w + 2) == head.subrange(w as int, w + 2));
        assert(all.subrange(w + 2, w + 4) == head.subrange(w + 2, w + 4));
        if degrees is Some && minutes is Some && seconds is Some {
            assert forall|i: int| 0 <= i < head.len() implies is_digit(#[trigger] head[i]) by {
                if i < w {
                    assert(head[i] == all.subrange(0, w as int)[i]);
                } else if i < w + 2 {
                    assert(head[i] == all.subrange(w as int, w + 2)[i - w]);
                } else {
                    assert(head[i] == all.subrange(w + 2, w + 4)[i - w - 2]);
                }
            }
        }
        if all_digits(head) {
            assert forall|i: int| 0 <= i < w implies is_digit(
                #[trigger] all.subrange(0, w as int)[i],
            ) by {
                assert(all.subrange(0, w as int)[i] == head[i]);
            }
            assert forall|i: int| 0 <= i < 2 implies is_digit(
                #[trigger] all.subrange(w as int, w + 2)[i],
            ) by {
                assert(all.subrange(w as int, w + 2)[i] == head[i + w]);
            }
            assert forall|i: int| 0 <= i < 2 implies is_digit(
                #[trigger] all.subrange(w + 2, w + 4)[i],
            ) by {
                assert(all.subrange(w + 2, w + 4)[i] == head[i + w + 2]);
            }
        }
    }
    match (degrees, minutes, seconds, hundredths) {
        (Some(d), Some(m), Some(s), Some(h)) => {
            if chars[w + 4] != '.' {
                return Err(FormatError::NotNumeric);
            }
            let magnitude = d * PER_DEGREE + m * PER_MINUTE + s * PER_SECOND + h;
            if letter == negative {
                Ok(-magnitude)
            } else {
                Ok(magnitude)
            }
        },
        _ => Err(FormatError::NotNumeric),
    }
}

/// The decimal digit `d` as text.
fn digit(d: u64) -> (text: &'static str)
    requires
        d <= 9,
    ensures
        text@ == seq![digit_char(d as int)],
{
    proof {
        reveal_strlit("0");
        reveal_strlit("1");
        reveal_strlit("2");
        reveal_strlit("3");
        reveal_strlit("4");
        reveal_strlit("5");
        reveal_strlit("6");
        reveal_strlit("7");
        reveal_strlit("8");
        reveal_strlit("9");
    }
    let text = match d {
        0 => "0",
        1 => "1",
        2 => "2",
        3 => "3",
        4 => "4",
        5 => "5",
        6 => "6",
        7 => "7",
        8 => "8",
        _ => "9",
    };
    assert(text@ =~= seq![digit_char(d as int)]);
    text
}

/// The letter of a hemisphere as text.
fn hemisphere(axis: Axis, negative: bool) -> (text: &'static str)
    ensures
        text@ == seq![hemisphere_letter(axis, negative)],
{
    proof {
        reveal_strlit("N");
        reveal_strlit("S");
        reveal_strlit("E");
        reveal_strlit("W");
    }
    let text = match axis {
        Axis::Latitude => if negative {
            "S"
        } else {
            "N"
        },
        Axis::Longitude => if negative {
            "W"
        } else {
            "E"
        },
    };
    assert(text@ =~= seq![hemisphere_letter(axis, negative)]);
    text
}

/// Appends `n` in decimal, filled with zeros on the left up to `width`
/// characters.
pub fn push_padded(text: &mut String, n: u64, width: usize)
    ensures
        final(text)@ == old(text)@ + padded(n as nat, width as nat),
    decreases n, width,
{
    if n < 10 && width <= 1 {
        text.append(digit(n));
    } else {
        let rest: usize = if width > 0 {
            width - 1
        } else {
            0
        };
        push_padded(text, n / 10, rest);
        text.append(digit(n % 10));
        assert(text@ == old(text)@ + padded(n as nat, width as nat)) by {
            let head = padded((n / 10) as nat, rest as nat);
            let last = digit_char((n % 10) as int);
            assert(padded(n as nat, width as nat) == head.push(last));
            assert(old(text)@ + head + seq![last] == old(text)@ + head.push(last));
        }
    }
}

/// The magnitude of a coordinate.
fn magnitude_of(value: i64) -> (magnitude: u64)
    ensures
        magnitude == if value < 0 {
            -(value as int)
        } else {
            value as int
        },
{
    if value < 0 {
        let above: i64 = -(value + 1);
        above as u64 + 1
    } else {
        value as u64
    }
}

/// Writes a coordinate as text. Where the degrees need more digits than the
/// layout has, the text grows wider and is no longer read back.
pub fn format_coordinate(value: i64, axis: Axis) -> (text: String)
    ensures
        text@ == format_coordinate_spec(value as int, axis),
{
    let magnitude = magnitude_of(value);
    let width: usize = match axis {
        Axis::Latitude => 2,
        Axis::Longitude => 3,
    };
    let mut text = String::new();
    push_padded(&mut text, magnitude / 360_000, width);
    push_padded(&mut text, (magnitude / 6_000) % 60, 2);
    push_padded(&mut text, (magnitude / 100) % 60, 2);
    text.append(".");
    push_padded(&mut text, magnitude % 100, 2);
    text.append(hemisphere(axis, value < 0));
    proof {
        reveal_strlit(".");
        assert("."@ =~= seq!['.']);
        let d = padded((magnitude / 360_000) as nat, width as nat);
        assert(Seq::<char>::empty() + d == d);
    }
    text
}

} // verus!
