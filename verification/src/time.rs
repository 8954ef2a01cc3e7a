//! Instants and time windows, and their wire encoding.
//!
//! The API exchanges timestamps as text: outbound query parameters carry the
//! fixed shape `YYYY-MM-DDTHH:MM:SS+00:00`, and inbound payloads carry
//! ISO-8601 timestamps with an explicit offset (or `Z`).  An instant is kept
//! as its civil fields plus the offset in minutes, so both directions are
//! plain functions on characters.

use vstd::prelude::*;

verus! {

/// A timezone-aware instant: civil fields plus the UTC offset in minutes.
#[derive(Clone, Copy, Debug, PartialEq, Eq, Structural)]
pub struct Timestamp {
    pub year: u32,
    pub month: u32,
    pub day: u32,
    pub hour: u32,
    pub minute: u32,
    pub second: u32,
    pub offset_minutes: i32,
}

impl Timestamp {
    /// Field ranges as the wire shape allows them (days are not checked
    /// against the month's length; the server owns calendar validity).
    pub open spec fn valid(self) -> bool {
        &&& self.year <= 9999
        &&& 1 <= self.month <= 12
        &&& 1 <= self.day <= 31
        &&& self.hour <= 23
        &&& self.minute <= 59
        &&& self.second <= 59
        &&& -1439 <= self.offset_minutes <= 1439
    }

    /// An instant that denotes UTC directly.
    pub open spec fn is_utc(self) -> bool {
        self.offset_minutes == 0
    }
}

/// The decimal digit `d` as a character.
pub open spec fn digit_char(d: u32) -> char
    recommends
        d <= 9,
{
    ((('0' as u8) + d as u8) as char)
}

/// `n` rendered as exactly two digits, high digit first (modulo 100).
pub open spec fn pad2(n: u32) -> Seq<char> {
    seq![digit_char(n / 10 % 10), digit_char(n % 10)]
}

/// `n` rendered as exactly four digits, high digit first (modulo 10000).
pub open spec fn pad4(n: u32) -> Seq<char> {
    seq![
        digit_char(n / 1000 % 10),
        digit_char(n / 100 % 10),
        digit_char(n / 10 % 10),
        digit_char(n % 10),
    ]
}

/// The outbound wire rendering of an instant's civil fields, with the fixed
/// `+00:00` suffix the API expects on query parameters.
pub open spec fn spec_api_format(t: Timestamp) -> Seq<char> {
    pad4(t.year) + seq!['-'] + pad2(t.month) + seq!['-'] + pad2(t.day) + seq!['T'] + pad2(t.hour)
        + seq![':'] + pad2(t.minute) + seq![':'] + pad2(t.second) + "+00:00"@
}

/// Relies on `String::push`: appends exactly the one character.
#[verifier::external_body]
fn push_char(s: &mut String, c: char)
    ensures
        final(s)@ == old(s)@.push(c),
{
    s.push(c)
}

fn digit_to_char(d: u32) -> (c: char)
    requires
        d <= 9,
    ensures
        c == digit_char(d),
{
    (('0' as u8) + (d as u8)) as char
}

fn push_pad2(s: &mut String, n: u32)
    ensures
        final(s)@ == old(s)@ + pad2(n),
{
    push_char(s, digit_to_char(n / 10 % 10));
    push_char(s, digit_to_char(n % 10));
    proof {
        assert(old(s)@.push(digit_char(n / 10 % 10)).push(digit_char(n % 10)) =~= old(s)@ + pad2(
            n,
        ));
    }
}

fn push_pad4(s: &mut String, n: u32)
    ensures
        final(s)@ == old(s)@ + pad4(n),
{
    push_char(s, digit_to_char(n / 1000 % 10));
    push_char(s, digit_to_char(n / 100 % 10));
    push_char(s, digit_to_char(n / 10 % 10));
    push_char(s, digit_to_char(n % 10));
    proof {
        assert(old(s)@.push(digit_char(n / 1000 % 10)).push(digit_char(n / 100 % 10)).push(
            digit_char(n / 10 % 10),
        ).push(digit_char(n % 10)) =~= old(s)@ + pad4(n));
    }
}

/// Renders a value in the wire timestamp shape used by the API.
pub trait FormatToApiFmt {
    fn to_api_format(&self) -> String;
}

impl Timestamp {
    /// The civil fields in the outbound wire shape, always with the fixed
    /// `+00:00` suffix: windows are supplied in UTC.
    pub fn api_format(&self) -> (r: String)
        ensures
            r@ == spec_api_format(*self),
    {
        let mut s = String::new();
        push_pad4(&mut s, self.year);
        push_char(&mut s, '-');
        push_pad2(&mut s, self.month);
        push_char(&mut s, '-');
        push_pad2(&mut s, self.day);
        push_char(&mut s, 'T');
        push_pad2(&mut s, self.hour);
        push_char(&mut s, ':');
        push_pad2(&mut s, self.minute);
        push_char(&mut s, ':');
        push_pad2(&mut s, self.second);
        let r = s.concat("+00:00");
        proof {
            assert(r@ =~= spec_api_format(*self));
        }
        r
    }
}

impl FormatToApiFmt for Timestamp {
    fn to_api_format(&self) -> String {
        self.api_format()
    }
}

/// Whether `c` is a decimal digit.
pub open spec fn is_digit(c: char) -> bool {
    ('0' as u32) <= c as u32 <= ('9' as u32)
}

/// The value of the decimal digit `c`.
pub open spec fn digit_val(c: char) -> u32
    recommends
        is_digit(c),
{
    ((c as u32) - ('0' as u32)) as u32
}

/// The value of the two digits of `s` at `i` and `i + 1`.
pub open spec fn two_digits(s: Seq<char>, i: int) -> u32
    recommends
        0 <= i && i + 1 < s.len(),
{
    (digit_val(s[i]) * 10 + digit_val(s[i + 1])) as u32
}

/// The value of the four digits of `s` starting at `i`.
pub open spec fn four_digits(s: Seq<char>, i: int) -> u32
    recommends
        0 <= i && i + 3 < s.len(),
{
    (digit_val(s[i]) * 1000 + digit_val(s[i + 1]) * 100 + digit_val(s[i + 2]) * 10 + digit_val(
        s[i + 3],
    )) as u32
}

/// The date-time core `YYYY-MM-DDTHH:MM:SS` stands at the head of `s`.
pub open spec fn core_shape_ok(s: Seq<char>) -> bool {
    &&& s.len() >= 19
    &&& is_digit(s[0]) && is_digit(s[1]) && is_digit(s[2]) && is_digit(s[3])
    &&& s[4] == '-'
    &&& is_digit(s[5]) && is_digit(s[6])
    &&& s[7] == '-'
    &&& is_digit(s[8]) && is_digit(s[9])
    &&& s[10] == 'T'
    &&& is_digit(s[11]) && is_digit(s[12])
    &&& s[13] == ':'
    &&& is_digit(s[14]) && is_digit(s[15])
    &&& s[16] == ':'
    &&& is_digit(s[17]) && is_digit(s[18])
}

/// The offset in minutes that the tail of `s` (from position 19) denotes:
/// `Z`, or a sign followed by `HH:MM` within the valid ranges.
pub open spec fn spec_parse_offset(s: Seq<char>) -> Option<i32> {
    if s.len() == 20 && s[19] == 'Z' {
        Some(0)
    } else if s.len() == 25 && (s[19] == '+' || s[19] == '-') && is_digit(s[20]) && is_digit(s[21])
        && s[22] == ':' && is_digit(s[23]) && is_digit(s[24]) && two_digits(s, 20) <= 23
        && two_digits(s, 23) <= 59 {
        if s[19] == '-' {
            Some((0 - (two_digits(s, 20) * 60 + two_digits(s, 23))) as i32)
        } else {
            Some((two_digits(s, 20) * 60 + two_digits(s, 23)) as i32)
        }
    } else {
        None
    }
}

/// The civil fields of `s` lie within [`Timestamp::valid`] ranges.
pub open spec fn fields_in_range(s: Seq<char>) -> bool
    recommends
        core_shape_ok(s),
{
    &&& 1 <= two_digits(s, 5) <= 12
    &&& 1 <= two_digits(s, 8) <= 31
    &&& two_digits(s, 11) <= 23
    &&& two_digits(s, 14) <= 59
    &&& two_digits(s, 17) <= 59
}

/// The instant an inbound ISO-8601 timestamp with offset denotes, or `None`
/// where the text is malformed or a field is out of range.
pub open spec fn spec_parse_timestamp(s: Seq<char>) -> Option<Timestamp> {
    if core_shape_ok(s) && spec_parse_offset(s) is Some && fields_in_range(s) {
        Some(
            Timestamp {
                year: four_digits(s, 0),
                month: two_digits(s, 5),
                day: two_digits(s, 8),
                hour: two_digits(s, 11),
                minute: two_digits(s, 14),
                second: two_digits(s, 17),
                offset_minutes: spec_parse_offset(s).unwrap(),
            },
        )
    } else {
        None
    }
}

/// A parsed timestamp satisfies the field invariant.
pub proof fn lemma_parsed_timestamp_valid(s: Seq<char>)
    requires
        spec_parse_timestamp(s) is Some,
    ensures
        spec_parse_timestamp(s).unwrap().valid(),
{
}

fn read_digit(s: &str, i: usize) -> (r: Option<u32>)
    requires
        i < s@.len(),
    ensures
        match r {
            Some(d) => is_digit(s@[i as int]) && d == digit_val(s@[i as int]),
            None => !is_digit(s@[i as int]),
        },
{
    let c = s.get_char(i);
    let v = c as u32;
    if 48 <= v && v <= 57 {
        Some(v - 48)
    } else {
        None
    }
}

fn read_two(s: &str, i: usize) -> (r: Option<u32>)
    requires
        i + 1 < s@.len(),
        s@.len() <= usize::MAX,
    ensures
        match r {
            Some(d) => is_digit(s@[i as int]) && is_digit(s@[i + 1]) && d == two_digits(
                s@,
                i as int,
            ),
            None => !(is_digit(s@[i as int]) && is_digit(s@[i + 1])),
        },
{
    let hi = match read_digit(s, i) {
        Some(d) => d,
        None => {
            return None;
        },
    };
    let lo = match read_digit(s, i + 1) {
        Some(d) => d,
        None => {
            return None;
        },
    };
    Some(hi * 10 + lo)
}

/// Parses an inbound ISO-8601 timestamp with offset (`Z` or `+HH:MM` /
/// `-HH:MM`) at second resolution, rejecting malformed text and fields out
/// of range.
pub fn parse_timestamp(s: &str) -> (r: Option<Timestamp>)
    ensures
        r == spec_parse_timestamp(s@),
{
    let n = s.unicode_len();
    if n != 20 && n != 25 {
        return None;
    }
    let year_hi = match read_two(s, 0) {
        Some(d) => d,
        None => {
            return None;
        },
    };
    let year_lo = match read_two(s, 2) {
        Some(d) => d,
        None => {
            return None;
        },
    };
    let month = match read_two(s, 5) {
        Some(d) => d,
        None => {
            return None;
        },
    };
    let day = match read_two(s, 8) {
        Some(d) => d,
        None => {
            return None;
        },
    };
    let hour = match read_two(s, 11) {
        Some(d) => d,
        None => {
            return None;
        },
    };
    let minute = match read_two(s, 14) {
        Some(d) => d,
        None => {
            return None;
        },
    };
    let second = match read_two(s, 17) {
        Some(d) => d,
        None => {
            return None;
        },
    };
    if s.get_char(4) != '-' || s.get_char(7) != '-' || s.get_char(10) != 'T' || s.get_char(13)
        != ':' || s.get_char(16) != ':' {
        return None;
    }
    let offset_minutes: i32 = if n == 20 {
        if s.get_char(19) == 'Z' {
            0
        } else {
            return None;
        }
    } else {
        let sign = s.get_char(19);
        if sign != '+' && sign != '-' {
            return None;
        }
        let oh = match read_two(s, 20) {
            Some(d) => d,
            None => {
                return None;
            },
        };
        if s.get_char(22) != ':' {
            return None;
        }
        let om = match read_two(s, 23) {
            Some(d) => d,
            None => {
                return None;
            },
        };
        if oh > 23 || om > 59 {
            return None;
        }
        let m = (oh * 60 + om) as i32;
        if sign == '-' {
            0 - m
        } else {
            m
        }
    };
    if !(1 <= month && month <= 12) || !(1 <= day && day <= 31) || hour > 23 || minute > 59
        || second > 59 {
        return None;
    }
    let year = year_hi * 100 + year_lo;
    proof {
        assert(core_shape_ok(s@));
        assert(spec_parse_offset(s@) == Some(offset_minutes));
        assert(fields_in_range(s@));
        assert(year == four_digits(s@, 0));
    }
    Some(
        Timestamp {
            year,
            month,
            day,
            hour,
            minute,
            second,
            offset_minutes,
        },
    )
}

/// A digit character is a digit and carries its value.
pub proof fn lemma_digit_char(d: u32)
    requires
        d <= 9,
    ensures
        is_digit(digit_char(d)),
        digit_val(digit_char(d)) == d,
{
}

/// The wire rendering of a valid instant, spelled out character by
/// character: four year digits, two digits for every other field (seconds
/// included, zero-padded), the fixed separators, and the fixed `+00:00`
/// offset.
pub proof fn lemma_api_format_chars(t: Timestamp)
    requires
        t.valid(),
    ensures
        spec_api_format(t) =~= seq![
            digit_char(t.year / 1000 % 10),
            digit_char(t.year / 100 % 10),
            digit_char(t.year / 10 % 10),
            digit_char(t.year % 10),
            '-',
            digit_char(t.month / 10 % 10),
            digit_char(t.month % 10),
            '-',
            digit_char(t.day / 10 % 10),
            digit_char(t.day % 10),
            'T',
            digit_char(t.hour / 10 % 10),
            digit_char(t.hour % 10),
            ':',
            digit_char(t.minute / 10 % 10),
            digit_char(t.minute % 10),
            ':',
            digit_char(t.second / 10 % 10),
            digit_char(t.second % 10),
            '+',
            '0',
            '0',
            ':',
            '0',
            '0',
        ],
{
    reveal_strlit("+00:00");
    assert("+00:00"@.len() == 6);
    assert("+00:00"@[0] == '+');
    assert("+00:00"@[1] == '0');
    assert("+00:00"@[2] == '0');
    assert("+00:00"@[3] == ':');
    assert("+00:00"@[4] == '0');
    assert("+00:00"@[5] == '0');
}

/// The wire rendering of a valid instant is 25 characters, ends in the
/// fixed `+00:00` offset, and renders the seconds as exactly two
/// zero-padded digits.
pub proof fn lemma_api_format_shape(t: Timestamp)
    requires
        t.valid(),
    ensures
        spec_api_format(t).len() == 25,
        spec_api_format(t).subrange(19, 25) == "+00:00"@,
        spec_api_format(t).subrange(17, 19) == pad2(t.second),
{
    reveal_strlit("+00:00");
    lemma_api_format_chars(t);
    assert(spec_api_format(t).subrange(19, 25) =~= "+00:00"@);
    assert(spec_api_format(t).subrange(17, 19) =~= pad2(t.second));
}

/// Parsing the wire rendering of a valid UTC instant gives that instant
/// back.
#[verifier::rlimit(100)]
pub proof fn lemma_api_format_round_trip(t: Timestamp)
    requires
        t.valid(),
        t.is_utc(),
    ensures
        spec_parse_timestamp(spec_api_format(t)) == Some(t),
{
    lemma_api_format_chars(t);
    let s = spec_api_format(t);
    assert forall|d: u32| d <= 9 implies is_digit(digit_char(d)) && digit_val(digit_char(d))
        == d by {
        lemma_digit_char(d);
    }
    assert(core_shape_ok(s));
    assert(two_digits(s, 20) == 0);
    assert(two_digits(s, 23) == 0);
    assert(spec_parse_offset(s) == Some(0i32));
    assert(four_digits(s, 0) == (t.year / 1000 % 10) * 1000 + (t.year / 100 % 10) * 100 + (t.year
        / 10 % 10) * 10 + t.year % 10);
    assert((t.year / 1000 % 10) * 1000 + (t.year / 100 % 10) * 100 + (t.year / 10 % 10) * 10
        + t.year % 10 == t.year);
    assert(two_digits(s, 5) == t.month);
    assert(two_digits(s, 8) == t.day);
    assert(two_digits(s, 11) == t.hour);
    assert(two_digits(s, 14) == t.minute);
    assert(two_digits(s, 17) == t.second);
    assert(fields_in_range(s));
}

/// A caller-supplied time window: two UTC instants, `start` expected not
/// after `end` but not locally validated (the server owns that check).
#[derive(Clone, Copy, Debug, PartialEq, Eq, Structural)]
pub struct DateRange {
    pub start: Timestamp,
    pub end: Timestamp,
}

/// The view of a built query list: each pair as its character sequences.
pub open spec fn qs_view(q: Seq<(String, String)>) -> Seq<(Seq<char>, Seq<char>)> {
    q.map_values(|p: (String, String)| (p.0@, p.1@))
}

/// The two window parameters, in their fixed order.
pub open spec fn spec_window_params(d: DateRange) -> Seq<(Seq<char>, Seq<char>)> {
    seq![("start_date"@, spec_api_format(d.start)), ("end_date"@, spec_api_format(d.end))]
}

impl DateRange {
    /// Both bounds are in-range UTC instants.
    pub open spec fn valid(self) -> bool {
        &&& self.start.valid()
        &&& self.end.valid()
        &&& self.start.is_utc()
        &&& self.end.is_utc()
    }

    /// Encodes the window as exactly the two parameters `start_date` and
    /// `end_date`, in that order, each value in the outbound wire shape.
    pub fn to_query_string(&self) -> (r: Vec<(String, String)>)
        ensures
            qs_view(r@) == spec_window_params(*self),
    {
        let mut r: Vec<(String, String)> = Vec::new();
        r.push(("start_date".to_owned(), self.start.api_format()));
        r.push(("end_date".to_owned(), self.end.api_format()));
        proof {
            assert(qs_view(r@) =~= spec_window_params(*self));
        }
        r
    }
}

/// A valid window encodes to exactly two parameters, `start_date` then
/// `end_date`, each value 25 characters in the wire shape: the fixed
/// `+00:00` offset and two zero-padded digits for the seconds.
pub proof fn lemma_window_encoding(d: DateRange)
    requires
        d.valid(),
    ensures
        spec_window_params(d).len() == 2,
        spec_window_params(d)[0].0 == "start_date"@,
        spec_window_params(d)[1].0 == "end_date"@,
        spec_window_params(d)[0].1 == spec_api_format(d.start),
        spec_window_params(d)[1].1 == spec_api_format(d.end),
        spec_api_format(d.start).len() == 25,
        spec_api_format(d.end).len() == 25,
        spec_api_format(d.start).subrange(19, 25) == "+00:00"@,
        spec_api_format(d.end).subrange(19, 25) == "+00:00"@,
        spec_api_format(d.start).subrange(17, 19) == pad2(d.start.second),
        spec_api_format(d.end).subrange(17, 19) == pad2(d.end.second),
{
    lemma_api_format_shape(d.start);
    lemma_api_format_shape(d.end);
}

} // verus!
