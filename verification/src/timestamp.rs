//! Normalization of the textual validity timestamps read from a TLS
//! certificate, rendered as `"<Mon> <DD> <HH>:<MM>:<SS> <YYYY> GMT"`
//! (for example `"Dec 19 23:59:59 2025 GMT"`), into a UTC calendar instant.

use vstd::prelude::*;

verus! {

/// A calendar instant in UTC, second precision, as read from a
/// certificate's validity window.
#[derive(Clone, Copy, Debug, PartialEq, Eq, Structural)]
pub struct UtcInstant {
    pub year: u32,
    pub month: u32,
    pub day: u32,
    pub hour: u32,
    pub minute: u32,
    pub second: u32,
}

/// The timestamp string did not have the expected shape, or did not
/// denote a real calendar date and time.
#[derive(Clone, Copy, Debug, PartialEq, Eq, Structural)]
pub struct TimestampFormatError;

pub open spec fn is_leap_year(y: int) -> bool {
    y % 4 == 0 && (y % 100 != 0 || y % 400 == 0)
}

pub open spec fn days_in_month(y: int, m: int) -> int {
    if m == 2 {
        if is_leap_year(y) { 29 } else { 28 }
    } else if m == 4 || m == 6 || m == 9 || m == 11 {
        30
    } else {
        31
    }
}

impl UtcInstant {
    /// A well-formed instant: a real calendar date with in-range time fields.
    pub open spec fn wf(self) -> bool {
        &&& self.year <= 9999
        &&& 1 <= self.month <= 12
        &&& 1 <= self.day <= days_in_month(self.year as int, self.month as int)
        &&& self.hour <= 23
        &&& self.minute <= 59
        &&& self.second <= 59
    }

    /// Strict chronological order, by field significance.
    pub open spec fn lt(self, other: UtcInstant) -> bool {
        if self.year != other.year { self.year < other.year }
        else if self.month != other.month { self.month < other.month }
        else if self.day != other.day { self.day < other.day }
        else if self.hour != other.hour { self.hour < other.hour }
        else if self.minute != other.minute { self.minute < other.minute }
        else { self.second < other.second }
    }
}

impl UtcInstant {
    /// Whether this instant is well-formed, decided at run time, for
    /// values that arrive from outside the library.
    pub fn is_wf(&self) -> (b: bool)
        ensures
            b == self.wf(),
    {
        self.year <= 9999
            && 1 <= self.month && self.month <= 12
            && 1 <= self.day && self.day <= month_length(self.year, self.month)
            && self.hour <= 23
            && self.minute <= 59
            && self.second <= 59
    }
}

/// Chronological comparison of two instants.
pub fn instant_before(a: &UtcInstant, b: &UtcInstant) -> (r: bool)
    ensures
        r == a.lt(*b),
{
    if a.year != b.year { a.year < b.year }
    else if a.month != b.month { a.month < b.month }
    else if a.day != b.day { a.day < b.day }
    else if a.hour != b.hour { a.hour < b.hour }
    else if a.minute != b.minute { a.minute < b.minute }
    else { a.second < b.second }
}

pub open spec fn is_digit(c: u8) -> bool {
    48 <= c <= 57
}

pub open spec fn digit_val(c: u8) -> int {
    c as int - 48
}

/// The byte for a decimal digit value.
pub open spec fn dchar(v: int) -> u8 {
    (48 + v) as u8
}

/// The month number (1 to 12) denoted by a three-letter English
/// abbreviation, or 0 when the three bytes are no such abbreviation.
pub open spec fn month_num(a: u8, b: u8, c: u8) -> int {
    if a == 74 && b == 97 && c == 110 { 1 }        // Jan
    else if a == 70 && b == 101 && c == 98 { 2 }   // Feb
    else if a == 77 && b == 97 && c == 114 { 3 }   // Mar
    else if a == 65 && b == 112 && c == 114 { 4 }  // Apr
    else if a == 77 && b == 97 && c == 121 { 5 }   // May
    else if a == 74 && b == 117 && c == 110 { 6 }  // Jun
    else if a == 74 && b == 117 && c == 108 { 7 }  // Jul
    else if a == 65 && b == 117 && c == 103 { 8 }  // Aug
    else if a == 83 && b == 101 && c == 112 { 9 }  // Sep
    else if a == 79 && b == 99 && c == 116 { 10 }  // Oct
    else if a == 78 && b == 111 && c == 118 { 11 } // Nov
    else if a == 68 && b == 101 && c == 99 { 12 }  // Dec
    else { 0 }
}

/// The fixed 24-byte layout: month abbreviation, day (space- or
/// zero-padded to two bytes), `HH:MM:SS`, four-digit year, and the
/// trailing `GMT` token, separated by single spaces.
pub open spec fn ts_shape(s: Seq<u8>) -> bool {
    &&& s.len() == 24
    &&& month_num(s[0], s[1], s[2]) >= 1
    &&& s[3] == 32
    &&& (s[4] == 32 || is_digit(s[4]))
    &&& is_digit(s[5])
    &&& s[6] == 32
    &&& is_digit(s[7]) && is_digit(s[8])
    &&& s[9] == 58
    &&& is_digit(s[10]) && is_digit(s[11])
    &&& s[12] == 58
    &&& is_digit(s[13]) && is_digit(s[14])
    &&& s[15] == 32
    &&& is_digit(s[16]) && is_digit(s[17]) && is_digit(s[18]) && is_digit(s[19])
    &&& s[20] == 32
    &&& s[21] == 71 && s[22] == 77 && s[23] == 84
}

pub open spec fn ts_day(s: Seq<u8>) -> int {
    (if s[4] == 32 { 0 } else { digit_val(s[4]) * 10 }) + digit_val(s[5])
}

pub open spec fn ts_year(s: Seq<u8>) -> int {
    digit_val(s[16]) * 1000 + digit_val(s[17]) * 100 + digit_val(s[18]) * 10 + digit_val(s[19])
}

/// The instant that a string of the expected shape denotes.
pub open spec fn ts_instant(s: Seq<u8>) -> UtcInstant {
    UtcInstant {
        year: ts_year(s) as u32,
        month: month_num(s[0], s[1], s[2]) as u32,
        day: ts_day(s) as u32,
        hour: (digit_val(s[7]) * 10 + digit_val(s[8])) as u32,
        minute: (digit_val(s[10]) * 10 + digit_val(s[11])) as u32,
        second: (digit_val(s[13]) * 10 + digit_val(s[14])) as u32,
    }
}

/// A valid timestamp string: the expected shape, denoting a real
/// calendar date and in-range time fields.
pub open spec fn ts_valid(s: Seq<u8>) -> bool {
    ts_shape(s) && ts_instant(s).wf()
}

/// First byte of the abbreviation of month `m` (1 to 12).
pub open spec fn month_c0(m: int) -> u8 {
    if m == 1 || m == 6 || m == 7 { 74 }
    else if m == 2 { 70 }
    else if m == 3 || m == 5 { 77 }
    else if m == 4 || m == 8 { 65 }
    else if m == 9 { 83 }
    else if m == 10 { 79 }
    else if m == 11 { 78 }
    else { 68 }
}

/// Second byte of the abbreviation of month `m` (1 to 12).
pub open spec fn month_c1(m: int) -> u8 {
    if m == 1 || m == 3 || m == 5 { 97 }
    else if m == 2 || m == 9 || m == 12 { 101 }
    else if m == 4 { 112 }
    else if m == 6 || m == 7 || m == 8 { 117 }
    else if m == 10 { 99 }
    else { 111 }
}

/// Third byte of the abbreviation of month `m` (1 to 12).
pub open spec fn month_c2(m: int) -> u8 {
    if m == 1 || m == 6 { 110 }
    else if m == 2 { 98 }
    else if m == 3 || m == 4 { 114 }
    else if m == 5 { 121 }
    else if m == 7 { 108 }
    else if m == 8 { 103 }
    else if m == 9 { 112 }
    else if m == 10 { 116 }
    else if m == 11 { 118 }
    else { 99 }
}

/// The byte at position `i` of the canonical GMT rendering of `t`.
pub open spec fn render_byte(t: UtcInstant, i: int) -> u8 {
    if i == 0 { month_c0(t.month as int) }
    else if i == 1 { month_c1(t.month as int) }
    else if i == 2 { month_c2(t.month as int) }
    else if i == 4 { dchar(t.day as int / 10) }
    else if i == 5 { dchar(t.day as int % 10) }
    else if i == 7 { dchar(t.hour as int / 10) }
    else if i == 8 { dchar(t.hour as int % 10) }
    else if i == 9 || i == 12 { 58 }
    else if i == 10 { dchar(t.minute as int / 10) }
    else if i == 11 { dchar(t.minute as int % 10) }
    else if i == 13 { dchar(t.second as int / 10) }
    else if i == 14 { dchar(t.second as int % 10) }
    else if i == 16 { dchar(t.year as int / 1000) }
    else if i == 17 { dchar((t.year as int / 100) % 10) }
    else if i == 18 { dchar((t.year as int / 10) % 10) }
    else if i == 19 { dchar(t.year as int % 10) }
    else if i == 21 { 71 }
    else if i == 22 { 77 }
    else if i == 23 { 84 }
    else { 32 }
}

/// The canonical rendering of an instant in the
/// `"<Mon> <DD> <HH>:<MM>:<SS> <YYYY> GMT"` form, with zero-padded fields.
pub open spec fn render_gmt(t: UtcInstant) -> Seq<u8> {
    Seq::new(24, |i: int| render_byte(t, i))
}

/// The three abbreviation bytes of a real month denote that month.
proof fn lemma_month_abbrev(m: int)
    requires
        1 <= m <= 12,
    ensures
        month_num(month_c0(m), month_c1(m), month_c2(m)) == m,
{
}

/// A digit value's byte is a digit byte and denotes that value.
proof fn lemma_dchar(v: int)
    requires
        0 <= v <= 9,
    ensures
        is_digit(dchar(v)),
        digit_val(dchar(v)) == v,
{
}

/// Round trip: any well-formed instant, rendered in the GMT form, is
/// accepted by normalization and denotes exactly that instant.
pub proof fn lemma_render_round_trip(t: UtcInstant)
    requires
        t.wf(),
    ensures
        ts_valid(render_gmt(t)),
        ts_instant(render_gmt(t)) == t,
{
    let s = render_gmt(t);
    let m = t.month as int;
    let d = t.day as int;
    let h = t.hour as int;
    let mi = t.minute as int;
    let sec = t.second as int;
    let y = t.year as int;
    lemma_month_abbrev(m);
    lemma_dchar(d / 10);
    lemma_dchar(d % 10);
    lemma_dchar(h / 10);
    lemma_dchar(h % 10);
    lemma_dchar(mi / 10);
    lemma_dchar(mi % 10);
    lemma_dchar(sec / 10);
    lemma_dchar(sec % 10);
    lemma_dchar(y / 1000);
    lemma_dchar((y / 100) % 10);
    lemma_dchar((y / 10) % 10);
    lemma_dchar(y % 10);
    assert(ts_shape(s)) by {
        assert(s[0] == month_c0(m) && s[1] == month_c1(m) && s[2] == month_c2(m));
    }
    assert(ts_day(s) == d) by {
        assert(s[4] == dchar(d / 10) && s[5] == dchar(d % 10));
        assert(d / 10 > 0 ==> dchar(d / 10) != 32);
        assert(d / 10 == 0 ==> digit_val(s[4]) * 10 == 0);
    }
    assert(ts_year(s) == y) by {
        assert(s[16] == dchar(y / 1000) && s[17] == dchar((y / 100) % 10)
            && s[18] == dchar((y / 10) % 10) && s[19] == dchar(y % 10));
        assert((y / 1000) * 1000 + ((y / 100) % 10) * 100 + ((y / 10) % 10) * 10 + y % 10 == y)
            by (nonlinear_arith)
            requires 0 <= y <= 9999;
    }
    assert(digit_val(s[7]) * 10 + digit_val(s[8]) == h);
    assert(digit_val(s[10]) * 10 + digit_val(s[11]) == mi);
    assert(digit_val(s[13]) * 10 + digit_val(s[14]) == sec);
    assert(ts_instant(s) == t);
}

/// The byte at position `i` of the ISO-8601 rendering of `t`.
pub open spec fn iso_byte(t: UtcInstant, i: int) -> u8 {
    if i == 0 { dchar(t.year as int / 1000) }
    else if i == 1 { dchar((t.year as int / 100) % 10) }
    else if i == 2 { dchar((t.year as int / 10) % 10) }
    else if i == 3 { dchar(t.year as int % 10) }
    else if i == 4 || i == 7 { 45 }
    else if i == 5 { dchar(t.month as int / 10) }
    else if i == 6 { dchar(t.month as int % 10) }
    else if i == 8 { dchar(t.day as int / 10) }
    else if i == 9 { dchar(t.day as int % 10) }
    else if i == 10 { 84 }
    else if i == 11 { dchar(t.hour as int / 10) }
    else if i == 12 { dchar(t.hour as int % 10) }
    else if i == 13 || i == 16 { 58 }
    else if i == 14 { dchar(t.minute as int / 10) }
    else if i == 15 { dchar(t.minute as int % 10) }
    else if i == 17 { dchar(t.second as int / 10) }
    else if i == 18 { dchar(t.second as int % 10) }
    else { 90 }
}

/// The ISO-8601 rendering of an instant, `"YYYY-MM-DDTHH:MM:SSZ"`,
/// as the query surface reports validity bounds.
pub open spec fn iso8601(t: UtcInstant) -> Seq<u8> {
    Seq::new(20, |i: int| iso_byte(t, i))
}

/// Renders an instant as `"YYYY-MM-DDTHH:MM:SSZ"`, the form in which
/// the query surface reports validity bounds.
pub fn to_iso8601(t: &UtcInstant) -> (out: Vec<u8>)
    requires
        t.wf(),
    ensures
        out@ == iso8601(*t),
{
    let mut out: Vec<u8> = Vec::new();
    out.push((t.year / 1000) as u8 + 48);
    out.push(((t.year / 100) % 10) as u8 + 48);
    out.push(((t.year / 10) % 10) as u8 + 48);
    out.push((t.year % 10) as u8 + 48);
    out.push(45);
    out.push((t.month / 10) as u8 + 48);
    out.push((t.month % 10) as u8 + 48);
    out.push(45);
    out.push((t.day / 10) as u8 + 48);
    out.push((t.day % 10) as u8 + 48);
    out.push(84);
    out.push((t.hour / 10) as u8 + 48);
    out.push((t.hour % 10) as u8 + 48);
    out.push(58);
    out.push((t.minute / 10) as u8 + 48);
    out.push((t.minute % 10) as u8 + 48);
    out.push(58);
    out.push((t.second / 10) as u8 + 48);
    out.push((t.second % 10) as u8 + 48);
    out.push(90);
    proof {
        assert(out@ =~= iso8601(*t));
    }
    out
}

/// The month number denoted by three bytes, 0 when they are no
/// month abbreviation.
fn month_of(a: u8, b: u8, c: u8) -> (m: u32)
    ensures
        m == month_num(a, b, c),
{
    if a == 74 && b == 97 && c == 110 { 1 }
    else if a == 70 && b == 101 && c == 98 { 2 }
    else if a == 77 && b == 97 && c == 114 { 3 }
    else if a == 65 && b == 112 && c == 114 { 4 }
    else if a == 77 && b == 97 && c == 121 { 5 }
    else if a == 74 && b == 117 && c == 110 { 6 }
    else if a == 74 && b == 117 && c == 108 { 7 }
    else if a == 65 && b == 117 && c == 103 { 8 }
    else if a == 83 && b == 101 && c == 112 { 9 }
    else if a == 79 && b == 99 && c == 116 { 10 }
    else if a == 78 && b == 111 && c == 118 { 11 }
    else if a == 68 && b == 101 && c == 99 { 12 }
    else { 0 }
}

/// The number of days in a month of a given year, leap years included.
pub fn month_length(year: u32, month: u32) -> (d: u32)
    ensures
        d == days_in_month(year as int, month as int),
{
    if month == 2 {
        if year % 4 == 0 && (year % 100 != 0 || year % 400 == 0) { 29 } else { 28 }
    } else if month == 4 || month == 6 || month == 9 || month == 11 {
        30
    } else {
        31
    }
}

/// Converts the certificate library's textual rendering of a validity
/// timestamp into the UTC instant it denotes.
///
/// Succeeds exactly on strings of the form
/// `"<Mon> <DD> <HH>:<MM>:<SS> <YYYY> GMT"` whose fields denote a real
/// calendar date and time; the day may be space- or zero-padded. Any
/// other trailing token than `GMT`, and any other deviation from that
/// shape, is a format error.
pub fn normalize(raw: &[u8]) -> (r: Result<UtcInstant, TimestampFormatError>)
    ensures
        r is Ok <==> ts_valid(raw@),
        r matches Ok(t) ==> t == ts_instant(raw@) && t.wf(),
{
    if raw.len() != 24 {
        return Err(TimestampFormatError);
    }
    let month = month_of(raw[0], raw[1], raw[2]);
    if month == 0 {
        return Err(TimestampFormatError);
    }
    if raw[3] != 32 || raw[6] != 32 || raw[9] != 58 || raw[12] != 58 || raw[15] != 32
        || raw[20] != 32 || raw[21] != 71 || raw[22] != 77 || raw[23] != 84 {
        return Err(TimestampFormatError);
    }
    if !(raw[4] == 32 || (48 <= raw[4] && raw[4] <= 57)) {
        return Err(TimestampFormatError);
    }
    if !(48 <= raw[5] && raw[5] <= 57)
        || !(48 <= raw[7] && raw[7] <= 57) || !(48 <= raw[8] && raw[8] <= 57)
        || !(48 <= raw[10] && raw[10] <= 57) || !(48 <= raw[11] && raw[11] <= 57)
        || !(48 <= raw[13] && raw[13] <= 57) || !(48 <= raw[14] && raw[14] <= 57)
        || !(48 <= raw[16] && raw[16] <= 57) || !(48 <= raw[17] && raw[17] <= 57)
        || !(48 <= raw[18] && raw[18] <= 57) || !(48 <= raw[19] && raw[19] <= 57) {
        return Err(TimestampFormatError);
    }
    let day_tens: u32 = if raw[4] == 32 { 0 } else { (raw[4] - 48) as u32 };
    let day: u32 = day_tens * 10 + (raw[5] - 48) as u32;
    let hour: u32 = (raw[7] - 48) as u32 * 10 + (raw[8] - 48) as u32;
    let minute: u32 = (raw[10] - 48) as u32 * 10 + (raw[11] - 48) as u32;
    let second: u32 = (raw[13] - 48) as u32 * 10 + (raw[14] - 48) as u32;
    let year: u32 = (raw[16] - 48) as u32 * 1000 + (raw[17] - 48) as u32 * 100
        + (raw[18] - 48) as u32 * 10 + (raw[19] - 48) as u32;
    let t = UtcInstant { year, month, day, hour, minute, second };
    if day < 1 || day > month_length(year, month) || hour > 23 || minute > 59 || second > 59 {
        return Err(TimestampFormatError);
    }
    Ok(t)
}

} // verus!
