//! The timestamp wire format.
//!
//! The panel writes timestamps as `YYYY-MM-DDTHH:MM:SS`, optionally followed
//! by a dot and one to nine fractional-second digits. This module owns that
//! grammar: a plain calendar type, an exact parser, the canonical renderer,
//! and the proof that rendering and parsing round-trip.

use vstd::prelude::*;

use crate::text::{
    append_fixed_dec, lemma_fixed_dec_len, lemma_num_of_fixed_dec, lemma_pow10_positive,
    spec_digits_num, spec_fixed_dec, spec_is_digit, spec_pow10,
};

verus! {

/// A UTC timestamp as plain calendar fields. The wire format carries no
/// offset; values are UTC by the panel's convention.
#[derive(Clone, Copy, PartialEq, Eq, Structural, Debug)]
#[verifier::ext_equal]
pub struct DateTimeUtc {
    pub year: u16,
    pub month: u8,
    pub day: u8,
    pub hour: u8,
    pub minute: u8,
    pub second: u8,
    pub nanosecond: u32,
}

/// Gregorian leap-year rule.
pub open spec fn spec_is_leap_year(y: int) -> bool {
    (y % 4 == 0 && y % 100 != 0) || y % 400 == 0
}

/// Days in month `m` of year `y` (meaningful for 1 <= m <= 12).
pub open spec fn spec_days_in_month(y: int, m: int) -> int {
    if m == 2 {
        if spec_is_leap_year(y) {
            29
        } else {
            28
        }
    } else if m == 4 || m == 6 || m == 9 || m == 11 {
        30
    } else {
        31
    }
}

impl DateTimeUtc {
    /// The fields describe a real calendar instant with a four-digit year.
    pub open spec fn wf(self) -> bool {
        &&& self.year <= 9999
        &&& 1 <= self.month <= 12
        &&& 1 <= self.day <= spec_days_in_month(self.year as int, self.month as int)
        &&& self.hour <= 23
        &&& self.minute <= 59
        &&& self.second <= 59
        &&& self.nanosecond < 1000000000
    }

    /// Run-time check of `wf`.
    pub fn validate(&self) -> (b: bool)
        ensures
            b == self.wf(),
    {
        let leap = (self.year % 4 == 0 && self.year % 100 != 0) || self.year % 400 == 0;
        let days: u8 = if self.month == 2 {
            if leap {
                29
            } else {
                28
            }
        } else if self.month == 4 || self.month == 6 || self.month == 9 || self.month == 11 {
            30
        } else {
            31
        };
        self.year <= 9999 && 1 <= self.month && self.month <= 12 && 1 <= self.day && self.day
            <= days && self.hour <= 23 && self.minute <= 59 && self.second <= 59 && self.nanosecond
            < 1000000000
    }
}

/// A well-formed fractional part: a dot at index 19 followed by one to nine
/// digits that end the string.
pub open spec fn spec_frac_ok(s: Seq<char>) -> bool {
    &&& 21 <= s.len() <= 29
    &&& s[19] == '.'
    &&& forall|i: int| 20 <= i < s.len() ==> spec_is_digit(s[i])
}

/// The fixed positions of `YYYY-MM-DDTHH:MM:SS`, with an optional fraction.
pub open spec fn spec_datetime_shape(s: Seq<char>) -> bool {
    &&& s.len() == 19 || spec_frac_ok(s)
    &&& s.len() >= 19
    &&& spec_is_digit(s[0]) && spec_is_digit(s[1]) && spec_is_digit(s[2]) && spec_is_digit(s[3])
    &&& s[4] == '-'
    &&& spec_is_digit(s[5]) && spec_is_digit(s[6])
    &&& s[7] == '-'
    &&& spec_is_digit(s[8]) && spec_is_digit(s[9])
    &&& s[10] == 'T'
    &&& spec_is_digit(s[11]) && spec_is_digit(s[12])
    &&& s[13] == ':'
    &&& spec_is_digit(s[14]) && spec_is_digit(s[15])
    &&& s[16] == ':'
    &&& spec_is_digit(s[17]) && spec_is_digit(s[18])
}

/// The nanosecond count encoded by the fractional digits: `k` digits stand
/// for their value times ten to the `9 - k`.
pub open spec fn spec_frac_nanos(s: Seq<char>) -> int {
    if s.len() == 19 {
        0
    } else {
        spec_digits_num(s, 20, s.len() as int) * spec_pow10((29 - s.len()) as nat)
    }
}

/// The calendar fields read from a string of the right shape.
pub open spec fn spec_fields_of(s: Seq<char>) -> DateTimeUtc {
    DateTimeUtc {
        year: spec_digits_num(s, 0, 4) as u16,
        month: spec_digits_num(s, 5, 7) as u8,
        day: spec_digits_num(s, 8, 10) as u8,
        hour: spec_digits_num(s, 11, 13) as u8,
        minute: spec_digits_num(s, 14, 16) as u8,
        second: spec_digits_num(s, 17, 19) as u8,
        nanosecond: spec_frac_nanos(s) as u32,
    }
}

/// What parsing returns: the fields, exactly when the string has the right
/// shape and the fields form a real calendar instant.
pub open spec fn spec_parse_datetime(s: Seq<char>) -> Option<DateTimeUtc> {
    if spec_datetime_shape(s) && spec_fields_of(s).wf() {
        Some(spec_fields_of(s))
    } else {
        None
    }
}

/// The canonical rendering: always four-digit year and two-digit fields; the
/// fraction appears, nine digits wide, exactly when the nanosecond count is
/// not zero.
pub open spec fn spec_format_datetime(dt: DateTimeUtc) -> Seq<char> {
    spec_fixed_dec(dt.year as int, 4) + seq!['-'] + spec_fixed_dec(dt.month as int, 2) + seq!['-']
        + spec_fixed_dec(dt.day as int, 2) + seq!['T'] + spec_fixed_dec(dt.hour as int, 2)
        + seq![':'] + spec_fixed_dec(dt.minute as int, 2) + seq![':'] + spec_fixed_dec(
        dt.second as int,
        2,
    ) + (if dt.nanosecond == 0 {
        Seq::<char>::empty()
    } else {
        seq!['.'] + spec_fixed_dec(dt.nanosecond as int, 9)
    })
}

/// Ten to the power `k`, for scaling fractional digits.
fn pow10_u32(k: usize) -> (r: u32)
    requires
        k <= 9,
    ensures
        r as int == spec_pow10(k as nat),
{
    proof {
        reveal_with_fuel(spec_pow10, 11);
    }
    if k == 0 {
        1
    } else if k == 1 {
        10
    } else if k == 2 {
        100
    } else if k == 3 {
        1000
    } else if k == 4 {
        10000
    } else if k == 5 {
        100000
    } else if k == 6 {
        1000000
    } else if k == 7 {
        10000000
    } else if k == 8 {
        100000000
    } else {
        1000000000
    }
}

/// Read the digits `s[i..j]` as a number: their value when all are digits,
/// nothing when one is not.
fn read_num(s: &str, i: usize, j: usize) -> (r: Option<u32>)
    requires
        i <= j,
        j <= s@.len(),
        j - i <= 9,
    ensures
        (match r {
            Some(v) => (forall|k: int| i <= k < j ==> spec_is_digit(s@[k])) && v as int
                == spec_digits_num(s@, i as int, j as int),
            None => exists|k: int| i <= k < j && !spec_is_digit(s@[k]),
        }),
{
    proof {
        reveal_with_fuel(spec_pow10, 11);
    }
    let mut val: u32 = 0;
    let mut k: usize = i;
    while k < j
        invariant
            i <= k <= j,
            j <= s@.len(),
            j - i <= 9,
            forall|t: int| i <= t < k ==> spec_is_digit(s@[t]),
            val as int == spec_digits_num(s@, i as int, k as int),
            (val as int) < spec_pow10((k - i) as nat),
            spec_pow10(9) == 1000000000,
        decreases j - k,
    {
        let c = s.get_char(k);
        let v = c as u32;
        if v < 48 || v > 57 {
            return None;
        }
        proof {
            assert(spec_pow10(((k - i) + 1) as nat) == 10 * spec_pow10((k - i) as nat));
            lemma_pow10_mono((k - i) as nat, 8);
        }
        val = val * 10 + (v - 48);
        k = k + 1;
    }
    Some(val)
}

proof fn lemma_pow10_mono(a: nat, b: nat)
    requires
        a <= b,
    ensures
        spec_pow10(a) <= spec_pow10(b),
    decreases b,
{
    if a < b {
        lemma_pow10_mono(a, (b - 1) as nat);
        lemma_pow10_positive((b - 1) as nat);
    }
}

/// Parse the wire format; `None` exactly on strings that do not match the
/// grammar or name no real calendar instant.
pub fn parse_datetime(s: &str) -> (r: Option<DateTimeUtc>)
    ensures
        r == spec_parse_datetime(s@),
{
    let n = s.unicode_len();
    if n < 19 || n == 20 || n > 29 {
        return None;
    }
    if s.get_char(4) != '-' || s.get_char(7) != '-' || s.get_char(10) != 'T' || s.get_char(13)
        != ':' || s.get_char(16) != ':' {
        return None;
    }
    if n > 19 && s.get_char(19) != '.' {
        return None;
    }
    let year = match read_num(s, 0, 4) {
        Some(v) => v,
        None => {
            return None;
        },
    };
    let month = match read_num(s, 5, 7) {
        Some(v) => v,
        None => {
            return None;
        },
    };
    let day = match read_num(s, 8, 10) {
        Some(v) => v,
        None => {
            return None;
        },
    };
    let hour = match read_num(s, 11, 13) {
        Some(v) => v,
        None => {
            return None;
        },
    };
    let minute = match read_num(s, 14, 16) {
        Some(v) => v,
        None => {
            return None;
        },
    };
    let second = match read_num(s, 17, 19) {
        Some(v) => v,
        None => {
            return None;
        },
    };
    let nanosecond: u32 = if n == 19 {
        0
    } else {
        let digits = match read_num(s, 20, n) {
            Some(v) => v,
            None => {
                return None;
            },
        };
        let scale = pow10_u32(9 - (n - 20));
        proof {
            lemma_read_bound(s@, 20, n as int);
            lemma_pow10_add((n - 20) as nat, (29 - n) as nat);
            lemma_pow10_positive((29 - n) as nat);
            assert(digits * scale < spec_pow10(9)) by (nonlinear_arith)
                requires
                    0 <= digits as int,
                    (digits as int) < spec_pow10((n - 20) as nat),
                    scale as int == spec_pow10((29 - n) as nat),
                    scale as int >= 1,
                    spec_pow10((n - 20) as nat) * spec_pow10((29 - n) as nat) == spec_pow10(9),
            ;
            reveal_with_fuel(spec_pow10, 11);
        }
        digits * scale
    };
    let dt = DateTimeUtc {
        year: year as u16,
        month: month as u8,
        day: day as u8,
        hour: hour as u8,
        minute: minute as u8,
        second: second as u8,
        nanosecond,
    };
    proof {
        assert(spec_datetime_shape(s@));
        lemma_read_bound(s@, 0, 4);
        lemma_read_bound(s@, 5, 7);
        lemma_read_bound(s@, 8, 10);
        lemma_read_bound(s@, 11, 13);
        lemma_read_bound(s@, 14, 16);
        lemma_read_bound(s@, 17, 19);
        reveal_with_fuel(spec_pow10, 11);
        assert(spec_fields_of(s@) =~= dt);
    }
    if dt.validate() {
        Some(dt)
    } else {
        None
    }
}

/// The value of a digit range is below ten to its width.
proof fn lemma_read_bound(s: Seq<char>, i: int, j: int)
    requires
        0 <= i <= j <= s.len(),
        forall|k: int| i <= k < j ==> spec_is_digit(s[k]),
    ensures
        0 <= spec_digits_num(s, i, j) < spec_pow10((j - i) as nat),
    decreases j - i,
{
    if j > i {
        lemma_read_bound(s, i, j - 1);
        assert(spec_pow10((j - i) as nat) == 10 * spec_pow10((j - 1 - i) as nat));
    }
}

proof fn lemma_pow10_add(a: nat, b: nat)
    ensures
        spec_pow10(a) * spec_pow10(b) == spec_pow10(a + b),
    decreases a,
{
    if a > 0 {
        lemma_pow10_add((a - 1) as nat, b);
        assert(spec_pow10(a) * spec_pow10(b) == 10 * (spec_pow10((a - 1) as nat) * spec_pow10(b)))
            by (nonlinear_arith)
            requires
                spec_pow10(a) == 10 * spec_pow10((a - 1) as nat),
        ;
    }
}

/// Render the canonical wire text of `dt`.
pub fn format_datetime(dt: &DateTimeUtc) -> (s: String)
    ensures
        s@ == spec_format_datetime(*dt),
{
    proof {
        reveal_strlit("-");
        reveal_strlit("T");
        reveal_strlit(":");
        reveal_strlit(".");
        assert("-"@ =~= seq!['-']);
        assert("T"@ =~= seq!['T']);
        assert(":"@ =~= seq![':']);
        assert("."@ =~= seq!['.']);
    }
    let mut s = String::new();
    append_fixed_dec(&mut s, dt.year as u64, 4);
    s.append("-");
    append_fixed_dec(&mut s, dt.month as u64, 2);
    s.append("-");
    append_fixed_dec(&mut s, dt.day as u64, 2);
    s.append("T");
    append_fixed_dec(&mut s, dt.hour as u64, 2);
    s.append(":");
    append_fixed_dec(&mut s, dt.minute as u64, 2);
    s.append(":");
    append_fixed_dec(&mut s, dt.second as u64, 2);
    if dt.nanosecond != 0 {
        s.append(".");
        append_fixed_dec(&mut s, dt.nanosecond as u64, 9);
    }
    proof {
        assert(s@ =~= spec_format_datetime(*dt));
    }
    s
}

/// Rendering then parsing gives back the same instant: the canonical text of
/// a well-formed timestamp names exactly that timestamp.
pub proof fn lemma_format_parse_round_trip(dt: DateTimeUtc)
    requires
        dt.wf(),
    ensures
        spec_parse_datetime(spec_format_datetime(dt)) == Some(dt),
{
    let s = spec_format_datetime(dt);
    reveal_with_fuel(spec_pow10, 11);
    lemma_fixed_dec_len(dt.year as int, 4);
    lemma_fixed_dec_len(dt.month as int, 2);
    lemma_fixed_dec_len(dt.day as int, 2);
    lemma_fixed_dec_len(dt.hour as int, 2);
    lemma_fixed_dec_len(dt.minute as int, 2);
    lemma_fixed_dec_len(dt.second as int, 2);
    lemma_fixed_dec_len(dt.nanosecond as int, 9);
    assert(s.subrange(0, 4) =~= spec_fixed_dec(dt.year as int, 4));
    assert(s.subrange(5, 7) =~= spec_fixed_dec(dt.month as int, 2));
    assert(s.subrange(8, 10) =~= spec_fixed_dec(dt.day as int, 2));
    assert(s.subrange(11, 13) =~= spec_fixed_dec(dt.hour as int, 2));
    assert(s.subrange(14, 16) =~= spec_fixed_dec(dt.minute as int, 2));
    assert(s.subrange(17, 19) =~= spec_fixed_dec(dt.second as int, 2));
    lemma_num_of_fixed_dec(s, 0, dt.year as int, 4);
    lemma_num_of_fixed_dec(s, 5, dt.month as int, 2);
    lemma_num_of_fixed_dec(s, 8, dt.day as int, 2);
    lemma_num_of_fixed_dec(s, 11, dt.hour as int, 2);
    lemma_num_of_fixed_dec(s, 14, dt.minute as int, 2);
    lemma_num_of_fixed_dec(s, 17, dt.second as int, 2);
    if dt.nanosecond == 0 {
        assert(s.len() == 19);
        assert(spec_frac_nanos(s) == 0);
    } else {
        assert(s.len() == 29);
        assert(s[19] == '.');
        assert(s.subrange(20, 29) =~= spec_fixed_dec(dt.nanosecond as int, 9));
        lemma_num_of_fixed_dec(s, 20, dt.nanosecond as int, 9);
        assert(spec_frac_nanos(s) == spec_digits_num(s, 20, 29) * spec_pow10(0));
    }
    assert(spec_datetime_shape(s));
    assert(spec_fields_of(s).year == dt.year);
    assert(spec_fields_of(s).month == dt.month);
    assert(spec_fields_of(s).day == dt.day);
    assert(spec_fields_of(s).hour == dt.hour);
    assert(spec_fields_of(s).minute == dt.minute);
    assert(spec_fields_of(s).second == dt.second);
    assert(spec_fields_of(s).nanosecond == dt.nanosecond);
    assert(spec_fields_of(s) =~= dt);
}

/// Parse an optional wire timestamp as the response decoder needs it: an
/// absent or empty string is a present "no value"; a malformed non-empty
/// string is a failure (outer `None`).
pub fn parse_some_datetime(opt: Option<&str>) -> (r: Option<Option<DateTimeUtc>>)
    ensures
        (match opt {
            None => r == Some(None::<DateTimeUtc>),
            Some(s) => {
                if s@.len() == 0 {
                    r == Some(None::<DateTimeUtc>)
                } else {
                    match spec_parse_datetime(s@) {
                        Some(dt) => r == Some(Some(dt)),
                        None => r is None,
                    }
                }
            },
        }),
{
    match opt {
        None => Some(None),
        Some(s) => {
            if s.unicode_len() == 0 {
                Some(None)
            } else {
                match parse_datetime(s) {
                    Some(dt) => Some(Some(dt)),
                    None => None,
                }
            }
        },
    }
}

} // verus!
