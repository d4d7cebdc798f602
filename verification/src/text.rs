//! Decimal rendering of integers and shared string-view helpers.
//!
//! Query-parameter values and the timestamp wire format both need exact
//! decimal text; the spec functions here are the single definition the rest
//! of the crate's contracts speak of.

use vstd::prelude::*;

verus! {

/// The character for one decimal digit (meaningful for 0 through 9).
pub open spec fn spec_digit_char(d: int) -> char {
    if d == 0 {
        '0'
    } else if d == 1 {
        '1'
    } else if d == 2 {
        '2'
    } else if d == 3 {
        '3'
    } else if d == 4 {
        '4'
    } else if d == 5 {
        '5'
    } else if d == 6 {
        '6'
    } else if d == 7 {
        '7'
    } else if d == 8 {
        '8'
    } else {
        '9'
    }
}

/// Whether `c` is a decimal digit.
pub open spec fn spec_is_digit(c: char) -> bool {
    48 <= c as u32 && c as u32 <= 57
}

/// The numeric value of a digit character.
pub open spec fn spec_digit_val(c: char) -> int {
    c as u32 - 48
}

pub proof fn lemma_digit_char_val(d: int)
    requires
        0 <= d <= 9,
    ensures
        spec_is_digit(spec_digit_char(d)),
        spec_digit_val(spec_digit_char(d)) == d,
{
}

/// Decimal rendering of a non-negative integer, most significant digit first,
/// without leading zeroes (`0` renders as "0").
pub open spec fn spec_udec(n: int) -> Seq<char>
    decreases n,
{
    if n < 10 {
        seq![spec_digit_char(n)]
    } else {
        spec_udec(n / 10) + seq![spec_digit_char(n % 10)]
    }
}

/// Decimal rendering of a signed integer: a minus sign for negative values,
/// then the magnitude.
pub open spec fn spec_idec(n: int) -> Seq<char> {
    if n < 0 {
        seq!['-'] + spec_udec(-n)
    } else {
        spec_udec(n)
    }
}

/// Fixed-width decimal rendering with leading zeroes: the low `w` digits of
/// `n`, most significant first.
pub open spec fn spec_fixed_dec(n: int, w: nat) -> Seq<char>
    decreases w,
{
    if w == 0 {
        Seq::empty()
    } else {
        spec_fixed_dec(n / 10, (w - 1) as nat) + seq![spec_digit_char(n % 10)]
    }
}

/// Ten to the power `k`.
pub open spec fn spec_pow10(k: nat) -> int
    decreases k,
{
    if k == 0 {
        1
    } else {
        10 * spec_pow10((k - 1) as nat)
    }
}

/// The number read from the digit characters `s[i..j]`, most significant
/// first (0 when the range is empty).
pub open spec fn spec_digits_num(s: Seq<char>, i: int, j: int) -> int
    decreases j - i,
{
    if j <= i {
        0
    } else {
        spec_digits_num(s, i, j - 1) * 10 + spec_digit_val(s[j - 1])
    }
}

pub proof fn lemma_fixed_dec_len(n: int, w: nat)
    ensures
        spec_fixed_dec(n, w).len() == w,
    decreases w,
{
    if w > 0 {
        lemma_fixed_dec_len(n / 10, (w - 1) as nat);
    }
}

pub proof fn lemma_pow10_positive(k: nat)
    ensures
        spec_pow10(k) >= 1,
    decreases k,
{
    if k > 0 {
        lemma_pow10_positive((k - 1) as nat);
    }
}

/// Reading back a fixed-width rendering embedded in a larger string yields
/// the rendered number, and every rendered character is a digit.
pub proof fn lemma_num_of_fixed_dec(s: Seq<char>, p: int, n: int, w: nat)
    requires
        0 <= p,
        p + w <= s.len(),
        0 <= n < spec_pow10(w),
        s.subrange(p, p + w) == spec_fixed_dec(n, w),
    ensures
        spec_digits_num(s, p, p + w) == n,
        forall|i: int| p <= i < p + w ==> spec_is_digit(s[i]),
    decreases w,
{
    lemma_fixed_dec_len(n, w);
    if w == 0 {
    } else {
        let w1 = (w - 1) as nat;
        lemma_fixed_dec_len(n / 10, w1);
        assert(s.subrange(p, p + w1) =~= spec_fixed_dec(n, w).subrange(0, w1 as int));
        assert(spec_fixed_dec(n, w).subrange(0, w1 as int) =~= spec_fixed_dec(n / 10, w1));
        assert(n / 10 < spec_pow10(w1)) by {
            lemma_pow10_positive(w1);
            assert(spec_pow10(w) == 10 * spec_pow10(w1));
            assert(n < 10 * spec_pow10(w1));
            assert(n / 10 < spec_pow10(w1)) by (nonlinear_arith)
                requires
                    n >= 0,
                    spec_pow10(w1) >= 1,
                    n < 10 * spec_pow10(w1),
            ;
        }
        lemma_num_of_fixed_dec(s, p, n / 10, w1);
        assert(s[p + w - 1] == spec_fixed_dec(n, w)[w - 1]);
        assert(spec_fixed_dec(n, w)[w - 1] == spec_digit_char(n % 10));
        lemma_digit_char_val(n % 10);
        assert(spec_digits_num(s, p, p + w) == spec_digits_num(s, p, p + w - 1) * 10
            + spec_digit_val(s[p + w - 1]));
        assert(spec_digits_num(s, p, p + w) == (n / 10) * 10 + n % 10);
    }
}

/// The digit character for `d`, as a one-character string slice.
fn digit_str(d: u64) -> (s: &'static str)
    requires
        d <= 9,
    ensures
        s@ == seq![spec_digit_char(d as int)],
{
    if d == 0 {
        proof {
            reveal_strlit("0");
            assert("0"@ =~= seq![spec_digit_char(0)]);
        }
        "0"
    } else if d == 1 {
        proof {
            reveal_strlit("1");
            assert("1"@ =~= seq![spec_digit_char(1)]);
        }
        "1"
    } else if d == 2 {
        proof {
            reveal_strlit("2");
            assert("2"@ =~= seq![spec_digit_char(2)]);
        }
        "2"
    } else if d == 3 {
        proof {
            reveal_strlit("3");
            assert("3"@ =~= seq![spec_digit_char(3)]);
        }
        "3"
    } else if d == 4 {
        proof {
            reveal_strlit("4");
            assert("4"@ =~= seq![spec_digit_char(4)]);
        }
        "4"
    } else if d == 5 {
        proof {
            reveal_strlit("5");
            assert("5"@ =~= seq![spec_digit_char(5)]);
        }
        "5"
    } else if d == 6 {
        proof {
            reveal_strlit("6");
            assert("6"@ =~= seq![spec_digit_char(6)]);
        }
        "6"
    } else if d == 7 {
        proof {
            reveal_strlit("7");
            assert("7"@ =~= seq![spec_digit_char(7)]);
        }
        "7"
    } else if d == 8 {
        proof {
            reveal_strlit("8");
            assert("8"@ =~= seq![spec_digit_char(8)]);
        }
        "8"
    } else {
        proof {
            reveal_strlit("9");
            assert("9"@ =~= seq![spec_digit_char(9)]);
        }
        "9"
    }
}

/// The reversed digit buffer read as text (buffer holds least significant
/// digit first).
spec fn spec_rendered(ds: Seq<u64>) -> Seq<char> {
    Seq::new(ds.len(), |i: int| spec_digit_char(ds[ds.len() - 1 - i] as int))
}

/// Append the buffered digits, most significant first.
fn append_rendered(s: &mut String, digits: &Vec<u64>)
    requires
        forall|j: int| 0 <= j < digits@.len() ==> digits@[j] <= 9,
    ensures
        final(s)@ == old(s)@ + spec_rendered(digits@),
{
    let mut i: usize = digits.len();
    while i > 0
        invariant
            i <= digits@.len(),
            forall|j: int| 0 <= j < digits@.len() ==> digits@[j] <= 9,
            s@ == old(s)@ + spec_rendered(digits@).subrange(0, digits@.len() - i),
        decreases i,
    {
        i = i - 1;
        s.append(digit_str(digits[i]));
        proof {
            let k = digits@.len() - 1 - i;
            assert(spec_rendered(digits@)[k] == spec_digit_char(digits@[i as int] as int));
            assert(s@ =~= old(s)@ + spec_rendered(digits@).subrange(0, digits@.len() - i));
        }
    }
    proof {
        assert(s@ =~= old(s)@ + spec_rendered(digits@));
    }
}

/// Decimal text of `n`.
pub fn u64_to_string(n: u64) -> (s: String)
    ensures
        s@ == spec_udec(n as int),
{
    let mut digits: Vec<u64> = Vec::new();
    let mut m: u64 = n;
    loop
        invariant_except_break
            forall|j: int| 0 <= j < digits@.len() ==> digits@[j] <= 9,
            digits@.len() == 0 ==> m == n,
            digits@.len() > 0 ==> m > 0 && spec_udec(n as int) == spec_udec(m as int)
                + spec_rendered(digits@),
        ensures
            forall|j: int| 0 <= j < digits@.len() ==> digits@[j] <= 9,
            spec_udec(n as int) == spec_rendered(digits@),
        decreases m,
    {
        let ghost pre = digits@;
        let ghost m0 = m;
        let d = m % 10;
        digits.push(d);
        m = m / 10;
        proof {
            assert(spec_rendered(digits@) =~= seq![spec_digit_char(d as int)] + spec_rendered(
                pre,
            ));
            if m0 >= 10 {
                assert(spec_udec(m0 as int) == spec_udec(m0 as int / 10) + seq![
                    spec_digit_char(m0 as int % 10),
                ]);
                if pre.len() == 0 {
                    assert(spec_udec(n as int) =~= spec_udec(m as int) + spec_rendered(digits@));
                } else {
                    assert(spec_udec(n as int) =~= spec_udec(m as int) + spec_rendered(digits@));
                }
            } else {
                assert(spec_udec(m0 as int) == seq![spec_digit_char(m0 as int)]);
                if pre.len() == 0 {
                    assert(spec_udec(n as int) =~= spec_rendered(digits@));
                } else {
                    assert(spec_udec(n as int) =~= spec_rendered(digits@));
                }
            }
        }
        if m == 0 {
            break ;
        }
    }
    let mut s = String::new();
    append_rendered(&mut s, &digits);
    proof {
        assert(s@ =~= spec_udec(n as int));
    }
    s
}

/// Decimal text of `n`, with a minus sign when negative.
pub fn i64_to_string(n: i64) -> (s: String)
    ensures
        s@ == spec_idec(n as int),
{
    if n >= 0 {
        u64_to_string(n as u64)
    } else {
        let mag: u64 = (-(n as i128)) as u64;
        let mut s = String::from_str("-");
        proof {
            reveal_strlit("-");
            assert("-"@ =~= seq!['-']);
        }
        s.append(u64_to_string(mag).as_str());
        s
    }
}

/// Fixed-width decimal text of the low `w` digits of `n`, appended to `s`.
pub fn append_fixed_dec(s: &mut String, n: u64, w: usize)
    ensures
        final(s)@ == old(s)@ + spec_fixed_dec(n as int, w as nat),
{
    let mut digits: Vec<u64> = Vec::new();
    let mut m: u64 = n;
    let mut k: usize = 0;
    while k < w
        invariant
            k <= w,
            digits@.len() == k,
            forall|j: int| 0 <= j < digits@.len() ==> digits@[j] <= 9,
            spec_fixed_dec(n as int, w as nat) == spec_fixed_dec(m as int, (w - k) as nat)
                + spec_rendered(digits@),
        decreases w - k,
    {
        let ghost pre = digits@;
        let ghost m0 = m;
        let d = m % 10;
        digits.push(d);
        m = m / 10;
        k = k + 1;
        proof {
            assert(spec_rendered(digits@) =~= seq![spec_digit_char(d as int)] + spec_rendered(
                pre,
            ));
            assert(spec_fixed_dec(m0 as int, (w - k + 1) as nat) == spec_fixed_dec(
                m as int,
                (w - k) as nat,
            ) + seq![spec_digit_char(m0 as int % 10)]);
            assert(spec_fixed_dec(n as int, w as nat) =~= spec_fixed_dec(m as int, (w - k) as nat)
                + spec_rendered(digits@));
        }
    }
    proof {
        assert(spec_fixed_dec(n as int, w as nat) =~= spec_rendered(digits@));
    }
    append_rendered(s, &digits);
}

/// The view of an optional string.
pub open spec fn spec_opt_str_view(o: Option<String>) -> Option<Seq<char>> {
    match o {
        Some(s) => Some(s@),
        None => None,
    }
}

/// The view of a query-parameter list: each pair as its character sequences.
pub open spec fn spec_query_view(q: Seq<(String, String)>) -> Seq<(Seq<char>, Seq<char>)> {
    q.map_values(|p: (String, String)| (p.0@, p.1@))
}

/// One optional query pair: a singleton when the value is present, else empty.
pub open spec fn spec_opt_pair(key: Seq<char>, value: Option<Seq<char>>) -> Seq<
    (Seq<char>, Seq<char>),
> {
    match value {
        Some(v) => seq![(key, v)],
        None => seq![],
    }
}

/// The decimal text of an optional integer.
pub open spec fn spec_opt_idec(o: Option<i32>) -> Option<Seq<char>> {
    match o {
        Some(n) => Some(spec_idec(n as int)),
        None => None,
    }
}

/// The view of an optional string slice.
pub open spec fn spec_opt_slice_view(o: Option<&str>) -> Option<Seq<char>> {
    match o {
        Some(s) => Some(s@),
        None => None,
    }
}

/// Push one query pair, keeping the whole list's view exact.
pub fn push_pair(q: &mut Vec<(String, String)>, key: &str, value: String)
    ensures
        spec_query_view(final(q)@) == spec_query_view(old(q)@) + seq![(key@, value@)],
{
    let ghost v = value@;
    q.push((String::from_str(key), value));
    proof {
        assert(spec_query_view(q@) =~= spec_query_view(old(q)@) + seq![(key@, v)]);
    }
}

} // verus!
