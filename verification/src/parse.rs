//! Parsing of the timestamp strings exchange responses carry.
//!
//! The wire format is `YYYY-MM-DDTHH:MM:SS`, optionally followed by a
//! point and one to nine fractional-second digits; both forms occur in
//! live responses and both must be tolerated.

use vstd::prelude::*;
use vstd::string::StrSliceExecFns;

use crate::types::{days_in_month, is_leap_year, Decimal, Timestamp};

verus! {

/// Whether a character is a decimal digit (code points of `'0'` to `'9'`).
pub open spec fn is_digit(c: char) -> bool {
    48 <= c as int && c as int <= 57
}

/// The value of one decimal digit character.
pub open spec fn digit_val(c: char) -> nat
    recommends
        is_digit(c),
{
    (c as int - 48) as nat
}

/// The value of the two-digit field starting at `i`.
pub open spec fn two_digit_val(s: Seq<char>, i: int) -> nat
    recommends
        0 <= i && i + 1 < s.len(),
{
    10 * digit_val(s[i]) + digit_val(s[i + 1])
}

/// The value of the four-digit year field at the start of the string.
pub open spec fn four_digit_val(s: Seq<char>, i: int) -> nat
    recommends
        0 <= i && i + 3 < s.len(),
{
    1000 * digit_val(s[i]) + 100 * digit_val(s[i + 1]) + 10 * digit_val(s[i + 2]) + digit_val(
        s[i + 3],
    )
}

/// The value of a run of digit characters, most significant first.
pub open spec fn digits_val(s: Seq<char>) -> nat
    decreases s.len(),
{
    if s.len() == 0 {
        0
    } else {
        10 * digits_val(s.drop_last()) + digit_val(s.last())
    }
}

/// Ten to the `k`.
pub open spec fn pow10(k: nat) -> nat
    decreases k,
{
    if k == 0 {
        1
    } else {
        10 * pow10((k - 1) as nat)
    }
}

/// The shape of a wire timestamp: a date, `T`, a time of day, and
/// optionally a point followed by one to nine fractional digits.
pub open spec fn spec_timestamp_format(s: Seq<char>) -> bool {
    &&& 19 <= s.len() <= 29
    &&& is_digit(s[0]) && is_digit(s[1]) && is_digit(s[2]) && is_digit(s[3])
    &&& s[4] == '-'
    &&& is_digit(s[5]) && is_digit(s[6])
    &&& s[7] == '-'
    &&& is_digit(s[8]) && is_digit(s[9])
    &&& s[10] == 'T'
    &&& is_digit(s[11]) && is_digit(s[12])
    &&& s[13] == ':'
    &&& is_digit(s[14]) && is_digit(s[15])
    &&& s[16] == ':'
    &&& is_digit(s[17]) && is_digit(s[18])
    &&& s.len() > 19 ==> {
        &&& s[19] == '.'
        &&& s.len() >= 21
        &&& forall|i: int| 20 <= i < s.len() ==> is_digit(#[trigger] s[i])
    }
}

/// The nanoseconds the fractional part names: the digit run, scaled so
/// that one digit counts tenths of a second and nine count nanoseconds.
pub open spec fn spec_timestamp_nanos(s: Seq<char>) -> nat {
    if s.len() <= 19 {
        0
    } else {
        digits_val(s.subrange(20, s.len() as int)) * pow10((29 - s.len()) as nat)
    }
}

/// The timestamp a well-shaped string names, field by field.
pub open spec fn spec_timestamp_value(s: Seq<char>) -> Timestamp {
    Timestamp {
        year: four_digit_val(s, 0) as u16,
        month: two_digit_val(s, 5) as u8,
        day: two_digit_val(s, 8) as u8,
        hour: two_digit_val(s, 11) as u8,
        minute: two_digit_val(s, 14) as u8,
        second: two_digit_val(s, 17) as u8,
        nanosecond: spec_timestamp_nanos(s) as u32,
    }
}

/// A string parses as a timestamp when it has the wire shape and names a
/// real calendar date and time.
pub open spec fn spec_timestamp_ok(s: Seq<char>) -> bool {
    spec_timestamp_format(s) && spec_timestamp_value(s).well_formed()
}

proof fn lemma_pow10_values()
    ensures
        pow10(0) == 1,
        pow10(1) == 10,
        pow10(2) == 100,
        pow10(3) == 1000,
        pow10(4) == 10000,
        pow10(5) == 100000,
        pow10(6) == 1000000,
        pow10(7) == 10000000,
        pow10(8) == 100000000,
        pow10(9) == 1000000000,
        pow10(17) == 100000000000000000,
        pow10(18) == 1000000000000000000,
{
    assert(pow10(0) == 1);
    assert(pow10(1) == 10);
    assert(pow10(2) == 100);
    assert(pow10(3) == 1000);
    assert(pow10(4) == 10000);
    assert(pow10(5) == 100000);
    assert(pow10(6) == 1000000);
    assert(pow10(7) == 10000000);
    assert(pow10(8) == 100000000);
    assert(pow10(9) == 1000000000);
    assert(pow10(10) == 10000000000);
    assert(pow10(11) == 100000000000);
    assert(pow10(12) == 1000000000000);
    assert(pow10(13) == 10000000000000);
    assert(pow10(14) == 100000000000000);
    assert(pow10(15) == 1000000000000000);
    assert(pow10(16) == 10000000000000000);
    assert(pow10(17) == 100000000000000000);
    assert(pow10(18) == 1000000000000000000);
}

proof fn lemma_pow10_mono(a: nat, b: nat)
    requires
        a <= b,
    ensures
        pow10(a) <= pow10(b),
    decreases b,
{
    if a < b {
        lemma_pow10_mono(a, (b - 1) as nat);
    }
}

proof fn lemma_pow10_adds(a: nat, b: nat)
    ensures
        pow10(a) * pow10(b) == pow10(a + b),
    decreases a,
{
    if a == 0 {
        assert(pow10(0) * pow10(b) == pow10(b)) by (nonlinear_arith)
            requires
                pow10(0) == 1,
        ;
    } else {
        lemma_pow10_adds((a - 1) as nat, b);
        let p = pow10((a - 1) as nat);
        let q = pow10(b);
        assert((10 * p) * q == 10 * (p * q)) by (nonlinear_arith);
    }
}

/// Reads the digit at `i`.
fn read_digit(s: &str, i: usize) -> (r: Option<u8>)
    requires
        i < s@.len(),
    ensures
        r is Some <==> is_digit(s@[i as int]),
        r is Some ==> r->0 < 10 && r->0 as nat == digit_val(s@[i as int]),
{
    let c = s.get_char(i);
    let u = c as u32;
    if 48 <= u && u <= 57 {
        Some((u - 48) as u8)
    } else {
        None
    }
}

/// Reads the two-digit field at `i`.
fn read_two_digits(s: &str, i: usize) -> (r: Option<u8>)
    requires
        i + 1 < s@.len(),
        s@.len() <= usize::MAX,
    ensures
        r is Some <==> is_digit(s@[i as int]) && is_digit(s@[i as int + 1]),
        r is Some ==> r->0 as nat == two_digit_val(s@, i as int),
{
    match (read_digit(s, i), read_digit(s, i + 1)) {
        (Some(hi), Some(lo)) => Some(10 * hi + lo),
        _ => None,
    }
}

/// Reads the four-digit year field at the start.
fn read_year(s: &str) -> (r: Option<u16>)
    requires
        4 <= s@.len(),
    ensures
        r is Some <==> is_digit(s@[0]) && is_digit(s@[1]) && is_digit(s@[2]) && is_digit(s@[3]),
        r is Some ==> r->0 as nat == four_digit_val(s@, 0),
{
    match (read_digit(s, 0), read_digit(s, 1), read_digit(s, 2), read_digit(s, 3)) {
        (Some(a), Some(b), Some(c), Some(d)) => Some(
            1000 * (a as u16) + 100 * (b as u16) + 10 * (c as u16) + (d as u16),
        ),
        _ => None,
    }
}

/// Whether the character at `i` is the given separator.
fn check_sep(s: &str, i: usize, sep: char) -> (r: bool)
    requires
        i < s@.len(),
    ensures
        r == (s@[i as int] == sep),
{
    s.get_char(i) == sep
}

/// Ten to the `e`, as a machine word.
fn pow10_exec(e: usize) -> (r: u32)
    requires
        e <= 9,
    ensures
        r as nat == pow10(e as nat),
{
    proof {
        lemma_pow10_values();
    }
    match e {
        0 => 1,
        1 => 10,
        2 => 100,
        3 => 1000,
        4 => 10000,
        5 => 100000,
        6 => 1000000,
        7 => 10000000,
        8 => 100000000,
        _ => 1000000000,
    }
}

/// Reads the fractional digits after the point and scales them to
/// nanoseconds.
fn read_fraction(s: &str, n: usize) -> (r: Option<u32>)
    requires
        n == s@.len(),
        21 <= n <= 29,
    ensures
        r is Some <==> (forall|i: int| 20 <= i < s@.len() ==> is_digit(#[trigger] s@[i])),
        r is Some ==> r->0 as nat == spec_timestamp_nanos(s@) && r->0 < 1000000000,
{
    let mut acc: u32 = 0;
    let mut i: usize = 20;
    proof {
        assert(s@.subrange(20, 20) =~= Seq::<char>::empty());
    }
    while i < n
        invariant
            20 <= i <= n,
            n == s@.len(),
            21 <= n <= 29,
            forall|j: int| 20 <= j < i ==> is_digit(#[trigger] s@[j]),
            acc as nat == digits_val(s@.subrange(20, i as int)),
            (acc as nat) < pow10((i - 20) as nat),
        decreases n - i,
    {
        let d = match read_digit(s, i) {
            Some(d) => d,
            None => {
                return None;
            },
        };
        proof {
            lemma_pow10_mono((i - 20) as nat, 8);
            lemma_pow10_values();
            assert(s@.subrange(20, i + 1).drop_last() =~= s@.subrange(20, i as int));
            assert(s@.subrange(20, i + 1).last() == s@[i as int]);
        }
        acc = acc * 10 + (d as u32);
        i = i + 1;
    }
    proof {
        lemma_pow10_adds((n - 20) as nat, (29 - n) as nat);
        lemma_pow10_values();
        assert((acc as nat) * pow10((29 - n) as nat) < pow10(9)) by (nonlinear_arith)
            requires
                (acc as nat) < pow10((n - 20) as nat),
                pow10((n - 20) as nat) * pow10((29 - n) as nat) == pow10(9),
                pow10((29 - n) as nat) >= 1,
        ;
    }
    let scale = pow10_exec(29 - n);
    Some(acc * scale)
}

/// Whether the month of the given year has the given day.
fn valid_day(year: u16, month: u8, day: u8) -> (r: bool)
    requires
        1 <= month <= 12,
    ensures
        r == (1 <= day && day as nat <= days_in_month(year as nat, month as nat)),
{
    let days: u8 = if month == 2 {
        if year % 4 == 0 && (year % 100 != 0 || year % 400 == 0) {
            29
        } else {
            28
        }
    } else if month == 4 || month == 6 || month == 9 || month == 11 {
        30
    } else {
        31
    };
    proof {
        assert(is_leap_year(year as nat) == (year % 4 == 0 && (year % 100 != 0 || year % 400
            == 0)));
    }
    1 <= day && day <= days
}

/// Parses a wire timestamp.
///
/// Returns the named timestamp exactly when the string has the wire shape
/// and its components make a real calendar date and time of day; `None`
/// otherwise.
pub fn parse_timestamp(s: &str) -> (r: Option<Timestamp>)
    ensures
        r is Some <==> spec_timestamp_ok(s@),
        r is Some ==> r->0 == spec_timestamp_value(s@) && r->0.well_formed(),
{
    let n = s.unicode_len();
    if n < 19 || n > 29 {
        return None;
    }
    if !check_sep(s, 4, '-') || !check_sep(s, 7, '-') || !check_sep(s, 10, 'T') || !check_sep(
        s,
        13,
        ':',
    ) || !check_sep(s, 16, ':') {
        return None;
    }
    let year = match read_year(s) {
        Some(v) => v,
        None => {
            return None;
        },
    };
    let month = match read_two_digits(s, 5) {
        Some(v) => v,
        None => {
            return None;
        },
    };
    let day = match read_two_digits(s, 8) {
        Some(v) => v,
        None => {
            return None;
        },
    };
    let hour = match read_two_digits(s, 11) {
        Some(v) => v,
        None => {
            return None;
        },
    };
    let minute = match read_two_digits(s, 14) {
        Some(v) => v,
        None => {
            return None;
        },
    };
    let second = match read_two_digits(s, 17) {
        Some(v) => v,
        None => {
            return None;
        },
    };
    let nanosecond: u32 = if n > 19 {
        if !check_sep(s, 19, '.') {
            return None;
        }
        if n < 21 {
            return None;
        }
        match read_fraction(s, n) {
            Some(v) => v,
            None => {
                return None;
            },
        }
    } else {
        0
    };
    if month < 1 || month > 12 {
        return None;
    }
    if !valid_day(year, month, day) {
        return None;
    }
    if hour > 23 || minute > 59 || second > 59 {
        return None;
    }
    let ts = Timestamp { year, month, day, hour, minute, second, nanosecond };
    proof {
        assert(spec_timestamp_format(s@));
        assert(ts == spec_timestamp_value(s@));
        assert(ts.well_formed());
    }
    Some(ts)
}

/// Whether every character of the sequence is a decimal digit.
pub open spec fn all_digits(s: Seq<char>) -> bool {
    forall|i: int| 0 <= i < s.len() ==> is_digit(#[trigger] s[i])
}

/// Whether the string opens with a minus sign.
pub open spec fn is_negative(s: Seq<char>) -> bool {
    s.len() > 0 && s[0] == '-'
}

/// The string with a leading minus sign removed.
pub open spec fn unsigned_part(s: Seq<char>) -> Seq<char> {
    if is_negative(s) {
        s.drop_first()
    } else {
        s
    }
}

/// The index of the first point in the sequence, or its length when there
/// is none.
pub open spec fn first_dot(s: Seq<char>) -> int
    decreases s.len(),
{
    if s.len() == 0 {
        0
    } else if s[0] == '.' {
        0
    } else {
        1 + first_dot(s.drop_first())
    }
}

proof fn lemma_first_dot(s: Seq<char>)
    ensures
        0 <= first_dot(s) <= s.len(),
        first_dot(s) < s.len() ==> s[first_dot(s)] == '.',
        forall|k: int| 0 <= k < first_dot(s) ==> s[k] != '.',
    decreases s.len(),
{
    if s.len() == 0 || s[0] == '.' {
    } else {
        lemma_first_dot(s.drop_first());
        if first_dot(s) < s.len() {
            assert(s.drop_first()[first_dot(s) - 1] == s[first_dot(s)]);
        }
        assert forall|k: int| 0 <= k < first_dot(s) implies s[k] != '.' by {
            if k >= 1 {
                assert(s.drop_first()[k - 1] == s[k]);
            }
        }
    }
}

/// The shape of a wire decimal number: an optional minus sign, at least
/// one integer digit, and optionally a point followed by at least one
/// fractional digit; at most eighteen digits in all, so that the exact
/// value fits the mantissa.
pub open spec fn spec_decimal_format(s: Seq<char>) -> bool {
    let u = unsigned_part(s);
    let d = first_dot(u);
    &&& 1 <= d
    &&& all_digits(u.subrange(0, d))
    &&& d < u.len() ==> (d + 1 < u.len() && all_digits(u.subrange(d + 1, u.len() as int)))
    &&& (if d < u.len() {
        u.len() - 1
    } else {
        u.len() as int
    }) <= 18
}

/// The exact value a well-shaped decimal string names: all digits read as
/// the mantissa, the count of fractional digits as the scale.
pub open spec fn spec_decimal_value(s: Seq<char>) -> Decimal {
    let u = unsigned_part(s);
    let d = first_dot(u);
    let digits = if d == u.len() {
        u
    } else {
        u.subrange(0, d) + u.subrange(d + 1, u.len() as int)
    };
    let m = digits_val(digits);
    Decimal {
        mantissa: if is_negative(s) {
            (-(m as int)) as i64
        } else {
            m as i64
        },
        scale: if d == u.len() {
            0u32
        } else {
            (u.len() - d - 1) as u32
        },
    }
}

/// Parses a wire decimal number into the exact pair of integers the
/// records hold.
///
/// Returns the named value exactly when the string is an optionally
/// signed run of digits with at most one point, one digit or more on each
/// side of it, and at most eighteen digits in all; `None` otherwise.
pub fn parse_decimal(s: &str) -> (r: Option<Decimal>)
    ensures
        r is Some <==> spec_decimal_format(s@),
        r is Some ==> r->0 == spec_decimal_value(s@),
{
    let ghost u = unsigned_part(s@);
    let n = s.unicode_len();
    let negative = n > 0 && s.get_char(0) == '-';
    let off: usize = if negative {
        1
    } else {
        0
    };
    proof {
        assert(u =~= s@.subrange(off as int, n as int));
        lemma_first_dot(u);
    }
    let mut d: usize = off;
    while d < n && !check_sep(s, d, '.')
        invariant
            off <= d <= n,
            n == s@.len(),
            off <= 1,
            forall|k: int| off <= k < d ==> s@[k] != '.',
        decreases n - d,
    {
        d = d + 1;
    }
    proof {
        assert forall|k: int| 0 <= k < d - off implies u[k] != '.' by {
            assert(u[k] == s@[k + off]);
        }
        if d < n {
            assert(u[d - off] == s@[d as int]);
        }
        if first_dot(u) < d - off {
            assert(s@[first_dot(u) + off] == '.');
        }
        assert(first_dot(u) == d - off);
    }
    if d == off {
        return None;
    }
    if d < n && d + 1 == n {
        return None;
    }
    let int_len: usize = d - off;
    let frac_len: usize = if d < n {
        n - d - 1
    } else {
        0
    };
    if int_len + frac_len > 18 {
        return None;
    }
    let mut acc: u64 = 0;
    let mut i: usize = off;
    proof {
        assert(s@.subrange(off as int, off as int) =~= Seq::<char>::empty());
    }
    while i < d
        invariant
            off <= i <= d <= n,
            n == s@.len(),
            u == unsigned_part(s@),
            u == s@.subrange(off as int, n as int),
            first_dot(u) == d - off,
            d - off == int_len,
            1 <= int_len <= 18,
            forall|j: int| off <= j < i ==> is_digit(#[trigger] s@[j]),
            acc as nat == digits_val(s@.subrange(off as int, i as int)),
            (acc as nat) < pow10((i - off) as nat),
        decreases d - i,
    {
        let dig = match read_digit(s, i) {
            Some(dig) => dig,
            None => {
                proof {
                    assert(u.subrange(0, first_dot(u))[i - off] == s@[i as int]);
                }
                return None;
            },
        };
        proof {
            lemma_pow10_mono((i - off) as nat, 17);
            lemma_pow10_values();
            assert(s@.subrange(off as int, i + 1).drop_last() =~= s@.subrange(
                off as int,
                i as int,
            ));
            assert(s@.subrange(off as int, i + 1).last() == s@[i as int]);
        }
        acc = acc * 10 + (dig as u64);
        i = i + 1;
    }
    let ghost int_digits = s@.subrange(off as int, d as int);
    let frac_start: usize = if d < n {
        d + 1
    } else {
        n
    };
    let mut j: usize = frac_start;
    proof {
        assert(int_digits + s@.subrange(frac_start as int, frac_start as int) =~= int_digits);
    }
    while j < n
        invariant
            frac_start <= j <= n,
            frac_start == if d < n {
                d + 1
            } else {
                n as int
            },
            off <= d <= n,
            n == s@.len(),
            u == unsigned_part(s@),
            u == s@.subrange(off as int, n as int),
            first_dot(u) == d - off,
            d - off == int_len,
            d < n ==> d + 1 < n,
            int_len + frac_len <= 18,
            frac_len == if d < n {
                n - d - 1
            } else {
                0int
            },
            int_digits == s@.subrange(off as int, d as int),
            forall|k: int| frac_start <= k < j ==> is_digit(#[trigger] s@[k]),
            acc as nat == digits_val(int_digits + s@.subrange(frac_start as int, j as int)),
            (acc as nat) < pow10((int_len + (j - frac_start)) as nat),
        decreases n - j,
    {
        let dig = match read_digit(s, j) {
            Some(dig) => dig,
            None => {
                proof {
                    assert(u.subrange(first_dot(u) + 1, u.len() as int)[j - d - 1] == s@[
                        j as int
                    ]);
                }
                return None;
            },
        };
        proof {
            lemma_pow10_mono((int_len + (j - frac_start)) as nat, 17);
            lemma_pow10_values();
            assert((int_digits + s@.subrange(frac_start as int, j + 1)).drop_last()
                =~= int_digits + s@.subrange(frac_start as int, j as int));
            assert((int_digits + s@.subrange(frac_start as int, j + 1)).last() == s@[j as int]);
        }
        acc = acc * 10 + (dig as u64);
        j = j + 1;
    }
    proof {
        lemma_pow10_mono((int_len + frac_len) as nat, 18);
        lemma_pow10_values();
        if d == n {
            assert(u =~= int_digits);
            assert(int_digits + s@.subrange(frac_start as int, n as int) =~= u);
        } else {
            assert(u.subrange(0, first_dot(u)) =~= int_digits);
            assert(u.subrange(first_dot(u) + 1, u.len() as int) =~= s@.subrange(
                frac_start as int,
                n as int,
            ));
        }
        assert(spec_decimal_format(s@));
    }
    let mantissa: i64 = if negative {
        -(acc as i64)
    } else {
        acc as i64
    };
    let scale: u32 = frac_len as u32;
    let dec = Decimal { mantissa, scale };
    proof {
        assert(dec == spec_decimal_value(s@));
    }
    Some(dec)
}

} // verus!
