//! Parsing human-readable size strings (`"100MB"`, `"1.5GiB"`) into bytes.

use vstd::prelude::*;
use crate::text::{chars_of, find_char, find_char_exec, occurs_at_exec};

verus! {

/// Why a size string was refused.
#[derive(Clone, Copy, Debug, PartialEq, Eq, Structural)]
pub enum SizeError {
    /// The number holds more than one `.`.
    InvalidDecimal,
    /// More than nine digits follow the `.`.
    TooManyDecimals,
    /// The number is not an unsigned integer.
    InvalidNumber,
    /// The byte count does not fit in 64 bits.
    Overflow,
}

/// Number of size units.
pub const UNIT_COUNT: usize = 6;

/// The unit suffixes, upper case, longest first within each base.
pub open spec fn unit_suffix(i: int) -> Seq<char> {
    if i == 0 {
        "GIB"@
    } else if i == 1 {
        "MIB"@
    } else if i == 2 {
        "KIB"@
    } else if i == 3 {
        "GB"@
    } else if i == 4 {
        "MB"@
    } else {
        "KB"@
    }
}

/// Bytes in one of the unit `unit_suffix(i)`.
pub open spec fn unit_multiplier(i: int) -> u64 {
    if i == 0 {
        1_073_741_824
    } else if i == 1 {
        1_048_576
    } else if i == 2 {
        1_024
    } else if i == 3 {
        1_000_000_000
    } else if i == 4 {
        1_000_000
    } else {
        1_000
    }
}

fn unit_suffix_text(i: usize) -> (r: &'static str)
    requires
        i < UNIT_COUNT,
    ensures
        r@ == unit_suffix(i as int),
{
    if i == 0 {
        "GIB"
    } else if i == 1 {
        "MIB"
    } else if i == 2 {
        "KIB"
    } else if i == 3 {
        "GB"
    } else if i == 4 {
        "MB"
    } else {
        "KB"
    }
}

fn unit_multiplier_value(i: usize) -> (r: u64)
    requires
        i < UNIT_COUNT,
    ensures
        r == unit_multiplier(i as int),
{
    if i == 0 {
        1_073_741_824
    } else if i == 1 {
        1_048_576
    } else if i == 2 {
        1_024
    } else if i == 3 {
        1_000_000_000
    } else if i == 4 {
        1_000_000
    } else {
        1_000
    }
}

pub open spec fn ends_with(s: Seq<char>, p: Seq<char>) -> bool {
    s.len() >= p.len() && s.subrange(s.len() - p.len(), s.len() as int) == p
}

/// `s` without every trailing repetition of the non-empty `p`.
pub open spec fn trim_suffix(s: Seq<char>, p: Seq<char>) -> Seq<char>
    decreases s.len(),
{
    if p.len() > 0 && ends_with(s, p) {
        trim_suffix(s.subrange(0, s.len() - p.len()), p)
    } else {
        s
    }
}

/// The first unit, from index `i` on, whose suffix ends `s`.
pub open spec fn first_unit(s: Seq<char>, i: int) -> Option<int>
    decreases UNIT_COUNT - i,
{
    if i < 0 || i >= UNIT_COUNT {
        None
    } else if ends_with(s, unit_suffix(i)) {
        Some(i)
    } else {
        first_unit(s, i + 1)
    }
}

/// The number part of `s` and the multiplier of its unit (1 without one).
pub open spec fn split_unit(s: Seq<char>) -> (Seq<char>, u64) {
    match first_unit(s, 0) {
        Some(i) => (trim_suffix(s, unit_suffix(i)), unit_multiplier(i)),
        None => (s, 1),
    }
}

pub open spec fn is_digit(c: char) -> bool {
    48 <= (c as u32) && (c as u32) <= 57
}

pub open spec fn all_digits(s: Seq<char>) -> bool {
    forall|i: int| 0 <= i < s.len() ==> is_digit(#[trigger] s[i])
}

/// The decimal value of a string of digits.
pub open spec fn digits_value(s: Seq<char>) -> nat
    decreases s.len(),
{
    if s.len() == 0 {
        0
    } else {
        digits_value(s.drop_last()) * 10 + ((s.last() as u32) - 48) as nat
    }
}

/// What `u64::from_str` yields: an optional `+` and then at least one digit,
/// with a value that fits.
pub open spec fn parse_u64(s: Seq<char>) -> Option<u64> {
    let t = if s.len() > 0 && s[0] == '+' {
        s.drop_first()
    } else {
        s
    };
    if t.len() > 0 && all_digits(t) && digits_value(t) <= u64::MAX {
        Some(digits_value(t) as u64)
    } else {
        None
    }
}

pub open spec fn pow10(n: nat) -> nat
    decreases n,
{
    if n == 0 {
        1
    } else {
        10 * pow10((n - 1) as nat)
    }
}

pub open spec fn checked_mul_spec(a: u64, b: u64) -> Result<u64, SizeError> {
    if a * b <= u64::MAX {
        Ok((a * b) as u64)
    } else {
        Err(SizeError::Overflow)
    }
}

pub open spec fn checked_add_spec(a: u64, b: u64) -> Result<u64, SizeError> {
    if a + b <= u64::MAX {
        Ok((a + b) as u64)
    } else {
        Err(SizeError::Overflow)
    }
}

/// The digits after the `.`, scaled to billionths.
pub open spec fn fraction_value(f: Seq<char>) -> Result<u64, SizeError> {
    if f.len() > 9 {
        Err(SizeError::TooManyDecimals)
    } else {
        match parse_u64(f) {
            Some(v) => Ok((v * pow10((9 - f.len()) as nat)) as u64),
            None => Err(SizeError::InvalidNumber),
        }
    }
}

/// The bytes of the decimal number `num` in units of `mult`: the integer part
/// (0 when it is no number) times `mult`, plus the fraction times `mult`
/// rounded down.
pub open spec fn decimal_value(num: Seq<char>, mult: u64) -> Result<u64, SizeError> {
    match find_char(num, 0, num.len() as int, '.') {
        None => Err(SizeError::InvalidDecimal),
        Some(d) => if find_char(num, d + 1, num.len() as int, '.') is Some {
            Err(SizeError::InvalidDecimal)
        } else {
            let ip = match parse_u64(num.subrange(0, d)) {
                Some(v) => v,
                None => 0,
            };
            match fraction_value(num.subrange(d + 1, num.len() as int)) {
                Err(e) => Err(e),
                Ok(fv) => match checked_mul_spec(ip, mult) {
                    Err(e) => Err(e),
                    Ok(ib) => match checked_mul_spec(fv, mult) {
                        Err(e) => Err(e),
                        Ok(fb) => checked_add_spec(ib, fb / 1_000_000_000),
                    },
                },
            }
        },
    }
}

/// The bytes of the integer `num` in units of `mult`.
pub open spec fn integer_value(num: Seq<char>, mult: u64) -> Result<u64, SizeError> {
    match parse_u64(num) {
        Some(v) => checked_mul_spec(v, mult),
        None => Err(SizeError::InvalidNumber),
    }
}

/// The bytes that the upper-case size string `u` denotes.
pub open spec fn size_value(u: Seq<char>) -> Result<u64, SizeError> {
    let (num, mult) = split_unit(u);
    if find_char(num, 0, num.len() as int, '.') is Some {
        decimal_value(num, mult)
    } else {
        integer_value(num, mult)
    }
}

/// What `str::to_uppercase` makes of a text.
pub uninterp spec fn upper_of(s: Seq<char>) -> Seq<char>;

/// Relies on str::to_uppercase: the upper-case form of the text, which depends
/// on its characters alone.
#[verifier::external_body]
fn to_upper(s: &str) -> (r: String)
    ensures
        r@ == upper_of(s@),
{
    s.to_uppercase()
}

/// Multiplies, failing on overflow.
pub fn multiply_with_overflow_check(a: u64, b: u64) -> (r: Result<u64, SizeError>)
    ensures
        r == checked_mul_spec(a, b),
{
    match a.checked_mul(b) {
        Some(v) => Ok(v),
        None => Err(SizeError::Overflow),
    }
}

/// Adds, failing on overflow.
pub fn add_with_overflow_check(a: u64, b: u64) -> (r: Result<u64, SizeError>)
    ensures
        r == checked_add_spec(a, b),
{
    match a.checked_add(b) {
        Some(v) => Ok(v),
        None => Err(SizeError::Overflow),
    }
}

proof fn lemma_digits_prefix(t: Seq<char>, k: int)
    requires
        0 <= k <= t.len(),
        all_digits(t),
    ensures
        digits_value(t) >= digits_value(t.take(k)),
    decreases t.len(),
{
    if k < t.len() {
        assert(all_digits(t.drop_last()));
        lemma_digits_prefix(t.drop_last(), k);
        assert(t.drop_last().take(k) =~= t.take(k));
    } else {
        assert(t.take(k) =~= t);
    }
}

fn parse_u64_range(s: &Vec<char>, lo: usize, hi: usize) -> (r: Option<u64>)
    requires
        lo <= hi <= s@.len(),
    ensures
        r == parse_u64(s@.subrange(lo as int, hi as int)),
{
    let ghost whole = s@.subrange(lo as int, hi as int);
    let start = if lo < hi && s[lo] == '+' {
        lo + 1
    } else {
        lo
    };
    let ghost t = s@.subrange(start as int, hi as int);
    assert(t =~= (if whole.len() > 0 && whole[0] == '+' {
        whole.drop_first()
    } else {
        whole
    }));
    assert(parse_u64(whole) == (if t.len() > 0 && all_digits(t) && digits_value(t) <= u64::MAX {
        Some(digits_value(t) as u64)
    } else {
        None
    }));
    if start == hi {
        return None;
    }
    let mut v: u64 = 0;
    let mut k = start;
    while k < hi
        invariant
            lo <= start <= k <= hi <= s@.len(),
            t == s@.subrange(start as int, hi as int),
            whole == s@.subrange(lo as int, hi as int),
            parse_u64(whole) == (if t.len() > 0 && all_digits(t) && digits_value(t) <= u64::MAX {
                Some(digits_value(t) as u64)
            } else {
                None
            }),
            all_digits(s@.subrange(start as int, k as int)),
            v as nat == digits_value(s@.subrange(start as int, k as int)),
        decreases hi - k,
    {
        let ghost next = s@.subrange(start as int, k as int + 1);
        assert(next.drop_last() =~= s@.subrange(start as int, k as int));
        let c = s[k];
        let n = c as u32;
        if n < 48 || n > 57 {
            assert(!is_digit(t[k - start]));
            return None;
        }
        let d = (n - 48) as u64;
        if v > (u64::MAX - d) / 10 {
            assert(all_digits(next)) by {
                assert forall|i: int| 0 <= i < next.len() implies is_digit(#[trigger] next[i]) by {
                    if i < next.len() - 1 {
                        assert(next[i] == s@.subrange(start as int, k as int)[i]);
                    }
                }
            }
            assert(digits_value(next) > u64::MAX) by (nonlinear_arith)
                requires
                    v > (u64::MAX - d) / 10,
                    digits_value(next) == v * 10 + d,
                    d <= 9,
            ;
            proof {
                if all_digits(t) {
                    assert(t.take(k - start + 1) =~= next);
                    lemma_digits_prefix(t, k - start + 1);
                }
            }
            return None;
        }
        proof {
            assert(v * 10 + d <= u64::MAX) by (nonlinear_arith)
                requires
                    v <= (u64::MAX - d) / 10,
                    d <= 9,
            ;
        }
        v = v * 10 + d;
        k = k + 1;
        proof {
            assert forall|i: int| 0 <= i < next.len() implies is_digit(#[trigger] next[i]) by {
                if i < next.len() - 1 {
                    assert(next[i] == s@.subrange(start as int, k - 1)[i]);
                }
            }
        }
    }
    assert(s@.subrange(start as int, k as int) =~= t);
    Some(v)
}

/// The digits after the `.`, scaled to billionths; at most nine of them.
pub fn parse_fractional_part(fractional_str: &str) -> (r: Result<u64, SizeError>)
    ensures
        r == fraction_value(fractional_str@),
{
    let s = chars_of(fractional_str);
    assert(s@.subrange(0, s@.len() as int) =~= s@);
    fraction_range(&s, 0, s.len())
}

fn fraction_range(s: &Vec<char>, lo: usize, hi: usize) -> (r: Result<u64, SizeError>)
    requires
        lo <= hi <= s@.len(),
    ensures
        r == fraction_value(s@.subrange(lo as int, hi as int)),
{
    let len = hi - lo;
    if len > 9 {
        return Err(SizeError::TooManyDecimals);
    }
    match parse_u64_range(s, lo, hi) {
        None => Err(SizeError::InvalidNumber),
        Some(v) => {
            let mut scale: u64 = 1;
            let mut i: usize = len;
            while i < 9
                invariant
                    len <= i <= 9,
                    scale as nat == pow10((i - len) as nat),
                    scale <= 1_000_000_000,
                decreases 9 - i,
            {
                proof {
                    lemma_pow10_bound((i - len + 1) as nat);
                    assert(pow10((i - len + 1) as nat) == 10 * pow10((i - len) as nat));
                }
                scale = scale * 10;
                i = i + 1;
            }
            proof {
                lemma_value_below_pow10(s@.subrange(lo as int, hi as int));
                lemma_pow10_bound((9 - len) as nat);
                lemma_pow10_add(len as nat, (9 - len) as nat);
                assert(len as nat + (9 - len) as nat == 9);
                reveal_with_fuel(pow10, 10);
                assert(pow10(9) == 1_000_000_000);
                assert(v * scale < pow10(9)) by (nonlinear_arith)
                    requires
                        v < pow10(len as nat),
                        scale == pow10((9 - len) as nat),
                        scale >= 1,
                        pow10(len as nat) * pow10((9 - len) as nat) == pow10(9),
                ;
            }
            Ok(v * scale)
        },
    }
}

proof fn lemma_pow10_bound(n: nat)
    requires
        n <= 9,
    ensures
        pow10(n) <= 1_000_000_000,
        pow10(n) >= 1,
{
    reveal_with_fuel(pow10, 10);
}

proof fn lemma_pow10_add(a: nat, b: nat)
    ensures
        pow10(a) * pow10(b) == pow10(a + b),
    decreases a,
{
    if a > 0 {
        lemma_pow10_add((a - 1) as nat, b);
        assert(pow10(a + b) == 10 * pow10((a + b - 1) as nat));
        assert((a - 1) as nat + b == (a + b - 1) as nat);
        assert(pow10(a) * pow10(b) == 10 * (pow10((a - 1) as nat) * pow10(b))) by (nonlinear_arith)
            requires
                pow10(a) == 10 * pow10((a - 1) as nat),
        ;
    } else {
        assert(pow10(0) == 1);
        assert(pow10(a) * pow10(b) == pow10(b)) by (nonlinear_arith)
            requires
                pow10(a) == 1,
        ;
    }
}

proof fn lemma_digits_below(t: Seq<char>)
    requires
        all_digits(t),
    ensures
        digits_value(t) < pow10(t.len()),
    decreases t.len(),
{
    if t.len() > 0 {
        assert(all_digits(t.drop_last()));
        lemma_digits_below(t.drop_last());
        let d = ((t.last() as u32) - 48) as nat;
        assert(is_digit(t[t.len() - 1]));
        assert(digits_value(t) < pow10(t.len())) by (nonlinear_arith)
            requires
                digits_value(t) == digits_value(t.drop_last()) * 10 + d,
                d <= 9,
                digits_value(t.drop_last()) < pow10(t.drop_last().len()),
                pow10(t.len()) == 10 * pow10(t.drop_last().len()),
        ;
    }
}

proof fn lemma_value_below_pow10(s: Seq<char>)
    requires
        parse_u64(s) is Some,
    ensures
        parse_u64(s)->0 < pow10(s.len()),
{
    let t = if s.len() > 0 && s[0] == '+' {
        s.drop_first()
    } else {
        s
    };
    lemma_digits_below(t);
    lemma_pow10_mono(t.len(), s.len());
}

proof fn lemma_pow10_mono(a: nat, b: nat)
    requires
        a <= b,
    ensures
        pow10(a) <= pow10(b),
    decreases b,
{
    if a < b {
        lemma_pow10_mono(a, (b - 1) as nat);
    }
}

/// The bytes of a decimal number (`"1.5"`) in units of `multiplier`.
pub fn parse_decimal_size(number_str: &str, multiplier: u64) -> (r: Result<u64, SizeError>)
    ensures
        r == decimal_value(number_str@, multiplier),
{
    let s = chars_of(number_str);
    assert(s@.take(s@.len() as int) =~= s@);
    decimal_range(&s, s.len(), multiplier)
}

fn decimal_range(s: &Vec<char>, hi: usize, mult: u64) -> (r: Result<u64, SizeError>)
    requires
        hi <= s@.len(),
    ensures
        r == decimal_value(s@.take(hi as int), mult),
{
    let ghost num = s@.take(hi as int);
    proof {
        lemma_find_take(s@, hi as int, 0, '.');
    }
    match find_char_exec(s, 0, hi, '.') {
        None => Err(SizeError::InvalidDecimal),
        Some(d) => {
            proof {
                lemma_find_take(s@, hi as int, d + 1, '.');
                assert(num.subrange(0, d as int) =~= s@.subrange(0, d as int));
                assert(num.subrange(d + 1, num.len() as int) =~= s@.subrange(d + 1, hi as int));
            }
            if find_char_exec(s, d + 1, hi, '.').is_some() {
                return Err(SizeError::InvalidDecimal);
            }
            let ip = match parse_u64_range(s, 0, d) {
                Some(v) => v,
                None => 0,
            };
            let fv = fraction_range(s, d + 1, hi)?;
            let ib = multiply_with_overflow_check(ip, mult)?;
            let fb = multiply_with_overflow_check(fv, mult)?;
            add_with_overflow_check(ib, fb / 1_000_000_000)
        },
    }
}

proof fn lemma_find_take(s: Seq<char>, hi: int, i: int, c: char)
    requires
        0 <= i,
        0 <= hi <= s.len(),
    ensures
        find_char(s.take(hi), i, hi, c) == find_char(s, i, hi, c),
    decreases hi - i,
{
    if i < hi {
        lemma_find_take(s, hi, i + 1, c);
    }
}

/// The bytes of an integer (`"100"`) in units of `multiplier`.
pub fn parse_integer_size(number_str: &str, multiplier: u64) -> (r: Result<u64, SizeError>)
    ensures
        r == integer_value(number_str@, multiplier),
{
    let s = chars_of(number_str);
    assert(s@.subrange(0, s@.len() as int) =~= s@);
    match parse_u64_range(&s, 0, s.len()) {
        Some(v) => multiply_with_overflow_check(v, multiplier),
        None => Err(SizeError::InvalidNumber),
    }
}

fn unit_split(s: &Vec<char>) -> (r: (usize, u64))
    ensures
        r.0 <= s@.len(),
        s@.take(r.0 as int) == split_unit(s@).0,
        r.1 == split_unit(s@).1,
{
    let len = s.len();
    let mut i: usize = 0;
    while i < UNIT_COUNT
        invariant
            len == s@.len(),
            i <= UNIT_COUNT,
            first_unit(s@, i as int) == first_unit(s@, 0),
        decreases UNIT_COUNT - i,
    {
        let p = chars_of(unit_suffix_text(i));
        let plen = p.len();
        if plen <= len && occurs_at_exec(s, len - plen, len, &p) {
            proof {
                reveal_strlit("GIB");
                reveal_strlit("MIB");
                reveal_strlit("KIB");
                reveal_strlit("GB");
                reveal_strlit("MB");
                reveal_strlit("KB");
                assert(s@.take(len as int) =~= s@);
            }
            let mut n = len;
            while n >= plen && occurs_at_exec(s, n - plen, n, &p)
                invariant
                    len == s@.len(),
                    plen == p@.len(),
                    plen > 0,
                    n <= len,
                    p@ == unit_suffix(i as int),
                    trim_suffix(s@.take(n as int), p@) == trim_suffix(s@, p@),
                decreases n,
            {
                proof {
                    let t = s@.take(n as int);
                    assert(t.subrange(n - plen, n as int) =~= s@.subrange(n - plen, n as int));
                    assert(t.subrange(0, n - plen) =~= s@.take(n - plen));
                }
                n = n - plen;
            }
            proof {
                let t = s@.take(n as int);
                if n >= plen {
                    assert(t.subrange(n - plen, n as int) =~= s@.subrange(n - plen, n as int));
                }
            }
            return (n, unit_multiplier_value(i));
        }
        proof {
            if plen <= len {
                assert(!ends_with(s@, p@));
            }
        }
        i = i + 1;
    }
    assert(s@.take(len as int) =~= s@);
    (len, 1)
}

/// Splits a size string into its number part, with every trailing
/// repetition of its unit removed, and the unit's multiplier (1 without one).
pub fn parse_size_unit(size_str: &str) -> (r: (&str, u64))
    ensures
        r.0@ == split_unit(size_str@).0,
        r.1 == split_unit(size_str@).1,
{
    let s = chars_of(size_str);
    let (n, m) = unit_split(&s);
    (size_str.substring_char(0, n), m)
}

/// The bytes that an upper-case size string denotes.
pub fn parse_uppercased_size(upper: &str) -> (r: Result<u64, SizeError>)
    ensures
        r == size_value(upper@),
{
    let s = chars_of(upper);
    let (n, m) = unit_split(&s);
    proof {
        lemma_find_take(s@, n as int, 0, '.');
        assert(s@.subrange(0, n as int) =~= s@.take(n as int));
    }
    if find_char_exec(&s, 0, n, '.').is_some() {
        decimal_range(&s, n, m)
    } else {
        match parse_u64_range(&s, 0, n) {
            Some(v) => multiply_with_overflow_check(v, m),
            None => Err(SizeError::InvalidNumber),
        }
    }
}

/// Parses a human-readable size into bytes: a plain number, or a number with
/// one of the units KB, MB, GB (powers of 1000) or KiB, MiB, GiB (powers of
/// 1024), in any case, with up to nine decimal places.
pub fn parse_size(size_str: &str) -> (r: Result<u64, SizeError>)
    ensures
        size_str@ == "0"@ ==> r == Ok::<u64, SizeError>(0),
        size_str@ != "0"@ ==> r == size_value(upper_of(size_str@)),
{
    let zero = crate::text::text_eq(size_str, "0");
    if zero {
        return Ok(0);
    }
    let upper = to_upper(size_str);
    parse_uppercased_size(upper.as_str())
}

} // verus!
