//! Human-readable sizes such as `12.0M` or `1.82T`, turned into byte counts.
use vstd::prelude::*;
use vstd::arithmetic::div_mod::{lemma_div_denominator, lemma_hoist_over_denominator};
use crate::error::{ZfsError, ZfsResult};
use crate::text::{
    all_digits, decimal_value, eq_lit, is_digit, only_digits,
    parse_u64, slice, to_chars, trim, trim_chars, u64_of,
};

verus! {

pub open spec fn pow10(n: nat) -> nat
    decreases n,
{
    if n == 0 {
        1
    } else {
        10 * pow10((n - 1) as nat)
    }
}

pub open spec fn pow1024(k: nat) -> nat
    decreases k,
{
    if k == 0 {
        1
    } else {
        1024 * pow1024((k - 1) as nat)
    }
}

/// The power of 1024 that a unit letter stands for, in either case:
/// B, K, M, G and T.
pub open spec fn unit_power(c: char) -> Option<nat> {
    if c == 'B' || c == 'b' {
        Some(0)
    } else if c == 'K' || c == 'k' {
        Some(1)
    } else if c == 'M' || c == 'm' {
        Some(2)
    } else if c == 'G' || c == 'g' {
        Some(3)
    } else if c == 'T' || c == 't' {
        Some(4)
    } else {
        None
    }
}

/// Whether `b` is digits, a point at index `k`, then digits, with at least one digit.
pub open spec fn is_point_split(b: Seq<char>, k: int) -> bool {
    0 <= k < b.len() && b[k] == '.' && all_digits(b.take(k)) && all_digits(b.skip(k + 1))
        && b.len() >= 2
}

/// The digits before and after the point of an unsigned decimal such as
/// `12`, `1.5`, `.5` or `3.`.
pub open spec fn decimal_parts(b: Seq<char>) -> Option<(Seq<char>, Seq<char>)> {
    if b.len() > 0 && all_digits(b) {
        Some((b, Seq::empty()))
    } else if exists|k: int| is_point_split(b, k) {
        let k = choose|k: int| is_point_split(b, k);
        Some((b.take(k), b.skip(k + 1)))
    } else {
        None
    }
}

/// A decimal with an optional sign: whether it is negative, and its parts.
pub open spec fn signed_decimal(s: Seq<char>) -> Option<(bool, Seq<char>, Seq<char>)> {
    let negative = s.len() > 0 && s[0] == '-';
    let body = if s.len() > 0 && (s[0] == '+' || s[0] == '-') {
        s.drop_first()
    } else {
        s
    };
    match decimal_parts(body) {
        Some(parts) => Some((negative, parts.0, parts.1)),
        None => None,
    }
}

/// The whole part of `(i.f) * m`, for the digits `i` and `f`.
pub open spec fn scaled_floor(i: Seq<char>, f: Seq<char>, m: nat) -> nat {
    decimal_value(i) * m + decimal_value(f) * m / pow10(f.len())
}

/// `x` as a 64-bit count, the largest one where it does not fit.
pub open spec fn saturate(x: nat) -> u64 {
    if x > u64::MAX {
        u64::MAX
    } else {
        x as u64
    }
}

/// The byte count of a signed decimal times `m`, truncated: none for a negative one.
pub open spec fn scaled_count(s: Seq<char>, m: nat) -> Option<u64> {
    match signed_decimal(s) {
        Some(d) => Some(
            if d.0 {
                0
            } else {
                saturate(scaled_floor(d.1, d.2, m))
            },
        ),
        None => None,
    }
}

/// Why a bandwidth text has no byte count.
#[derive(Debug, Clone, Copy, PartialEq, Eq, Structural)]
pub enum BandwidthFault {
    /// Nothing but whitespace.
    Blank,
    /// No unit letter, and not an unsigned integer.
    BadInteger,
    /// A unit letter after something that is not a decimal.
    BadNumber,
}

/// The byte count that a bandwidth text stands for. Empty and `-` stand for zero.
/// Otherwise, once trimmed, a last letter B, K, M, G or T (either case) multiplies
/// the decimal before it by a power of 1024 and the product is truncated; without
/// such a letter the whole text is an unsigned integer.
pub open spec fn bandwidth_value(s: Seq<char>) -> Result<u64, BandwidthFault> {
    if s.len() == 0 || s == seq!['-'] {
        Ok(0)
    } else {
        let t = trim(s);
        if t.len() == 0 {
            Err(BandwidthFault::Blank)
        } else {
            match unit_power(t.last()) {
                None => match u64_of(t) {
                    Some(n) => Ok(n),
                    None => Err(BandwidthFault::BadInteger),
                },
                Some(k) => match scaled_count(t.drop_last(), pow1024(k)) {
                    Some(n) => Ok(n),
                    None => Err(BandwidthFault::BadNumber),
                },
            }
        }
    }
}

/// Whether `r` is the result that `parse_bandwidth` owes for a text with outcome `v`.
pub open spec fn bandwidth_result(v: Result<u64, BandwidthFault>, r: ZfsResult<u64>) -> bool {
    match v {
        Ok(n) => r == Ok::<u64, ZfsError>(n),
        Err(BandwidthFault::Blank) => r matches Err(ZfsError::InvalidFormat { context, .. })
            && context@ == "bandwidth parsing"@,
        Err(BandwidthFault::BadInteger) => r matches Err(ZfsError::ParseError { data_source, .. })
            && data_source@ == "bandwidth"@,
        Err(BandwidthFault::BadNumber) => r matches Err(ZfsError::ParseError { data_source, .. })
            && data_source@ == "bandwidth number"@,
    }
}

proof fn lemma_pow10_positive(n: nat)
    ensures
        pow10(n) >= 1,
    decreases n,
{
    if n > 0 {
        lemma_pow10_positive((n - 1) as nat);
    }
}

proof fn lemma_decimal_prepend(c: char, f: Seq<char>)
    requires
        is_digit(c),
        all_digits(f),
    ensures
        decimal_value(seq![c] + f) == (c as int - '0' as int) * pow10(f.len()) + decimal_value(
            f,
        ),
    decreases f.len(),
{
    let g = seq![c] + f;
    let d = c as int - '0' as int;
    if f.len() == 0 {
        assert(g.drop_last() == Seq::<char>::empty());
        assert(g.last() == c);
        assert(pow10(0) == 1);
        assert(decimal_value(g) == decimal_value(g.drop_last()) * 10 + d);
    } else {
        let fd = f.drop_last();
        assert(g.drop_last() == seq![c] + fd);
        assert(g.last() == f.last());
        assert(is_digit(f[f.len() - 1]));
        assert(all_digits(fd)) by {
            assert forall|j: int| 0 <= j < fd.len() implies #[trigger] is_digit(fd[j]) by {
                assert(fd[j] == f[j]);
            }
        }
        let e = f.last() as int - '0' as int;
        assert(pow10(f.len()) == 10 * pow10(fd.len()));
        lemma_decimal_prepend(c, fd);
        let p = pow10(fd.len()) as int;
        let v = decimal_value(fd) as int;
        assert(decimal_value(g) == decimal_value(g.drop_last()) * 10 + e);
        assert(decimal_value(f) == v * 10 + e);
        assert(decimal_value(g.drop_last()) == d * p + v);
        assert((d * p + v) * 10 == d * (10 * p) + v * 10) by (nonlinear_arith);
    }
}

/// `min(value, 2^64)` of the digits `v`.
fn capped_decimal(v: &[char]) -> (r: u128)
    requires
        all_digits(v@),
    ensures
        r == if decimal_value(v@) > u64::MAX as nat + 1 {
            u64::MAX as nat + 1
        } else {
            decimal_value(v@)
        },
{
    let cap: u128 = u64::MAX as u128 + 1;
    let mut acc: u128 = 0;
    let mut i: usize = 0;
    while i < v.len()
        invariant
            i <= v@.len(),
            all_digits(v@),
            cap == u64::MAX as nat + 1,
            acc == if decimal_value(v@.take(i as int)) > cap {
                cap as nat
            } else {
                decimal_value(v@.take(i as int))
            },
        decreases v.len() - i,
    {
        let ghost pre = v@.take(i + 1);
        assert(pre.drop_last() == v@.take(i as int));
        assert(is_digit(v@[i as int]));
        let digit = (v[i] as u32 - '0' as u32) as u128;
        if acc < cap {
            acc = acc * 10 + digit;
            if acc > cap {
                acc = cap;
            }
        } else {
            assert(decimal_value(pre) >= decimal_value(v@.take(i as int)));
        }
        i = i + 1;
    }
    assert(v@.take(v@.len() as int) == v@);
    acc
}

/// The whole part of `0.f * m`, for the digits `f`.
fn scaled_fraction(f: &[char], m: u64) -> (r: u64)
    requires
        all_digits(f@),
        1 <= m <= 1024 * 1024 * 1024 * 1024,
    ensures
        r == decimal_value(f@) * m / (pow10(f@.len()) as int),
        r < m,
{
    let n = f.len();
    let mut acc: u64 = 0;
    let mut i: usize = n;
    proof {
        assert(f@.subrange(n as int, n as int) == Seq::<char>::empty());
        assert(decimal_value(Seq::<char>::empty()) == 0);
        assert(pow10(0) == 1);
        assert(0 * (m as int) / 1 == 0);
    }
    while i > 0
        invariant
            i <= n,
            n == f@.len(),
            all_digits(f@),
            1 <= m <= 1024 * 1024 * 1024 * 1024,
            acc < m,
            acc == decimal_value(f@.subrange(i as int, n as int)) * m / (pow10((n - i) as nat) as int),
        decreases i,
    {
        assert(is_digit(f@[i - 1]));
        let digit = (f[i - 1] as u32 - '0' as u32) as u64;
        let ghost t = f@.subrange(i as int, n as int);
        let ghost v = decimal_value(t) as int;
        let ghost p = pow10((n - i) as nat) as int;
        let ghost mm = m as int;
        let ghost d = digit as int;
        proof {
            assert(f@.subrange(i - 1, n as int) == seq![f@[i - 1]] + t);
            assert(all_digits(t)) by {
                assert forall|j: int| 0 <= j < t.len() implies #[trigger] is_digit(t[j]) by {
                    assert(t[j] == f@[i + j]);
                }
            }
            lemma_decimal_prepend(f@[i - 1], t);
            lemma_pow10_positive((n - i) as nat);
            assert(pow10((n - i + 1) as nat) == 10 * p);
            assert(v * mm >= 0) by (nonlinear_arith)
                requires
                    v >= 0,
                    mm >= 0,
            ;
            lemma_hoist_over_denominator(v * mm, d * mm, p as nat);
            assert((d * p + v) * mm == v * mm + (d * mm) * p) by (nonlinear_arith);
            lemma_div_denominator((d * p + v) * mm, p, 10);
            assert(p * 10 == 10 * p);
        }
        assert(digit * m + acc < 10 * m) by (nonlinear_arith)
            requires
                digit <= 9,
                acc < m,
        ;
        acc = (digit * m + acc) / 10;
        i = i - 1;
    }
    assert(f@.subrange(0, n as int) == f@);
    acc
}

/// The index of the first point in `b`, or its length where it has none.
fn first_point(b: &[char]) -> (k: usize)
    ensures
        k <= b@.len(),
        k < b@.len() ==> b@[k as int] == '.',
        forall|j: int| 0 <= j < k ==> b@[j] != '.',
{
    let mut k: usize = 0;
    while k < b.len() && b[k] != '.'
        invariant
            k <= b@.len(),
            forall|j: int| 0 <= j < k ==> b@[j] != '.',
        decreases b.len() - k,
    {
        k = k + 1;
    }
    k
}

/// The digits before and after the point of the unsigned decimal `b`.
pub fn split_decimal(b: &[char]) -> (r: Option<(Vec<char>, Vec<char>)>)
    ensures
        match decimal_parts(b@) {
            Some(parts) => r matches Some(v) && v.0@ == parts.0 && v.1@ == parts.1,
            None => r is None,
        },
        r matches Some(v) ==> all_digits(v.0@) && all_digits(v.1@),
{
    let k = first_point(b);
    let int_part = slice(b, 0, k);
    let frac_part = if k < b.len() {
        slice(b, k + 1, b.len())
    } else {
        Vec::new()
    };
    let valid = int_part.len() + frac_part.len() > 0 && only_digits(&int_part) && only_digits(
        &frac_part,
    );
    proof {
        if k == b@.len() {
            assert(int_part@ == b@);
            assert forall|j: int| !is_point_split(b@, j) by {}
        } else {
            assert(!is_digit(b@[k as int]));
            assert(int_part@ == b@.take(k as int));
            assert(frac_part@ == b@.skip(k + 1));
            assert forall|j: int| #[trigger] is_point_split(b@, j) implies j == k by {
                if j < k {
                    assert(b@[j] != '.');
                } else if j > k {
                    assert(b@.take(j)[k as int] == '.');
                    assert(!is_digit(b@.take(j)[k as int]));
                }
            }
            if valid {
                assert(is_point_split(b@, k as int));
            }
        }
    }
    if valid {
        Some((int_part, frac_part))
    } else {
        None
    }
}

/// The byte count of the signed decimal `s` times `m`.
fn parse_scaled(s: &[char], m: u64) -> (r: Option<u64>)
    requires
        1 <= m <= 1024 * 1024 * 1024 * 1024,
    ensures
        r == scaled_count(s@, m as nat),
{
    let negative = s.len() > 0 && s[0] == '-';
    let start: usize = if s.len() > 0 && (s[0] == '+' || s[0] == '-') {
        1
    } else {
        0
    };
    let body = slice(s, start, s.len());
    let ghost b = body@;
    assert(b == (if s@.len() > 0 && (s@[0] == '+' || s@[0] == '-') {
        s@.drop_first()
    } else {
        s@
    }));
    let parts = split_decimal(&body);
    let (int_part, frac_part) = match parts {
        Some(p) => p,
        None => {
            return None;
        },
    };
    if negative {
        return Some(0);
    }
    let whole = capped_decimal(&int_part);
    let part = scaled_fraction(&frac_part, m);
    let cap: u128 = u64::MAX as u128 + 1;
    assert(whole * m + part < cap * (1024 * 1024 * 1024 * 1024 + 1)) by (nonlinear_arith)
        requires
            cap == 0x1_0000_0000_0000_0000u128,
            whole <= cap,
            m <= 1024 * 1024 * 1024 * 1024,
            part < m,
    ;
    let total: u128 = whole * (m as u128) + part as u128;
    proof {
        if decimal_value(int_part@) > cap {
            assert(decimal_value(int_part@) * m >= decimal_value(int_part@)) by (nonlinear_arith)
                requires
                    m >= 1,
            ;
            assert(whole * m >= whole) by (nonlinear_arith)
                requires
                    m >= 1,
            ;
        }
    }
    if total > u64::MAX as u128 {
        Some(u64::MAX)
    } else {
        Some(total as u64)
    }
}

/// The multiplier of a unit letter, if `c` is one.
fn unit_multiplier(c: char) -> (r: Option<u64>)
    ensures
        match unit_power(c) {
            Some(k) => r == Some(pow1024(k) as u64) && 1 <= pow1024(k) <= 1024 * 1024 * 1024
                * 1024,
            None => r is None,
        },
{
    proof {
        reveal_with_fuel(pow1024, 5);
    }
    if c == 'B' || c == 'b' {
        Some(1)
    } else if c == 'K' || c == 'k' {
        Some(1024)
    } else if c == 'M' || c == 'm' {
        Some(1024 * 1024)
    } else if c == 'G' || c == 'g' {
        Some(1024 * 1024 * 1024)
    } else if c == 'T' || c == 't' {
        Some(1024 * 1024 * 1024 * 1024)
    } else {
        None
    }
}

/// The byte count that the characters `v` of a bandwidth text stand for.
pub fn bandwidth_of(v: &[char]) -> (r: Result<u64, BandwidthFault>)
    ensures
        r == bandwidth_value(v@),
{
    proof {
        reveal_strlit("-");
    }
    assert("-"@ =~= seq!['-']);
    if v.len() == 0 || eq_lit(v, "-") {
        return Ok(0);
    }
    let t = trim_chars(v);
    if t.len() == 0 {
        return Err(BandwidthFault::Blank);
    }
    match unit_multiplier(t[t.len() - 1]) {
        None => match parse_u64(&t) {
            Some(n) => Ok(n),
            None => Err(BandwidthFault::BadInteger),
        },
        Some(m) => {
            let number = slice(&t, 0, t.len() - 1);
            assert(number@ == t@.drop_last());
            match parse_scaled(&number, m) {
                Some(n) => Ok(n),
                None => Err(BandwidthFault::BadNumber),
            }
        },
    }
}

/// The error reported for a bandwidth text `data` that has no byte count.
pub fn bandwidth_error(fault: BandwidthFault, data: &str) -> (r: ZfsError)
    ensures
        bandwidth_result(Err(fault), Err(r)),
{
    proof {
        reveal_strlit("bandwidth parsing");
        reveal_strlit("bandwidth");
        reveal_strlit("bandwidth number");
    }
    match fault {
        BandwidthFault::Blank => ZfsError::invalid_format(
            "non-empty string",
            "empty string",
            "bandwidth parsing",
        ),
        BandwidthFault::BadInteger => ZfsError::parse_error(
            "bandwidth",
            data,
            "Invalid number format",
        ),
        BandwidthFault::BadNumber => ZfsError::parse_error(
            "bandwidth number",
            data,
            "Invalid numeric value",
        ),
    }
}

/// The byte count that a bandwidth text such as `12.0M`, `1.82T`, `1024`, `-` or the
/// empty text stands for.
pub fn parse_bandwidth(bw: &str) -> (r: ZfsResult<u64>)
    ensures
        bandwidth_result(bandwidth_value(bw@), r),
{
    let v = to_chars(bw);
    match bandwidth_of(&v) {
        Ok(n) => Ok(n),
        Err(fault) => Err(bandwidth_error(fault, bw)),
    }
}

} // verus!
