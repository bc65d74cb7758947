//! Human-readable byte counts and rates.
use vstd::prelude::*;
use crate::bandwidth::pow1024;
use crate::text::{decimal_text, digit_char, push_decimal, push_lit, string_of};

verus! {

/// The unit letters, from bytes to pebibytes.
pub open spec fn unit_letter(k: nat) -> char {
    if k == 0 {
        'B'
    } else if k == 1 {
        'K'
    } else if k == 2 {
        'M'
    } else if k == 3 {
        'G'
    } else if k == 4 {
        'T'
    } else {
        'P'
    }
}

/// The largest unit, at most pebibytes, that `bytes` fills at least once.
pub open spec fn unit_of(bytes: u64) -> nat {
    if bytes >= pow1024(5) {
        5
    } else if bytes >= pow1024(4) {
        4
    } else if bytes >= pow1024(3) {
        3
    } else if bytes >= pow1024(2) {
        2
    } else if bytes >= pow1024(1) {
        1
    } else {
        0
    }
}

/// `bytes / 1024^k` in tenths, rounded to the nearest tenth, a tie to the even one.
pub open spec fn tenths(bytes: u64, k: nat) -> nat {
    let q = bytes * 10;
    let d = pow1024(k) as int;
    let t = q / d;
    let rem = q % d;
    if rem * 2 > d || (rem * 2 == d && t % 2 == 1) {
        (t + 1) as nat
    } else {
        t as nat
    }
}

/// `bytes` as a count and ` B` below a kibibyte; else in the largest unit it fills,
/// with one decimal and the unit letter, such as `1.5K` or `46.5G`.
pub open spec fn bytes_text(bytes: u64) -> Seq<char> {
    let k = unit_of(bytes);
    if k == 0 {
        decimal_text(bytes as nat) + " B"@
    } else {
        let t = tenths(bytes, k);
        decimal_text(t / 10) + seq!['.', digit_char((t % 10) as int), unit_letter(k)]
    }
}

proof fn lemma_pow1024_values()
    ensures
        pow1024(0) == 1,
        pow1024(1) == 1024,
        pow1024(2) == 1024 * 1024,
        pow1024(3) == 1024 * 1024 * 1024,
        pow1024(4) == 1024 * 1024 * 1024 * 1024,
        pow1024(5) == 1024 * 1024 * 1024 * 1024 * 1024,
{
    reveal_with_fuel(pow1024, 6);
}

/// Appends the text of `bytes` to `out`.
fn push_bytes(out: &mut Vec<char>, bytes: u64)
    ensures
        final(out)@ == old(out)@ + bytes_text(bytes),
{
    proof {
        lemma_pow1024_values();
        reveal_strlit(" B");
    }
    let mut k: usize = 0;
    let mut d: u64 = 1;
    while k < 5 && bytes / 1024 >= d
        invariant
            k <= 5,
            d == pow1024(k as nat),
            k > 0 ==> bytes >= d,
            pow1024(0) == 1,
            pow1024(1) == 1024,
            pow1024(2) == 1024 * 1024,
            pow1024(3) == 1024 * 1024 * 1024,
            pow1024(4) == 1024 * 1024 * 1024 * 1024,
            pow1024(5) == 1024 * 1024 * 1024 * 1024 * 1024,
        decreases 5 - k,
    {
        assert(bytes / 1024 >= d ==> bytes >= d * 1024) by (nonlinear_arith);
        d = d * 1024;
        k = k + 1;
    }
    assert(k < 5 ==> bytes < pow1024((k + 1) as nat)) by (nonlinear_arith)
        requires
            k < 5 ==> bytes / 1024 < d,
            k < 5 ==> pow1024((k + 1) as nat) == 1024 * d,
    ;
    assert(unit_of(bytes) == k);
    if k == 0 {
        push_decimal(out, bytes);
        push_lit(out, " B");
        return;
    }
    let q: u128 = bytes as u128 * 10;
    let t0 = q / d as u128;
    let rem = q % d as u128;
    let t = if rem * 2 > d as u128 || (rem * 2 == d as u128 && t0 % 2 == 1) {
        t0 + 1
    } else {
        t0
    };
    assert(t == tenths(bytes, k as nat));
    assert(t <= u64::MAX) by (nonlinear_arith)
        requires
            t <= t0 + 1,
            t0 == q / (d as u128),
            q == bytes * 10,
            d >= 1024,
    ;
    let t = t as u64;
    push_decimal(out, t / 10);
    out.push('.');
    out.push(digit_of(t % 10));
    out.push(letter(k));
    assert(out@ == old(out)@ + bytes_text(bytes));
}

fn digit_of(d: u64) -> (r: char)
    requires
        d < 10,
    ensures
        r == digit_char(d as int),
{
    let mut v: Vec<char> = Vec::new();
    push_decimal(&mut v, d);
    assert(v@ == decimal_text(d as nat));
    v[0]
}

fn letter(k: usize) -> (r: char)
    ensures
        r == unit_letter(k as nat),
{
    if k == 0 {
        'B'
    } else if k == 1 {
        'K'
    } else if k == 2 {
        'M'
    } else if k == 3 {
        'G'
    } else if k == 4 {
        'T'
    } else {
        'P'
    }
}

/// `bytes` in human-readable form: `512 B`, `1.5K`, `46.5G`.
pub fn format_bytes(bytes: u64) -> (r: String)
    ensures
        r@ == bytes_text(bytes),
{
    let mut v: Vec<char> = Vec::new();
    push_bytes(&mut v, bytes);
    assert(v@ == bytes_text(bytes));
    string_of(&v)
}

/// A current and a total size, such as `43.1G/46.5G`.
pub fn format_bytes_ratio(current: u64, total: u64) -> (r: String)
    ensures
        r@ == bytes_text(current) + "/"@ + bytes_text(total),
{
    let mut v: Vec<char> = Vec::new();
    push_bytes(&mut v, current);
    push_lit(&mut v, "/");
    push_bytes(&mut v, total);
    assert(v@ == bytes_text(current) + "/"@ + bytes_text(total));
    string_of(&v)
}

/// Bytes per second, such as `1.0M/s`.
pub fn format_rate(bytes_per_second: u64) -> (r: String)
    ensures
        r@ == bytes_text(bytes_per_second) + "/s"@,
{
    let mut v: Vec<char> = Vec::new();
    push_bytes(&mut v, bytes_per_second);
    push_lit(&mut v, "/s");
    assert(v@ == bytes_text(bytes_per_second) + "/s"@);
    string_of(&v)
}

/// Operations per second, such as `1000/s`.
pub fn format_ops_per_second(ops: u64) -> (r: String)
    ensures
        r@ == decimal_text(ops as nat) + "/s"@,
{
    let mut v: Vec<char> = Vec::new();
    push_decimal(&mut v, ops);
    push_lit(&mut v, "/s");
    assert(v@ == decimal_text(ops as nat) + "/s"@);
    string_of(&v)
}

} // verus!
