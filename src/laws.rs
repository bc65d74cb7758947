//! Properties that relate the library's functions to each other, proved once for
//! every input.
use vstd::prelude::*;
use crate::bandwidth::{
    bandwidth_value, decimal_parts, is_point_split, pow1024, scaled_floor,
    signed_decimal, unit_power, BandwidthFault,
};
use crate::cache::{expiry, is_live, live_part, lookup_result, CacheEntry};
use crate::collector::{arc_of_counters, observed, rate_value};
use crate::kstat::KstatCounters;
use crate::rate::{per_second_of, rate_between, Observation, Timestamp};
use crate::text::{all_digits, is_digit, is_ws, trim, trim_end, trim_start, u64_of, unsigned_digits};
use crate::types::Percent;

verus! {

/// The hit rate of an ARC record is `100 * hits / (hits + misses)` of the counters it
/// was made from, and zero when there were no accesses.
pub proof fn arc_hit_rate_law(c: KstatCounters, m: Map<Seq<char>, Observation>, now: Timestamp)
    ensures
        c.hits + c.misses > 0 ==> arc_of_counters(c, m, now).hit_rate == (Percent {
            num: (100 * c.hits) as u128,
            den: (c.hits + c.misses) as u128,
        }),
        c.hits + c.misses == 0 ==> arc_of_counters(c, m, now).hit_rate.num == 0,
{
}

proof fn lemma_trim_plain(s: Seq<char>)
    requires
        s.len() > 0,
        !is_ws(s[0]),
        !is_ws(s.last()),
    ensures
        trim(s) == s,
{
    assert(trim_start(s) == s);
    assert(trim_end(s) == s);
}

/// `<digits>.<digits><unit>` with a unit letter B, K, M, G or T in either case is the
/// number times the unit's power of 1024, truncated, where that fits in 64 bits.
pub proof fn bandwidth_with_point_law(i: Seq<char>, f: Seq<char>, u: char)
    requires
        i.len() > 0,
        all_digits(i),
        all_digits(f),
        unit_power(u) is Some,
        scaled_floor(i, f, pow1024(unit_power(u)->0)) <= u64::MAX,
    ensures
        bandwidth_value(i + seq!['.'] + f + seq![u]) == Ok::<u64, BandwidthFault>(
            scaled_floor(i, f, pow1024(unit_power(u)->0)) as u64,
        ),
{
    let n = i + seq!['.'] + f;
    let s = n + seq![u];
    assert(s[0] == i[0]);
    assert(is_digit(i[0]));
    assert(s.last() == u);
    lemma_trim_plain(s);
    assert(s != seq!['-']);
    assert(s.drop_last() == n);
    assert(n[0] == i[0]);
    let k = i.len() as int;
    assert(n.take(k) == i);
    assert(n.skip(k + 1) == f);
    assert(n[k] == '.');
    assert(is_point_split(n, k));
    assert(!all_digits(n)) by {
        assert(!is_digit(n[k]));
    }
    assert forall|j: int| #[trigger] is_point_split(n, j) implies j == k by {
        if j < k {
            assert(n[j] == i[j]);
            assert(is_digit(i[j]));
        } else if j > k {
            assert(n.take(j)[k] == '.');
            assert(!is_digit(n.take(j)[k]));
        }
    }
    assert(decimal_parts(n) == Some((i, f)));
    assert(signed_decimal(n) == Some((false, i, f)));
}

/// `<digits><unit>` with a unit letter B, K, M, G or T in either case is the number
/// times the unit's power of 1024, where that fits in 64 bits.
pub proof fn bandwidth_whole_law(i: Seq<char>, u: char)
    requires
        i.len() > 0,
        all_digits(i),
        unit_power(u) is Some,
        scaled_floor(i, Seq::empty(), pow1024(unit_power(u)->0)) <= u64::MAX,
    ensures
        bandwidth_value(i + seq![u]) == Ok::<u64, BandwidthFault>(
            scaled_floor(i, Seq::empty(), pow1024(unit_power(u)->0)) as u64,
        ),
        scaled_floor(i, Seq::empty(), pow1024(unit_power(u)->0)) == crate::text::decimal_value(i)
            * pow1024(unit_power(u)->0),
{
    let s = i + seq![u];
    assert(s[0] == i[0]);
    assert(is_digit(i[0]));
    assert(s.last() == u);
    lemma_trim_plain(s);
    assert(s != seq!['-']);
    assert(s.drop_last() == i);
    assert(decimal_parts(i) == Some((i, Seq::<char>::empty())));
    assert(signed_decimal(i) == Some((false, i, Seq::<char>::empty())));
    assert(crate::text::decimal_value(Seq::<char>::empty()) == 0);
    assert(crate::bandwidth::pow10(0) == 1);
    let m = pow1024(unit_power(u)->0) as int;
    assert(0 * m == 0) by (nonlinear_arith);
    assert(0int / 1int == 0);
}

/// The empty text and a lone dash stand for zero bytes.
pub proof fn bandwidth_empty_law()
    ensures
        bandwidth_value(Seq::empty()) == Ok::<u64, BandwidthFault>(0),
        bandwidth_value(seq!['-']) == Ok::<u64, BandwidthFault>(0),
{
}

/// A text whose last character is an ASCII letter other than B, K, M, G or T (in
/// either case) has no byte count.
pub proof fn bandwidth_unknown_unit_law(s: Seq<char>)
    requires
        s.len() > 0,
        ('a' <= s.last() <= 'z') || ('A' <= s.last() <= 'Z'),
        unit_power(s.last()) is None,
    ensures
        bandwidth_value(s) is Err,
{
    let x = s.last();
    assert(!is_ws(x));
    assert(s != seq!['-']);
    lemma_trim_start_keeps_last(s);
    let t0 = trim_start(s);
    assert(trim_end(t0) == t0);
    let t = trim(s);
    assert(t.last() == x);
    let d = unsigned_digits(t);
    assert(d.len() > 0 && d.last() == x);
    assert(!is_digit(d[d.len() - 1]));
    assert(u64_of(t) is None);
}

proof fn lemma_trim_start_keeps_last(s: Seq<char>)
    requires
        s.len() > 0,
        !is_ws(s.last()),
    ensures
        trim_start(s).len() > 0,
        trim_start(s).last() == s.last(),
    decreases s.len(),
{
    if is_ws(s[0]) {
        assert(s.len() > 1);
        assert(s.drop_first().last() == s.last());
        lemma_trim_start_keeps_last(s.drop_first());
    }
}

/// A second reading of a key: at the same instant the rate is zero, after a decrease
/// it is zero, and after growth `dv` over `dt > 0` nanoseconds it is `dv` per `dt`,
/// scaled to a second and truncated. A key that had no reading gives no rate.
pub proof fn second_reading_law(
    m: Map<Seq<char>, Observation>,
    key: Seq<char>,
    v1: u64,
    t1: Timestamp,
    v2: u64,
    t2: Timestamp,
)
    requires
        !m.contains_key(key),
    ensures
        rate_value(m, key, v1, t1) == 0,
        observed(m, key, v1, t1).contains_key(key),
        t2 == t1 ==> per_second_of(rate_between(observed(m, key, v1, t1)[key], v2, t2)) == 0,
        v2 < v1 ==> per_second_of(rate_between(observed(m, key, v1, t1)[key], v2, t2)) == 0,
        v2 >= v1 && t2.nanos > t1.nanos ==> per_second_of(
            rate_between(observed(m, key, v1, t1)[key], v2, t2),
        ) == (v2 - v1) * 1_000_000_000 / ((t2.nanos - t1.nanos) as int),
        per_second_of(rate_between(observed(m, key, v1, t1)[key], v2, t2)) >= 0,
{
    let s = rate_between(Observation { value: v1, at: t1 }, v2, t2);
    if s.elapsed_nanos > 0 {
        assert(s.delta * 1_000_000_000 / (s.elapsed_nanos as int) >= 0) by (nonlinear_arith)
            requires
                s.elapsed_nanos > 0,
        ;
    }
}

/// A reading of one key leaves every other key's reading as it was.
pub proof fn keys_independent_law(
    m: Map<Seq<char>, Observation>,
    k1: Seq<char>,
    k2: Seq<char>,
    v: u64,
    t: Timestamp,
)
    requires
        k1 != k2,
    ensures
        observed(m, k1, v, t).contains_key(k2) == m.contains_key(k2),
        m.contains_key(k2) ==> observed(m, k1, v, t)[k2] == m[k2],
        rate_value(observed(m, k1, v, t), k2, v, t) == rate_value(m, k2, v, t),
{
}

/// An entry inserted at `now` with time to live `ttl` is returned by every lookup
/// before `now + ttl` and by none at or after it.
pub proof fn cache_expiry_law<T>(
    m: Map<Seq<char>, CacheEntry<T>>,
    key: Seq<char>,
    value: T,
    now: Timestamp,
    ttl: u64,
    at: Timestamp,
    r: Option<&T>,
)
    requires
        now.nanos + ttl <= u64::MAX,
        lookup_result(m.insert(key, CacheEntry { value, expires_at: expiry(now, ttl) }), key, at, r),
    ensures
        at.nanos < now.nanos + ttl ==> (r matches Some(v) && *v == value),
        at.nanos >= now.nanos + ttl ==> r is None,
{
}

/// A cleanup at `now` keeps exactly the entries that are live then, unchanged.
pub proof fn cache_cleanup_law<T>(m: Map<Seq<char>, CacheEntry<T>>, now: Timestamp, k: Seq<char>)
    ensures
        live_part(m, now).contains_key(k) <==> (m.contains_key(k) && is_live(m[k], now)),
        live_part(m, now).contains_key(k) ==> live_part(m, now)[k] == m[k],
{
}

} // verus!
