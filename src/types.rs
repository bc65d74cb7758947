//! The records that a collection produces, and the cache-performance classes.
use vstd::prelude::*;
use vstd::arithmetic::div_mod::{lemma_fundamental_div_mod, lemma_mod_pos_bound};

verus! {

/// A percentage held exactly as the fraction `num / den`.
#[derive(Debug, Clone, Copy, PartialEq, Eq, Structural)]
pub struct Percent {
    pub num: u128,
    pub den: u128,
}

/// `100 * hits / (hits + misses)` as a fraction; zero when there were no accesses.
pub open spec fn hit_percent(hits: u64, misses: u64) -> Percent {
    if hits + misses > 0 {
        Percent { num: (100 * hits) as u128, den: (hits + misses) as u128 }
    } else {
        Percent { num: 0, den: 1 }
    }
}

/// The hit rate of `hits` hits and `misses` misses, in percent.
pub fn hit_rate(hits: u64, misses: u64) -> (r: Percent)
    ensures
        r == hit_percent(hits, misses),
        r.den > 0,
{
    let total: u128 = hits as u128 + misses as u128;
    if total > 0 {
        Percent { num: 100 * hits as u128, den: total }
    } else {
        Percent { num: 0, den: 1 }
    }
}

/// Primary cache performance of one collection.
#[derive(Debug, Clone, Copy, PartialEq, Eq, Structural)]
pub struct ArcSample {
    /// Hit rate in percent.
    pub hit_rate: Percent,
    /// Current size in bytes.
    pub size: u64,
    /// Target size in bytes.
    pub target: u64,
    /// Read operations per second.
    pub read_ops: u64,
}

/// Secondary cache performance of one collection.
#[derive(Debug, Clone, Copy, PartialEq, Eq, Structural)]
pub struct L2ArcSample {
    /// Hit rate in percent.
    pub hit_rate: Percent,
    /// Size in bytes.
    pub size: u64,
    /// Bytes read per second.
    pub read_bytes: u64,
    /// Operations per second.
    pub total_ops: u64,
}

/// Separate intent log activity of one collection.
#[derive(Debug)]
pub struct SlogSample {
    /// The device, such as `mirror-1`.
    pub device: String,
    /// Write operations per second.
    pub write_ops: u64,
    /// Bytes written per second.
    pub write_bw: u64,
}

/// Cache performance class of a hit rate.
#[derive(Debug, Clone, Copy, PartialEq, Eq, Structural)]
pub enum CacheStatus {
    Excellent,
    Good,
    Fair,
    Poor,
}

/// The class of a hit rate of `p` percent: at least 85 is excellent, at least 70
/// good, at least 50 fair, and below that poor.
pub open spec fn status_of(p: Percent) -> CacheStatus {
    if p.num >= 85 * p.den {
        CacheStatus::Excellent
    } else if p.num >= 70 * p.den {
        CacheStatus::Good
    } else if p.num >= 50 * p.den {
        CacheStatus::Fair
    } else {
        CacheStatus::Poor
    }
}

proof fn lemma_at_least(n: int, d: int, k: int)
    requires
        n >= 0,
        d >= 0,
        k > 0,
    ensures
        (n / k >= d) == (n >= k * d),
{
    let q = n / k;
    let r = n % k;
    lemma_fundamental_div_mod(n, k);
    lemma_mod_pos_bound(n, k);
    if q >= d {
        assert(k * q >= k * d) by (nonlinear_arith)
            requires
                q >= d,
                k > 0,
        ;
    } else {
        assert(k * q <= k * (d - 1)) by (nonlinear_arith)
            requires
                q <= d - 1,
                k > 0,
        ;
        assert(k * (d - 1) == k * d - k) by (nonlinear_arith);
    }
}

impl CacheStatus {
    /// The class of the hit rate `hit_rate`.
    pub fn from_percent(hit_rate: Percent) -> (r: CacheStatus)
        ensures
            r == status_of(hit_rate),
    {
        let n = hit_rate.num;
        let d = hit_rate.den;
        proof {
            lemma_at_least(n as int, d as int, 85);
            lemma_at_least(n as int, d as int, 70);
            lemma_at_least(n as int, d as int, 50);
        }
        if n / 85 >= d {
            CacheStatus::Excellent
        } else if n / 70 >= d {
            CacheStatus::Good
        } else if n / 50 >= d {
            CacheStatus::Fair
        } else {
            CacheStatus::Poor
        }
    }

    /// The name of the class.
    pub fn label(&self) -> (r: &'static str)
        ensures
            r@ == match self {
                CacheStatus::Excellent => "Excellent"@,
                CacheStatus::Good => "Good"@,
                CacheStatus::Fair => "Fair"@,
                CacheStatus::Poor => "Poor"@,
            },
    {
        match self {
            CacheStatus::Excellent => "Excellent",
            CacheStatus::Good => "Good",
            CacheStatus::Fair => "Fair",
            CacheStatus::Poor => "Poor",
        }
    }
}

} // verus!
