//! The statistics collector: which source each metric family is read from, in
//! what order the sources are tried, and how raw counters become records.
//! The collector decides; its caller reads files and runs commands.
use vstd::prelude::*;
use crate::bandwidth::{
    bandwidth_result, bandwidth_value, decimal_parts, parse_bandwidth, pow10, split_decimal,
};
use crate::cache::{Cache, CacheEntry, expiry, DEFAULT_TTL_NANOS};
use crate::clock::Clock;
use crate::error::{ZfsError, ZfsResult};
use crate::kstat::{has_l2_marker, has_l2_size, kstat_counters, parse_kstat, Family, KstatCounters};
use crate::pool_output::{
    device_writes, log_device, parse_slog_device_from_status, parse_slog_stats_from_iostat,
    writes_result,
};
use crate::rate::{per_second_of, rate_between, Observation, RateCalculator, Timestamp};
use crate::text::{
    decimal_string, decimal_text, decimal_value, parse_u64, split_ws, to_chars, u64_of,
    words,
};
use crate::types::{hit_percent, hit_rate, ArcSample, L2ArcSample, Percent, SlogSample};

verus! {

/// Where the kernel publishes its ARC statistics.
pub const ARCSTATS_PATH: &'static str = "/proc/spl/kstat/zfs/arcstats";

/// How many variants of the rate-reporting command are tried.
pub const ARCSTAT_VARIANTS: usize = 3;

/// Seconds that one run of the rate-reporting command may take.
pub const ARCSTAT_TIMEOUT_SECS: u64 = 3;

/// The per-second rate that a reading of `value` at `now` under `key` gives against
/// the readings `m`: zero for a first reading.
pub open spec fn rate_value(m: Map<Seq<char>, Observation>, key: Seq<char>, value: u64, now: Timestamp) -> u64 {
    if m.contains_key(key) {
        let p = per_second_of(rate_between(m[key], value, now));
        if p > u64::MAX {
            u64::MAX
        } else {
            p as u64
        }
    } else {
        0
    }
}

/// The readings `m` after a reading of `value` at `now` under `key`.
pub open spec fn observed(m: Map<Seq<char>, Observation>, key: Seq<char>, value: u64, now: Timestamp) -> Map<Seq<char>, Observation> {
    m.insert(key, Observation { value, at: now })
}

/// The ARC record of kernel counters `c`, against the readings `m`.
pub open spec fn arc_of_counters(c: KstatCounters, m: Map<Seq<char>, Observation>, now: Timestamp) -> ArcSample {
    ArcSample {
        hit_rate: hit_percent(c.hits, c.misses),
        size: c.size,
        target: c.c_max,
        read_ops: rate_value(m, "arc_read_ops"@, c.read_ops, now),
    }
}

/// A percentage written as an unsigned decimal, such as `95.2`, held exactly;
/// none where it is not one or does not fit in 64-bit digits.
pub open spec fn percent_text(p: Seq<char>) -> Option<Percent> {
    match decimal_parts(p) {
        Some(parts) => {
            let digits = parts.0 + parts.1;
            if parts.1.len() <= 19 && decimal_value(digits) <= u64::MAX {
                Some(Percent { num: decimal_value(digits) as u128, den: pow10(parts.1.len()) as u128 })
            } else {
                None
            }
        },
        None => None,
    }
}

/// Why output of the rate-reporting command was refused.
pub enum ArcstatFault {
    /// Fewer than four fields, with their number.
    TooFew(nat),
    HitRate,
    ReadOps,
    Size,
    Target,
}

/// The record of rate-reporting output: four or more fields, the hit-rate percentage,
/// then the read operations, current size and target size as unsigned integers.
pub open spec fn arcstat_record(text: Seq<char>) -> Result<ArcSample, ArcstatFault> {
    let p = words(text);
    if p.len() < 4 {
        Err(ArcstatFault::TooFew(p.len()))
    } else if percent_text(p[0]) is None {
        Err(ArcstatFault::HitRate)
    } else if u64_of(p[1]) is None {
        Err(ArcstatFault::ReadOps)
    } else if u64_of(p[2]) is None {
        Err(ArcstatFault::Size)
    } else if u64_of(p[3]) is None {
        Err(ArcstatFault::Target)
    } else {
        Ok(
            ArcSample {
                hit_rate: percent_text(p[0])->0,
                read_ops: u64_of(p[1])->0,
                size: u64_of(p[2])->0,
                target: u64_of(p[3])->0,
            },
        )
    }
}

/// Whether `r` is what `parse_arcstat_output` owes for the outcome `v`.
pub open spec fn arcstat_result(v: Result<ArcSample, ArcstatFault>, r: ZfsResult<ArcSample>) -> bool {
    match v {
        Ok(s) => r == Ok::<ArcSample, ZfsError>(s),
        Err(ArcstatFault::TooFew(n)) => r matches Err(ZfsError::InvalidFormat { expected, received, .. })
            && expected@ == "at least 4 space-separated numbers"@ && received@ == decimal_text(n) + " parts"@,
        Err(ArcstatFault::HitRate) => r matches Err(ZfsError::ParseError { data_source, .. })
            && data_source@ == "arcstat hit_rate"@,
        Err(ArcstatFault::ReadOps) => r matches Err(ZfsError::ParseError { data_source, .. })
            && data_source@ == "arcstat read_ops"@,
        Err(ArcstatFault::Size) => r matches Err(ZfsError::ParseError { data_source, .. })
            && data_source@ == "arcstat size"@,
        Err(ArcstatFault::Target) => r matches Err(ZfsError::ParseError { data_source, .. })
            && data_source@ == "arcstat target"@,
    }
}

/// `a + b`, or the largest 64-bit count where it does not fit.
pub open spec fn sat_add(a: u64, b: u64) -> u64 {
    if a + b > u64::MAX {
        u64::MAX
    } else {
        (a + b) as u64
    }
}

/// The secondary-cache record of kernel counters `c` against the readings `m`; the
/// operations (hits plus misses) are rated first, then the read bytes.
pub open spec fn l2arc_of_counters(c: KstatCounters, m: Map<Seq<char>, Observation>, now: Timestamp) -> L2ArcSample {
    let ops = sat_add(c.l2_hits, c.l2_misses);
    L2ArcSample {
        hit_rate: hit_percent(c.l2_hits, c.l2_misses),
        size: c.l2_size,
        total_ops: rate_value(m, "l2_total_ops"@, ops, now),
        read_bytes: rate_value(observed(m, "l2_total_ops"@, ops, now), "l2_read_bytes"@, c.l2_read_bytes, now),
    }
}

/// The readings after a secondary-cache record of counters `c` was made.
pub open spec fn l2arc_observed(c: KstatCounters, m: Map<Seq<char>, Observation>, now: Timestamp) -> Map<Seq<char>, Observation> {
    let ops = sat_add(c.l2_hits, c.l2_misses);
    observed(observed(m, "l2_total_ops"@, ops, now), "l2_read_bytes"@, c.l2_read_bytes, now)
}

/// The rate key of the write operations of device `d`.
pub open spec fn write_ops_key(d: Seq<char>) -> Seq<char> {
    "slog_"@ + d + "_write_ops"@
}

/// The rate key of the written bytes of device `d`.
pub open spec fn write_bw_key(d: Seq<char>) -> Seq<char> {
    "slog_"@ + d + "_write_bw"@
}

/// Whether `r` and the readings `m2` are what finishing SLOG collection for device `d`
/// with I/O statistics text `io` at `now` owes, from the readings `m`: the device's
/// cumulative writes rated under its own keys, operations first.
pub open spec fn slog_finished(
    m: Map<Seq<char>, Observation>,
    m2: Map<Seq<char>, Observation>,
    d: Seq<char>,
    io: Seq<char>,
    now: Timestamp,
    r: ZfsResult<Option<SlogSample>>,
) -> bool {
    match device_writes(io, d) {
        Ok(w) => {
            let m1 = observed(m, write_ops_key(d), w.0, now);
            &&& r matches Ok(Some(s)) && s.device@ == d && s.write_ops == rate_value(
                m,
                write_ops_key(d),
                w.0,
                now,
            ) && s.write_bw == rate_value(m1, write_bw_key(d), w.1, now)
            &&& m2 == observed(m1, write_bw_key(d), w.1, now)
        },
        Err(f) => {
            &&& r matches Err(e) && writes_result(Err(f), Err(e))
            &&& m2 == m
        },
    }
}

/// Whether `r` and the readings and cache `m2`, `c2` are what SLOG collection owes
/// once pool status text `status` is in hand at `now`, from readings `m` and cache `c`:
/// nothing where it names no log device; else the device's record from cached I/O
/// statistics text that is still live, or a request to run that command.
pub open spec fn slog_with_status_done(
    m: Map<Seq<char>, Observation>,
    m2: Map<Seq<char>, Observation>,
    c: Map<Seq<char>, CacheEntry<String>>,
    c2: Map<Seq<char>, CacheEntry<String>>,
    status: Seq<char>,
    now: Timestamp,
    r: SlogStep,
) -> bool {
    &&& c2 == c
    &&& match log_device(status) {
        None => r matches SlogStep::Done(Ok(None)) && m2 == m,
        Some(d) => if c.contains_key("zpool_iostat"@) && crate::cache::is_live(c["zpool_iostat"@], now) {
            r matches SlogStep::Done(res) && slog_finished(m, m2, d, c["zpool_iostat"@].value@, now, res)
        } else {
            r matches SlogStep::RunIostat { device } && device@ == d && m2 == m
        },
    }
}

/// The next thing to do while collecting ARC statistics.
pub enum ArcStep {
    /// Run variant `variant` of the rate-reporting command and report its output.
    Run { variant: usize },
    /// Collection is over.
    Done(ZfsResult<ArcSample>),
}

/// The next thing to do while collecting SLOG statistics.
pub enum SlogStep {
    /// Run the pool status command and report its output.
    RunStatus,
    /// Run the pool I/O statistics command and report its output.
    RunIostat { device: String },
    /// Collection is over.
    Done(ZfsResult<Option<SlogSample>>),
}

/// The percentage that `p` writes.
fn parse_percent(p: &[char]) -> (r: Option<Percent>)
    ensures
        r == percent_text(p@),
{
    let parts = split_decimal(p);
    match parts {
        None => None,
        Some((int_part, frac_part)) => {
            if frac_part.len() > 19 {
                return None;
            }
            let mut digits = int_part;
            let mut i: usize = 0;
            let ghost start = digits@;
            let mut den: u128 = 1;
            while i < frac_part.len()
                invariant
                    i <= frac_part@.len(),
                    frac_part@.len() <= 19,
                    digits@ == start + frac_part@.subrange(0, i as int),
                    den == pow10(i as nat),
                    den <= 10_000_000_000_000_000_000u128,
                decreases frac_part.len() - i,
            {
                digits.push(frac_part[i]);
                assert(frac_part@.subrange(0, i + 1) == frac_part@.subrange(0, i as int).push(frac_part@[i as int]));
                assert(pow10((i + 1) as nat) == 10 * pow10(i as nat));
                proof {
                    lemma_pow10_bound((i + 1) as nat, 19);
                    lemma_pow10_19();
                }
                den = den * 10;
                i = i + 1;
            }
            assert(frac_part@.subrange(0, frac_part@.len() as int) == frac_part@);
            assert(digits@ == int_part@ + frac_part@);
            assert(crate::text::all_digits(digits@)) by {
                assert forall|j: int| 0 <= j < digits@.len() implies #[trigger] crate::text::is_digit(digits@[j]) by {
                    if j < int_part@.len() {
                        assert(digits@[j] == int_part@[j]);
                    } else {
                        assert(digits@[j] == frac_part@[j - int_part@.len()]);
                    }
                }
            }
            assert(crate::text::is_digit(digits@[0]));
            match parse_u64(&digits) {
                None => None,
                Some(n) => Some(Percent { num: n as u128, den }),
            }
        },
    }
}

proof fn lemma_pow10_19()
    ensures
        pow10(19) == 10_000_000_000_000_000_000,
{
    reveal_with_fuel(pow10, 20);
}

proof fn lemma_pow10_bound(i: nat, limit: nat)
    requires
        i <= limit,
    ensures
        pow10(i) <= pow10(limit),
        pow10(i) >= 1,
    decreases limit,
{
    if i < limit {
        lemma_pow10_bound(i, (limit - 1) as nat);
    } else if i > 0 {
        lemma_pow10_bound((i - 1) as nat, (i - 1) as nat);
    }
}

/// The record of rate-reporting command output, without rates.
pub fn parse_arcstat_output(output: &str) -> (r: ZfsResult<ArcSample>)
    ensures
        arcstat_result(arcstat_record(output@), r),
{
    proof {
        reveal_strlit("at least 4 space-separated numbers");
        reveal_strlit(" parts");
        reveal_strlit("arcstat hit_rate");
        reveal_strlit("arcstat read_ops");
        reveal_strlit("arcstat size");
        reveal_strlit("arcstat target");
    }
    let text = to_chars(output);
    let p = split_ws(&text);
    if p.len() < 4 {
        let mut received = decimal_string(p.len() as u64);
        received.append(" parts");
        return Err(
            ZfsError::invalid_format(
                "at least 4 space-separated numbers",
                received.as_str(),
                "arcstat output",
            ),
        );
    }
    let hit = match parse_percent(&p[0]) {
        None => {
            return Err(
                ZfsError::parse_error("arcstat hit_rate", "hit rate", "Invalid hit rate percentage"),
            );
        },
        Some(h) => h,
    };
    let read_ops = match parse_u64(&p[1]) {
        None => {
            return Err(
                ZfsError::parse_error("arcstat read_ops", "read operations", "Invalid read operations count"),
            );
        },
        Some(v) => v,
    };
    let size = match parse_u64(&p[2]) {
        None => {
            return Err(ZfsError::parse_error("arcstat size", "size", "Invalid cache size"));
        },
        Some(v) => v,
    };
    let target = match parse_u64(&p[3]) {
        None => {
            return Err(ZfsError::parse_error("arcstat target", "target", "Invalid target size"));
        },
        Some(v) => v,
    };
    Ok(ArcSample { hit_rate: hit, size, target, read_ops })
}

/// The rate key `slog_<device><suffix>`.
fn rate_key(device: &str, suffix: &str) -> (r: String)
    ensures
        r@ == "slog_"@ + device@ + suffix@,
{
    let mut k = String::from_str("slog_");
    k.append(device);
    k.append(suffix);
    k
}

/// The command and arguments of variant `variant` of the rate-reporting command,
/// in the order they are tried.
pub fn arcstat_command(variant: usize) -> (r: (&'static str, Vec<&'static str>))
    requires
        variant < ARCSTAT_VARIANTS,
    ensures
        variant == 0 ==> r.0@ == "arcstat"@ && r.1@.len() == 4 && r.1@[0]@ == "-f"@ && r.1@[1]@
            == "hit%,miss%,read,arcsz,c"@ && r.1@[2]@ == "1"@ && r.1@[3]@ == "1"@,
        variant == 1 ==> r.0@ == "arcstat"@ && r.1@.len() == 2 && r.1@[0]@ == "1"@ && r.1@[1]@
            == "1"@,
        variant == 2 ==> r.0@ == "echo"@ && r.1@.len() == 2 && r.1@[0]@ == "|"@ && r.1@[1]@
            == "arcstat"@,
{
    let mut args: Vec<&'static str> = Vec::new();
    if variant == 0 {
        args.push("-f");
        args.push("hit%,miss%,read,arcsz,c");
        args.push("1");
        args.push("1");
        ("arcstat", args)
    } else if variant == 1 {
        args.push("1");
        args.push("1");
        ("arcstat", args)
    } else {
        args.push("|");
        args.push("arcstat");
        ("echo", args)
    }
}

/// Collects ZFS cache statistics, keeping the last counter readings and a short-lived
/// cache of command output. Reading files and running commands is left to the caller,
/// through the capabilities the collector holds.
pub struct ZfsStatsCollector<E, F> {
    command_executor: E,
    filesystem_reader: F,
    rate_calculator: RateCalculator,
    cache: Cache<String>,
    clock: Clock,
}

impl<E, F> ZfsStatsCollector<E, F> {
    /// The last counter readings, by key.
    pub closed spec fn rates(&self) -> Map<Seq<char>, Observation> {
        self.rate_calculator@
    }

    /// The cached command output, by key.
    pub closed spec fn cached(&self) -> Map<Seq<char>, CacheEntry<String>> {
        self.cache@
    }

    /// How long cached command output lives, in nanoseconds.
    pub closed spec fn cache_ttl(&self) -> u64 {
        self.cache.default_ttl_nanos()
    }

    pub closed spec fn wf(&self) -> bool {
        self.rate_calculator.wf() && self.cache.wf()
    }

    /// A collector with no readings and an empty cache whose entries live thirty seconds.
    pub fn new(command_executor: E, filesystem_reader: F) -> (r: Self)
        ensures
            r.wf(),
            r.rates() == Map::<Seq<char>, Observation>::empty(),
            r.cached() == Map::<Seq<char>, CacheEntry<String>>::empty(),
            r.cache_ttl() == DEFAULT_TTL_NANOS,
    {
        ZfsStatsCollector {
            command_executor,
            filesystem_reader,
            rate_calculator: RateCalculator::new(),
            cache: Cache::with_ttl_nanos(DEFAULT_TTL_NANOS),
            clock: Clock::new(),
        }
    }

    /// The command runner.
    pub fn command_executor(&self) -> &E {
        &self.command_executor
    }

    /// The file reader.
    pub fn filesystem_reader(&self) -> &F {
        &self.filesystem_reader
    }

    /// The time on the collector's clock.
    pub fn now(&self) -> Timestamp {
        self.clock.now()
    }

    /// The counter readings.
    pub fn rate_calculator(&self) -> (r: &RateCalculator)
        requires
            self.wf(),
        ensures
            r@ == self.rates(),
            r.wf(),
    {
        &self.rate_calculator
    }

    /// The cache of command output.
    pub fn cache(&self) -> (r: &Cache<String>)
        requires
            self.wf(),
        ensures
            r@ == self.cached(),
            r.wf(),
    {
        &self.cache
    }

    /// Empties the cache of command output.
    pub fn clear_cache(&mut self)
        requires
            old(self).wf(),
        ensures
            final(self).wf(),
            final(self).cached() == Map::<Seq<char>, CacheEntry<String>>::empty(),
            final(self).rates() == old(self).rates(),
            final(self).cache_ttl() == old(self).cache_ttl(),
    {
        self.cache.clear();
    }

    /// Removes the cached output that has expired.
    pub fn cleanup_cache(&mut self)
        requires
            old(self).wf(),
        ensures
            final(self).wf(),
            exists|now: Timestamp| final(self).cached() == crate::cache::live_part(old(self).cached(), now),
            final(self).rates() == old(self).rates(),
            final(self).cache_ttl() == old(self).cache_ttl(),
    {
        let ghost before = self.cache@;
        self.cache.cleanup();
        let ghost now = choose|now: Timestamp| self.cache@ == crate::cache::live_part(before, now);
        assert(self.cached() == crate::cache::live_part(old(self).cached(), now));
    }

    /// The byte count of a bandwidth text.
    pub fn parse_bandwidth(&self, bw_str: &str) -> (r: ZfsResult<u64>)
        ensures
            bandwidth_result(bandwidth_value(bw_str@), r),
    {
        parse_bandwidth(bw_str)
    }

    /// The log device named in pool status text.
    pub fn parse_slog_device_from_status(&self, status_output: &str) -> (r: ZfsResult<Option<String>>)
        ensures
            r matches Ok(d) && match log_device(status_output@) {
                Some(n) => d matches Some(s) && s@ == n,
                None => d is None,
            },
    {
        parse_slog_device_from_status(status_output)
    }

    /// The cumulative write operations and write bytes of a device in pool I/O statistics.
    pub fn parse_slog_stats_from_iostat(&self, iostat_output: &str, device_name: &str) -> (r: ZfsResult<(u64, u64)>)
        ensures
            writes_result(device_writes(iostat_output@, device_name@), r),
    {
        parse_slog_stats_from_iostat(iostat_output, device_name)
    }

    /// The record of rate-reporting command output, without rates.
    pub fn parse_arcstat_output(&self, output: &str) -> (r: ZfsResult<ArcSample>)
        ensures
            arcstat_result(arcstat_record(output@), r),
    {
        parse_arcstat_output(output)
    }

    /// Records the reading `value` of `key` at `now`; its per-second rate, zero for a
    /// first reading.
    fn observe(&mut self, key: &str, value: u64, now: Timestamp) -> (r: u64)
        requires
            old(self).wf(),
        ensures
            final(self).wf(),
            r == rate_value(old(self).rates(), key@, value, now),
            final(self).rates() == observed(old(self).rates(), key@, value, now),
            final(self).cached() == old(self).cached(),
            final(self).cache_ttl() == old(self).cache_ttl(),
    {
        match self.rate_calculator.calculate_and_update(key, value, now) {
            Some(sample) => sample.per_second(),
            None => 0,
        }
    }

    /// The ARC record of the kernel statistics dump `content` read at `now`; the read
    /// operations become a rate.
    pub fn arc_from_kstat(&mut self, content: &str, now: Timestamp) -> (r: ZfsResult<ArcSample>)
        requires
            old(self).wf(),
        ensures
            final(self).wf(),
            final(self).cached() == old(self).cached(),
            final(self).cache_ttl() == old(self).cache_ttl(),
            match kstat_counters(content@, Family::Arc) {
                Ok(c) => r == Ok::<ArcSample, ZfsError>(arc_of_counters(c, old(self).rates(), now))
                    && final(self).rates() == observed(old(self).rates(), "arc_read_ops"@, c.read_ops, now),
                Err(_) => r matches Err(ZfsError::ParseError { data_source, .. })
                    && data_source@ == "ARC kstat"@ && final(self).rates() == old(self).rates(),
            },
    {
        proof {
            reveal_strlit("ARC kstat");
        }
        let text = to_chars(content);
        match parse_kstat(&text, Family::Arc) {
            Err(bad) => {
                let data = crate::text::string_of(&bad);
                Err(ZfsError::parse_error("ARC kstat", data.as_str(), "Invalid number"))
            },
            Ok(c) => {
                let read_ops = self.observe("arc_read_ops", c.read_ops, now);
                Ok(ArcSample { hit_rate: hit_rate(c.hits, c.misses), size: c.size, target: c.c_max, read_ops })
            },
        }
    }

    /// After the statistics file was read, with its text or why it could not be:
    /// its record where it parses, else the first variant of the command is next.
    pub fn arc_after_kstat(&mut self, read: Result<String, String>, now: Timestamp) -> (r: ArcStep)
        requires
            old(self).wf(),
        ensures
            final(self).wf(),
            final(self).cached() == old(self).cached(),
            final(self).cache_ttl() == old(self).cache_ttl(),
            match read {
                Ok(t) => match kstat_counters(t@, Family::Arc) {
                    Ok(c) => r == ArcStep::Done(Ok(arc_of_counters(c, old(self).rates(), now)))
                        && final(self).rates() == observed(old(self).rates(), "arc_read_ops"@, c.read_ops, now),
                    Err(_) => r == (ArcStep::Run { variant: 0 }) && final(self).rates() == old(self).rates(),
                },
                Err(_) => r == (ArcStep::Run { variant: 0 }) && final(self).rates() == old(self).rates(),
            },
    {
        match read {
            Ok(text) => match self.arc_from_kstat(text.as_str(), now) {
                Ok(sample) => ArcStep::Done(Ok(sample)),
                Err(_) => ArcStep::Run { variant: 0 },
            },
            Err(_) => ArcStep::Run { variant: 0 },
        }
    }

    /// After variant `variant` of the rate-reporting command ran, with its output or
    /// why it failed: its record where it parses, else the next variant, and when none
    /// is left the subsystem is unavailable.
    pub fn arc_after_command(&mut self, variant: usize, output: Result<String, String>, now: Timestamp) -> (r: ArcStep)
        requires
            old(self).wf(),
            variant < ARCSTAT_VARIANTS,
        ensures
            final(self).wf(),
            final(self).cached() == old(self).cached(),
            final(self).cache_ttl() == old(self).cache_ttl(),
            match output {
                Ok(t) if arcstat_record(t@) is Ok => {
                    let a = arcstat_record(t@)->Ok_0;
                    &&& r == ArcStep::Done(
                        Ok(ArcSample { read_ops: rate_value(old(self).rates(), "arc_read_ops"@, a.read_ops, now), ..a }),
                    )
                    &&& final(self).rates() == observed(old(self).rates(), "arc_read_ops"@, a.read_ops, now)
                },
                _ => {
                    &&& final(self).rates() == old(self).rates()
                    &&& if variant + 1 < ARCSTAT_VARIANTS {
                        r == (ArcStep::Run { variant: (variant + 1) as usize })
                    } else {
                        r matches ArcStep::Done(Err(ZfsError::SubsystemUnavailable { subsystem, .. }))
                            && subsystem@ == "ARC"@
                    }
                },
            },
    {
        proof {
            reveal_strlit("ARC");
        }
        if let Ok(text) = output {
            if let Ok(sample) = parse_arcstat_output(text.as_str()) {
                let read_ops = self.observe("arc_read_ops", sample.read_ops, now);
                return ArcStep::Done(Ok(ArcSample { read_ops, ..sample }));
            }
        }
        if variant + 1 < ARCSTAT_VARIANTS {
            ArcStep::Run { variant: variant + 1 }
        } else {
            ArcStep::Done(
                Err(
                    ZfsError::subsystem_unavailable(
                        "ARC",
                        "Failed to collect statistics from all sources (/proc and arcstat command)",
                    ),
                ),
            )
        }
    }

    /// The secondary-cache record of the kernel statistics dump `content` read at
    /// `now`; none where the dump has no secondary-cache size line.
    pub fn l2arc_from_kstat(&mut self, content: &str, now: Timestamp) -> (r: ZfsResult<Option<L2ArcSample>>)
        requires
            old(self).wf(),
        ensures
            final(self).wf(),
            final(self).cached() == old(self).cached(),
            final(self).cache_ttl() == old(self).cache_ttl(),
            if !has_l2_marker(content@) {
                r matches Ok(None) && final(self).rates() == old(self).rates()
            } else {
                match kstat_counters(content@, Family::L2) {
                    Ok(c) => r == Ok::<Option<L2ArcSample>, ZfsError>(Some(l2arc_of_counters(c, old(self).rates(), now)))
                        && final(self).rates() == l2arc_observed(c, old(self).rates(), now),
                    Err(_) => r matches Err(ZfsError::ParseError { data_source, .. })
                        && data_source@ == "L2ARC kstat"@ && final(self).rates() == old(self).rates(),
                }
            },
    {
        proof {
            reveal_strlit("L2ARC kstat");
        }
        let text = to_chars(content);
        if !has_l2_size(&text) {
            return Ok(None);
        }
        match parse_kstat(&text, Family::L2) {
            Err(bad) => {
                let data = crate::text::string_of(&bad);
                Err(ZfsError::parse_error("L2ARC kstat", data.as_str(), "Invalid number"))
            },
            Ok(c) => {
                let ops = c.l2_hits.saturating_add(c.l2_misses);
                let total_ops = self.observe("l2_total_ops", ops, now);
                let read_bytes = self.observe("l2_read_bytes", c.l2_read_bytes, now);
                Ok(Some(L2ArcSample { hit_rate: hit_rate(c.l2_hits, c.l2_misses), size: c.l2_size, read_bytes, total_ops }))
            },
        }
    }

    /// Finishes SLOG collection for `device` with I/O statistics text `iostat`.
    fn slog_finish(&mut self, device: String, iostat: &str, now: Timestamp) -> (r: ZfsResult<Option<SlogSample>>)
        requires
            old(self).wf(),
        ensures
            final(self).wf(),
            final(self).cached() == old(self).cached(),
            final(self).cache_ttl() == old(self).cache_ttl(),
            slog_finished(old(self).rates(), final(self).rates(), device@, iostat@, now, r),
    {
        match parse_slog_stats_from_iostat(iostat, device.as_str()) {
            Err(e) => Err(e),
            Ok((ops, bw)) => {
                let ops_key = rate_key(device.as_str(), "_write_ops");
                let bw_key = rate_key(device.as_str(), "_write_bw");
                let write_ops = self.observe(ops_key.as_str(), ops, now);
                let write_bw = self.observe(bw_key.as_str(), bw, now);
                Ok(Some(SlogSample { device, write_ops, write_bw }))
            },
        }
    }

    /// SLOG collection once pool status text is in hand.
    fn slog_with_status(&mut self, status: &str, now: Timestamp) -> (r: SlogStep)
        requires
            old(self).wf(),
        ensures
            final(self).wf(),
            final(self).cache_ttl() == old(self).cache_ttl(),
            slog_with_status_done(old(self).rates(), final(self).rates(), old(self).cached(), final(self).cached(), status@, now, r),
    {
        proof {
            reveal_strlit("zpool_iostat");
        }
        let found = parse_slog_device_from_status(status);
        let device = match found {
            Ok(Some(d)) => d,
            _ => {
                return SlogStep::Done(Ok(None));
            },
        };
        let cached = match self.cache.get_at("zpool_iostat", now) {
            Some(t) => Some(t.clone()),
            None => None,
        };
        match cached {
            Some(text) => SlogStep::Done(self.slog_finish(device, text.as_str(), now)),
            None => SlogStep::RunIostat { device },
        }
    }

    /// Starts SLOG collection at `now`: from cached pool status text that is still
    /// live, or by asking for the status command to run.
    pub fn slog_begin(&mut self, now: Timestamp) -> (r: SlogStep)
        requires
            old(self).wf(),
        ensures
            final(self).wf(),
            final(self).cache_ttl() == old(self).cache_ttl(),
            if old(self).cached().contains_key("zpool_status"@) && crate::cache::is_live(
                old(self).cached()["zpool_status"@],
                now,
            ) {
                slog_with_status_done(
                    old(self).rates(),
                    final(self).rates(),
                    old(self).cached(),
                    final(self).cached(),
                    old(self).cached()["zpool_status"@].value@,
                    now,
                    r,
                )
            } else {
                r is RunStatus && final(self).rates() == old(self).rates() && final(self).cached()
                    == old(self).cached()
            },
    {
        proof {
            reveal_strlit("zpool_status");
        }
        let cached = match self.cache.get_at("zpool_status", now) {
            Some(t) => Some(t.clone()),
            None => None,
        };
        match cached {
            Some(text) => self.slog_with_status(text.as_str(), now),
            None => SlogStep::RunStatus,
        }
    }

    /// After the pool status command ran at `now`, with its output or why it failed:
    /// output is cached under its command's key and collection goes on from it.
    pub fn slog_after_status(&mut self, output: Result<String, String>, now: Timestamp) -> (r: SlogStep)
        requires
            old(self).wf(),
        ensures
            final(self).wf(),
            final(self).cache_ttl() == old(self).cache_ttl(),
            match output {
                Ok(t) => {
                    let c1 = old(self).cached().insert(
                        "zpool_status"@,
                        CacheEntry { value: t, expires_at: expiry(now, old(self).cache_ttl()) },
                    );
                    slog_with_status_done(old(self).rates(), final(self).rates(), c1, final(self).cached(), t@, now, r)
                },
                Err(msg) => {
                    &&& r matches SlogStep::Done(Err(ZfsError::CommandError { command, message, .. }))
                        && command@ == "zpool"@ && message@ == msg@
                    &&& final(self).rates() == old(self).rates()
                    &&& final(self).cached() == old(self).cached()
                },
            },
    {
        match output {
            Ok(text) => {
                self.cache.insert_at(String::from_str("zpool_status"), text.clone(), now);
                self.slog_with_status(text.as_str(), now)
            },
            Err(msg) => SlogStep::Done(Err(ZfsError::command_error("zpool", &["status"], msg.as_str()))),
        }
    }

    /// After the pool I/O statistics command ran at `now` for `device`, with its output
    /// or why it failed: output is cached under its command's key and the device's
    /// record is made from it.
    pub fn slog_after_iostat(&mut self, device: String, output: Result<String, String>, now: Timestamp) -> (r: SlogStep)
        requires
            old(self).wf(),
        ensures
            final(self).wf(),
            final(self).cache_ttl() == old(self).cache_ttl(),
            match output {
                Ok(t) => {
                    &&& final(self).cached() == old(self).cached().insert(
                        "zpool_iostat"@,
                        CacheEntry { value: t, expires_at: expiry(now, old(self).cache_ttl()) },
                    )
                    &&& r matches SlogStep::Done(res) && slog_finished(old(self).rates(), final(self).rates(), device@, t@, now, res)
                },
                Err(msg) => {
                    &&& r matches SlogStep::Done(Err(ZfsError::CommandError { command, message, .. }))
                        && command@ == "zpool"@ && message@ == msg@
                    &&& final(self).rates() == old(self).rates()
                    &&& final(self).cached() == old(self).cached()
                },
            },
    {
        match output {
            Ok(text) => {
                self.cache.insert_at(String::from_str("zpool_iostat"), text.clone(), now);
                SlogStep::Done(self.slog_finish(device, text.as_str(), now))
            },
            Err(msg) => SlogStep::Done(
                Err(ZfsError::command_error("zpool", &["iostat", "-v"], msg.as_str())),
            ),
        }
    }
}

} // verus!
