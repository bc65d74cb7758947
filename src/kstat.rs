//! The kernel ARC statistics dump: a header, then lines `<name> <type> <value>`.
use vstd::prelude::*;
use crate::text::{
    eq_lit, holds_all, lines, occurs_at, parse_u64, split_lines, split_ws, starts_with_lit, u64_of,
    words,
};

verus! {

/// The counters of the statistics dump that the monitor reads.
#[derive(Debug, Clone, Copy, PartialEq, Eq, Structural)]
pub struct KstatCounters {
    pub hits: u64,
    pub misses: u64,
    pub size: u64,
    pub c_max: u64,
    pub read_ops: u64,
    pub l2_hits: u64,
    pub l2_misses: u64,
    pub l2_size: u64,
    pub l2_read_bytes: u64,
}

/// All counters zero.
pub open spec fn no_counters() -> KstatCounters {
    KstatCounters {
        hits: 0,
        misses: 0,
        size: 0,
        c_max: 0,
        read_ops: 0,
        l2_hits: 0,
        l2_misses: 0,
        l2_size: 0,
        l2_read_bytes: 0,
    }
}

/// `c` with the counter called `name` set to `v`; unknown names change nothing.
pub open spec fn set_counter(c: KstatCounters, name: Seq<char>, v: u64) -> KstatCounters {
    if name == "hits"@ {
        KstatCounters { hits: v, ..c }
    } else if name == "misses"@ {
        KstatCounters { misses: v, ..c }
    } else if name == "size"@ {
        KstatCounters { size: v, ..c }
    } else if name == "c_max"@ {
        KstatCounters { c_max: v, ..c }
    } else if name == "read_ops"@ {
        KstatCounters { read_ops: v, ..c }
    } else if name == "l2_hits"@ {
        KstatCounters { l2_hits: v, ..c }
    } else if name == "l2_misses"@ {
        KstatCounters { l2_misses: v, ..c }
    } else if name == "l2_size"@ {
        KstatCounters { l2_size: v, ..c }
    } else if name == "l2_read_bytes"@ {
        KstatCounters { l2_read_bytes: v, ..c }
    } else {
        c
    }
}

/// The metric family a parse reads the counters of.
#[derive(Debug, Clone, Copy, PartialEq, Eq, Structural)]
pub enum Family {
    /// Hits, misses, size, maximum target size and read operations.
    Arc,
    /// The secondary cache's hits, misses, size and read bytes.
    L2,
}

/// Whether `name` is a counter of `family`.
pub open spec fn recognized(name: Seq<char>, family: Family) -> bool {
    match family {
        Family::Arc => name == "hits"@ || name == "misses"@ || name == "size"@ || name == "c_max"@
            || name == "read_ops"@,
        Family::L2 => name == "l2_hits"@ || name == "l2_misses"@ || name == "l2_size"@ || name
            == "l2_read_bytes"@,
    }
}

/// One line of the dump read into `acc`. A line of at least three words whose first
/// word does not start with `name` (the header) and is a counter of `family` must have
/// an unsigned integer as its third word, which sets that counter; an error holds the
/// bad word. Other lines change nothing.
pub open spec fn kstat_step(acc: Result<KstatCounters, Seq<char>>, raw: Seq<char>, family: Family) -> Result<
    KstatCounters,
    Seq<char>,
> {
    match acc {
        Err(_) => acc,
        Ok(c) => {
            let p = words(raw);
            if p.len() < 3 || occurs_at(p[0], "name"@, 0) || !recognized(p[0], family) {
                acc
            } else {
                match u64_of(p[2]) {
                    None => Err(p[2]),
                    Some(v) => Ok(set_counter(c, p[0], v)),
                }
            }
        },
    }
}

/// The counters of `family` after the lines `ls`, starting from zero.
pub open spec fn read_kstat(ls: Seq<Seq<char>>, family: Family) -> Result<KstatCounters, Seq<char>>
    decreases ls.len(),
{
    if ls.len() == 0 {
        Ok(no_counters())
    } else {
        kstat_step(read_kstat(ls.drop_last(), family), ls.last(), family)
    }
}

/// The counters of `family` in a statistics dump, or the value word of one of them
/// that is not a number.
pub open spec fn kstat_counters(text: Seq<char>, family: Family) -> Result<KstatCounters, Seq<char>> {
    read_kstat(lines(text), family)
}

/// Whether the dump has a line that starts with `l2_size`, which marks a secondary cache.
pub open spec fn has_l2_marker(text: Seq<char>) -> bool {
    exists|k: int| 0 <= k < lines(text).len() && occurs_at(#[trigger] lines(text)[k], "l2_size"@, 0)
}

fn is_recognized(name: &[char], family: Family) -> (r: bool)
    ensures
        r == recognized(name@, family),
{
    match family {
        Family::Arc => eq_lit(name, "hits") || eq_lit(name, "misses") || eq_lit(name, "size")
            || eq_lit(name, "c_max") || eq_lit(name, "read_ops"),
        Family::L2 => eq_lit(name, "l2_hits") || eq_lit(name, "l2_misses") || eq_lit(name, "l2_size")
            || eq_lit(name, "l2_read_bytes"),
    }
}

fn assign_counter(c: &mut KstatCounters, name: &[char], v: u64)
    ensures
        *final(c) == set_counter(*old(c), name@, v),
{
    if eq_lit(name, "hits") {
        c.hits = v;
    } else if eq_lit(name, "misses") {
        c.misses = v;
    } else if eq_lit(name, "size") {
        c.size = v;
    } else if eq_lit(name, "c_max") {
        c.c_max = v;
    } else if eq_lit(name, "read_ops") {
        c.read_ops = v;
    } else if eq_lit(name, "l2_hits") {
        c.l2_hits = v;
    } else if eq_lit(name, "l2_misses") {
        c.l2_misses = v;
    } else if eq_lit(name, "l2_size") {
        c.l2_size = v;
    } else if eq_lit(name, "l2_read_bytes") {
        c.l2_read_bytes = v;
    }
}

/// The counters of `family` in the statistics dump `text`, or the value word of one of
/// them that is not a number.
pub fn parse_kstat(text: &[char], family: Family) -> (r: Result<KstatCounters, Vec<char>>)
    ensures
        match kstat_counters(text@, family) {
            Ok(c) => r == Ok::<KstatCounters, Vec<char>>(c),
            Err(w) => r matches Err(e) && e@ == w,
        },
{
    let ls = split_lines(text);
    let ghost sl = lines(text@);
    let mut acc = KstatCounters {
        hits: 0,
        misses: 0,
        size: 0,
        c_max: 0,
        read_ops: 0,
        l2_hits: 0,
        l2_misses: 0,
        l2_size: 0,
        l2_read_bytes: 0,
    };
    let mut i: usize = 0;
    while i < ls.len()
        invariant
            holds_all(ls@, sl),
            sl == lines(text@),
            i <= ls@.len(),
            read_kstat(sl.take(i as int), family) == Ok::<KstatCounters, Seq<char>>(acc),
        decreases ls.len() - i,
    {
        assert(sl.take(i + 1).drop_last() == sl.take(i as int));
        assert(sl.take(i + 1).last() == ls@[i as int]@);
        let parts = split_ws(&ls[i]);
        if parts.len() >= 3 && !starts_with_lit(&parts[0], "name") && is_recognized(&parts[0], family) {
            match parse_u64(&parts[2]) {
                None => {
                    proof {
                        lemma_kstat_error_stays(sl, i + 1, family);
                        assert(sl.take(sl.len() as int) == sl);
                    }
                    let bad = parts[2].clone();
                    return Err(bad);
                },
                Some(v) => {
                    assign_counter(&mut acc, &parts[0], v);
                },
            }
        }
        i = i + 1;
    }
    assert(sl.take(sl.len() as int) == sl);
    Ok(acc)
}

proof fn lemma_kstat_error_stays(ls: Seq<Seq<char>>, k: int, family: Family)
    requires
        0 <= k <= ls.len(),
        read_kstat(ls.take(k), family) is Err,
    ensures
        read_kstat(ls, family) == read_kstat(ls.take(k), family),
    decreases ls.len(),
{
    if ls.len() == k {
        assert(ls.take(k) == ls);
    } else {
        assert(ls.drop_last().take(k) == ls.take(k));
        lemma_kstat_error_stays(ls.drop_last(), k, family);
    }
}

/// Whether the statistics dump `text` has a secondary-cache size line.
pub fn has_l2_size(text: &[char]) -> (r: bool)
    ensures
        r == has_l2_marker(text@),
{
    let ls = split_lines(text);
    let ghost sl = lines(text@);
    let mut i: usize = 0;
    while i < ls.len()
        invariant
            holds_all(ls@, sl),
            sl == lines(text@),
            i <= ls@.len(),
            forall|k: int| 0 <= k < i ==> !occurs_at(#[trigger] sl[k], "l2_size"@, 0),
        decreases ls.len() - i,
    {
        assert(ls@[i as int]@ == sl[i as int]);
        if starts_with_lit(&ls[i], "l2_size") {
            return true;
        }
        i = i + 1;
    }
    false
}

} // verus!
