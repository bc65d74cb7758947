//! Parsers for the text of the pool status and pool I/O statistics commands.
use vstd::prelude::*;
use crate::bandwidth::{
    bandwidth_error, bandwidth_of, bandwidth_result, bandwidth_value, BandwidthFault,
};
use crate::error::{ZfsError, ZfsResult};
use crate::text::{
    alphabetic, char_is_alphabetic, contains_lit, contains_lit_chars, holds_all,
    lemma_words_nonempty, lines, occurs_at, occurs_in, parse_u64, split_lines, split_ws,
    starts_with_lit, string_of, to_chars, trim, trim_chars, u64_of, words,
};

verus! {

/// How far a scan of status text for the log device has come.
pub enum StatusScan {
    /// No `logs` section seen yet.
    Outside,
    /// Inside the `logs` section.
    InLogs,
    /// The log device was found.
    Found(Seq<char>),
    /// The `logs` section ended without a device.
    Ended,
}

/// The trimmed status line `l` read in scan state `st`, where `letter` tells whether
/// `l` starts with an alphabetic character. Inside the `logs` section the first line
/// that starts with `mirror-` names the device by its first word; a line that starts
/// with a letter and holds no `ONLINE` ends the section.
pub open spec fn status_step_given(st: StatusScan, l: Seq<char>, letter: bool) -> StatusScan {
    match st {
        StatusScan::Found(_) => st,
        StatusScan::Ended => st,
        _ => {
            if occurs_at(l, "logs"@, 0) {
                StatusScan::InLogs
            } else if st is Outside || l.len() == 0 {
                st
            } else if occurs_at(l, "mirror-"@, 0) {
                StatusScan::Found(words(l)[0])
            } else if letter && !occurs_in(l, "ONLINE"@) {
                StatusScan::Ended
            } else {
                st
            }
        },
    }
}

/// One line of status text read in scan state `st`.
pub open spec fn status_step(st: StatusScan, raw: Seq<char>) -> StatusScan {
    let l = trim(raw);
    status_step_given(st, l, l.len() > 0 && alphabetic(l[0]))
}

/// What one status line does to a scan.
pub enum LineEffect {
    /// The scan goes on, inside the `logs` section or not.
    Stay(bool),
    /// The line names the log device.
    Device(String),
    /// The `logs` section ended without a device.
    Stop,
}

/// The effect of the trimmed status line `line` on a scan that is inside the `logs`
/// section or not, where `starts_with_letter` tells whether the line starts with an
/// alphabetic character.
pub fn status_line_effect(in_logs: bool, line: &[char], starts_with_letter: bool) -> (r: LineEffect)
    ensures
        match status_step_given(
            if in_logs {
                StatusScan::InLogs
            } else {
                StatusScan::Outside
            },
            line@,
            starts_with_letter,
        ) {
            StatusScan::Outside => r == LineEffect::Stay(false),
            StatusScan::InLogs => r == LineEffect::Stay(true),
            StatusScan::Found(d) => r matches LineEffect::Device(s) && s@ == d,
            StatusScan::Ended => r is Stop,
        },
{
    proof {
        reveal_strlit("logs");
        reveal_strlit("mirror-");
    }
    if starts_with_lit(line, "logs") {
        LineEffect::Stay(true)
    } else if in_logs && line.len() > 0 {
        if starts_with_lit(line, "mirror-") {
            proof {
                assert(line@.subrange(0, 7)[0] == line@[0]);
                lemma_words_of_prefixed(line@);
            }
            let parts = split_ws(line);
            LineEffect::Device(string_of(&parts[0]))
        } else if starts_with_letter && !contains_lit(line, "ONLINE") {
            LineEffect::Stop
        } else {
            LineEffect::Stay(true)
        }
    } else {
        LineEffect::Stay(in_logs)
    }
}

/// A text that starts with a character that is not whitespace has a word.
proof fn lemma_words_of_prefixed(s: Seq<char>)
    requires
        s.len() > 0,
        !crate::text::is_ws(s[0]),
    ensures
        words(s).len() > 0,
    decreases s.len(),
{
    if s.len() == 1 {
        lemma_words_nonempty(s);
    } else {
        lemma_words_of_prefixed(s.drop_last());
        assert(s.drop_last()[0] == s[0]);
        lemma_words_grow(s);
    }
}

proof fn lemma_words_grow(s: Seq<char>)
    requires
        s.len() > 0,
    ensures
        words(s).len() >= words(s.drop_last()).len(),
{
}

/// The scan state after the lines `ls`.
pub open spec fn scan_status(ls: Seq<Seq<char>>) -> StatusScan
    decreases ls.len(),
{
    if ls.len() == 0 {
        StatusScan::Outside
    } else {
        status_step(scan_status(ls.drop_last()), ls.last())
    }
}

/// The log device that status text names, if any.
pub open spec fn log_device(text: Seq<char>) -> Option<Seq<char>> {
    match scan_status(lines(text)) {
        StatusScan::Found(d) => Some(d),
        _ => None,
    }
}

/// The log device named in the `logs` section of pool status text, if there is one.
pub fn parse_slog_device_from_status(status_output: &str) -> (r: ZfsResult<Option<String>>)
    ensures
        r matches Ok(d) && match log_device(status_output@) {
            Some(n) => d matches Some(s) && s@ == n,
            None => d is None,
        },
{
    proof {
        reveal_strlit("logs");
        reveal_strlit("mirror-");
    }
    let text = to_chars(status_output);
    let ls = split_lines(&text);
    let ghost sl = lines(text@);
    let mut in_logs = false;
    let mut i: usize = 0;
    while i < ls.len()
        invariant
            holds_all(ls@, sl),
            sl == lines(status_output@),
            i <= ls@.len(),
            scan_status(sl.take(i as int)) == if in_logs {
                StatusScan::InLogs
            } else {
                StatusScan::Outside
            },
        decreases ls.len() - i,
    {
        let ghost st = scan_status(sl.take(i as int));
        assert(sl.take(i + 1).drop_last() == sl.take(i as int));
        assert(sl.take(i + 1).last() == ls@[i as int]@);
        let line = trim_chars(&ls[i]);
        let letter = line.len() > 0 && char_is_alphabetic(line[0]);
        match status_line_effect(in_logs, &line, letter) {
            LineEffect::Stay(b) => {
                in_logs = b;
            },
            LineEffect::Device(name) => {
                proof {
                    lemma_scan_final(sl, i + 1);
                    assert(sl.take(sl.len() as int) == sl);
                }
                return Ok(Some(name));
            },
            LineEffect::Stop => {
                proof {
                    lemma_scan_final(sl, i + 1);
                    assert(sl.take(sl.len() as int) == sl);
                }
                return Ok(None);
            },
        }
        i = i + 1;
    }
    assert(sl.take(sl.len() as int) == sl);
    Ok(None)
}

proof fn lemma_scan_final(ls: Seq<Seq<char>>, k: int)
    requires
        0 <= k <= ls.len(),
        scan_status(ls.take(k)) is Found || scan_status(ls.take(k)) is Ended,
    ensures
        scan_status(ls) == scan_status(ls.take(k)),
    decreases ls.len(),
{
    if ls.len() == k {
        assert(ls.take(k) == ls);
    } else {
        assert(ls.drop_last().take(k) == ls.take(k));
        lemma_scan_final(ls.drop_last(), k);
    }
}


/// Why a device row of I/O statistics could not be read.
pub enum RowFault {
    /// The write-operations field is not an unsigned integer.
    WriteOps,
    /// The write-bandwidth field has no byte count.
    Bandwidth(BandwidthFault),
}

/// The write operations (fifth field) and write bandwidth (seventh field) of a row
/// split into words.
pub open spec fn row_values(p: Seq<Seq<char>>) -> Result<(u64, u64), RowFault> {
    match u64_of(p[4]) {
        None => Err(RowFault::WriteOps),
        Some(ops) => match bandwidth_value(p[6]) {
            Ok(bw) => Ok((ops, bw)),
            Err(f) => Err(RowFault::Bandwidth(f)),
        },
    }
}

/// How far a scan of I/O statistics text for a device has come.
pub enum IostatScan {
    /// The device name has not been seen.
    Searching,
    /// A line naming the device was too short; the next data line holds its row.
    InDevice,
    /// The scan is over, with this outcome.
    Done(Result<(u64, u64), RowFault>),
}

/// One line of I/O statistics text read in scan state `st` while looking for `dev`.
/// A line that contains the device name and has at least seven fields is its row;
/// a shorter one makes the next non-empty line that does not start with `-` the row,
/// and if that line is short too the device counts zero.
pub open spec fn iostat_step(st: IostatScan, raw: Seq<char>, dev: Seq<char>) -> IostatScan {
    match st {
        IostatScan::Done(_) => st,
        _ => {
            let l = trim(raw);
            let p = words(l);
            if occurs_in(l, dev) {
                if p.len() >= 7 {
                    IostatScan::Done(row_values(p))
                } else {
                    IostatScan::InDevice
                }
            } else if st is InDevice && l.len() > 0 && l[0] != '-' {
                if p.len() >= 7 {
                    IostatScan::Done(row_values(p))
                } else {
                    IostatScan::Done(Ok((0, 0)))
                }
            } else {
                st
            }
        },
    }
}

/// The scan state after the lines `ls`.
pub open spec fn scan_iostat(ls: Seq<Seq<char>>, dev: Seq<char>) -> IostatScan
    decreases ls.len(),
{
    if ls.len() == 0 {
        IostatScan::Searching
    } else {
        iostat_step(scan_iostat(ls.drop_last(), dev), ls.last(), dev)
    }
}

/// The cumulative write operations and write bytes of device `dev` in I/O statistics
/// text; zero for both where the device has no row.
pub open spec fn device_writes(text: Seq<char>, dev: Seq<char>) -> Result<(u64, u64), RowFault> {
    match scan_iostat(lines(text), dev) {
        IostatScan::Done(r) => r,
        _ => Ok((0, 0)),
    }
}

/// Whether `r` is what `parse_slog_stats_from_iostat` owes for the outcome `v`.
pub open spec fn writes_result(v: Result<(u64, u64), RowFault>, r: ZfsResult<(u64, u64)>) -> bool {
    match v {
        Ok(pair) => r == Ok::<(u64, u64), ZfsError>(pair),
        Err(RowFault::WriteOps) => r matches Err(ZfsError::ParseError { data_source, .. })
            && data_source@ == "iostat write_ops"@,
        Err(RowFault::Bandwidth(f)) => r matches Err(e) && bandwidth_result(Err(f), Err(e)),
    }
}

proof fn lemma_iostat_final(ls: Seq<Seq<char>>, dev: Seq<char>, k: int)
    requires
        0 <= k <= ls.len(),
        scan_iostat(ls.take(k), dev) is Done,
    ensures
        scan_iostat(ls, dev) == scan_iostat(ls.take(k), dev),
    decreases ls.len(),
{
    if ls.len() == k {
        assert(ls.take(k) == ls);
    } else {
        assert(ls.drop_last().take(k) == ls.take(k));
        lemma_iostat_final(ls.drop_last(), dev, k);
    }
}

/// The values of a row split into `parts`, with the error that each fault reports.
fn read_row(parts: &Vec<Vec<char>>) -> (r: ZfsResult<(u64, u64)>)
    requires
        parts@.len() >= 7,
    ensures
        forall|p: Seq<Seq<char>>| holds_all(parts@, p) ==> writes_result(row_values(p), r),
{
    proof {
        reveal_strlit("iostat write_ops");
    }
    match parse_u64(&parts[4]) {
        None => Err(ZfsError::parse_error(
            "iostat write_ops",
            "write operations",
            "Invalid write operations count",
        )),
        Some(ops) => match bandwidth_of(&parts[6]) {
            Ok(bw) => Ok((ops, bw)),
            Err(f) => {
                let data = string_of(&parts[6]);
                Err(bandwidth_error(f, data.as_str()))
            },
        },
    }
}

/// The cumulative write operations and write bytes of `device_name` in pool I/O
/// statistics text.
pub fn parse_slog_stats_from_iostat(iostat_output: &str, device_name: &str) -> (r: ZfsResult<
    (u64, u64),
>)
    ensures
        writes_result(device_writes(iostat_output@, device_name@), r),
{
    let text = to_chars(iostat_output);
    let dev = to_chars(device_name);
    let ls = split_lines(&text);
    let ghost sl = lines(text@);
    let ghost d = device_name@;
    let mut in_device = false;
    let mut i: usize = 0;
    while i < ls.len()
        invariant
            holds_all(ls@, sl),
            sl == lines(iostat_output@),
            dev@ == d,
            d == device_name@,
            i <= ls@.len(),
            scan_iostat(sl.take(i as int), d) == if in_device {
                IostatScan::InDevice
            } else {
                IostatScan::Searching
            },
        decreases ls.len() - i,
    {
        assert(sl.take(i + 1).drop_last() == sl.take(i as int));
        assert(sl.take(i + 1).last() == ls@[i as int]@);
        let line = trim_chars(&ls[i]);
        let named = contains_lit_chars(&line, &dev);
        if named || (in_device && line.len() > 0 && line[0] != '-') {
            let parts = split_ws(&line);
            let ghost st = scan_iostat(sl.take(i as int), d);
            assert(scan_iostat(sl.take(i + 1), d) == iostat_step(st, ls@[i as int]@, d));
            if parts.len() >= 7 {
                let r = read_row(&parts);
                assert(holds_all(parts@, words(line@)));
                assert(writes_result(row_values(words(line@)), r));
                assert(scan_iostat(sl.take(i + 1), d) == IostatScan::Done(
                    row_values(words(line@)),
                ));
                proof {
                    lemma_iostat_final(sl, d, i + 1);
                    assert(sl.take(sl.len() as int) == sl);
                    assert(scan_iostat(sl, d) == IostatScan::Done(row_values(words(line@))));
                }
                return r;
            } else if !named {
                assert(scan_iostat(sl.take(i + 1), d) == IostatScan::Done(Ok((0, 0))));
                proof {
                    lemma_iostat_final(sl, d, i + 1);
                    assert(sl.take(sl.len() as int) == sl);
                }
                return Ok((0, 0));
            }
            in_device = true;
        }
        i = i + 1;
    }
    assert(sl.take(sl.len() as int) == sl);
    Ok((0, 0))
}

} // verus!
