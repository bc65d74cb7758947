//! The errors of statistics collection and parsing.
use vstd::prelude::*;
use core::time::Duration;

verus! {

/// What went wrong while collecting or parsing statistics.
#[derive(Debug)]
pub enum ZfsError {
    /// An external command could not run or failed.
    CommandError { command: String, args: Vec<String>, message: String },
    /// A file could not be read.
    FilesystemError { path: String, operation: String, message: String },
    /// A field of a recognised format could not be parsed.
    ParseError { data_source: String, data: String, reason: String },
    /// The input does not have the expected shape at all.
    InvalidFormat { expected: String, received: String, context: String },
    /// Every source of a metric family failed.
    SubsystemUnavailable { subsystem: String, reason: String },
    /// A cache operation failed.
    CacheError { operation: String, key: String, message: String },
    /// A rate could not be derived.
    RateCalculationError { metric: String, reason: String },
    /// An operation ran past its time limit.
    TimeoutError { operation: String, timeout: Duration },
}

/// Whether each element of `v` holds the characters of the same element of `s`.
pub open spec fn strings_hold(v: Seq<String>, s: Seq<&str>) -> bool {
    v.len() == s.len() && forall|k: int| 0 <= k < v.len() ==> #[trigger] v[k]@ == s[k]@
}

impl ZfsError {
    /// A failure of `command` run with `args`.
    pub fn command_error(command: &str, args: &[&str], message: &str) -> (r: ZfsError)
        ensures
            r matches ZfsError::CommandError { command: c, args: a, message: m } && c@ == command@
                && strings_hold(a@, args@) && m@ == message@,
    {
        let mut owned: Vec<String> = Vec::new();
        let mut i: usize = 0;
        while i < args.len()
            invariant
                i <= args@.len(),
                strings_hold(owned@, args@.subrange(0, i as int)),
            decreases args.len() - i,
        {
            owned.push(String::from_str(args[i]));
            i = i + 1;
        }
        assert(args@.subrange(0, args@.len() as int) == args@);
        ZfsError::CommandError {
            command: String::from_str(command),
            args: owned,
            message: String::from_str(message),
        }
    }

    /// A failed `operation` on the file at `path`.
    pub fn filesystem_error(path: &str, operation: &str, message: &str) -> (r: ZfsError)
        ensures
            r matches ZfsError::FilesystemError { path: p, operation: o, message: m } && p@
                == path@ && o@ == operation@ && m@ == message@,
    {
        ZfsError::FilesystemError {
            path: String::from_str(path),
            operation: String::from_str(operation),
            message: String::from_str(message),
        }
    }

    /// A field of `data_source` whose text `data` could not be parsed.
    pub fn parse_error(data_source: &str, data: &str, reason: &str) -> (r: ZfsError)
        ensures
            r matches ZfsError::ParseError { data_source: s, data: d, reason: w } && s@
                == data_source@ && d@ == data@ && w@ == reason@,
    {
        ZfsError::ParseError {
            data_source: String::from_str(data_source),
            data: String::from_str(data),
            reason: String::from_str(reason),
        }
    }

    /// Input of the wrong shape in `context`.
    pub fn invalid_format(expected: &str, received: &str, context: &str) -> (r: ZfsError)
        ensures
            r matches ZfsError::InvalidFormat { expected: e, received: g, context: c } && e@
                == expected@ && g@ == received@ && c@ == context@,
    {
        ZfsError::InvalidFormat {
            expected: String::from_str(expected),
            received: String::from_str(received),
            context: String::from_str(context),
        }
    }

    /// No source of `subsystem` could be used.
    pub fn subsystem_unavailable(subsystem: &str, reason: &str) -> (r: ZfsError)
        ensures
            r matches ZfsError::SubsystemUnavailable { subsystem: s, reason: w } && s@
                == subsystem@ && w@ == reason@,
    {
        ZfsError::SubsystemUnavailable {
            subsystem: String::from_str(subsystem),
            reason: String::from_str(reason),
        }
    }

    /// A failed cache `operation` on `key`.
    pub fn cache_error(operation: &str, key: &str, message: &str) -> (r: ZfsError)
        ensures
            r matches ZfsError::CacheError { operation: o, key: k, message: m } && o@
                == operation@ && k@ == key@ && m@ == message@,
    {
        ZfsError::CacheError {
            operation: String::from_str(operation),
            key: String::from_str(key),
            message: String::from_str(message),
        }
    }

    /// A rate of `metric` that could not be derived.
    pub fn rate_calculation_error(metric: &str, reason: &str) -> (r: ZfsError)
        ensures
            r matches ZfsError::RateCalculationError { metric: m, reason: w } && m@ == metric@
                && w@ == reason@,
    {
        ZfsError::RateCalculationError {
            metric: String::from_str(metric),
            reason: String::from_str(reason),
        }
    }

    /// `operation` ran past `timeout`.
    pub fn timeout_error(operation: &str, timeout: Duration) -> (r: ZfsError)
        ensures
            r matches ZfsError::TimeoutError { operation: o, timeout: t } && o@ == operation@ && t
                == timeout,
    {
        ZfsError::TimeoutError { operation: String::from_str(operation), timeout }
    }
}

/// The result of a statistics operation.
pub type ZfsResult<T> = Result<T, ZfsError>;

} // verus!
