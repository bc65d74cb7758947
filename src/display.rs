//! Terminal capabilities and text progress bars.
use vstd::prelude::*;

verus! {

/// Relies on `console::colors_enabled`: whether standard output gets colours, as the
/// environment and the terminal decide.
#[verifier::external_body]
fn colors_enabled() -> bool {
    console::colors_enabled()
}

/// What the terminal supports.
pub struct Terminal {
    pub supports_color: bool,
}

impl Terminal {
    /// The capabilities of the terminal of standard output.
    pub fn new() -> (r: Terminal) {
        Terminal { supports_color: colors_enabled() }
    }
}

impl Default for Terminal {
    fn default() -> (r: Terminal) {
        Terminal::new()
    }
}

/// `n` copies of `c`.
pub open spec fn repeat(c: char, n: nat) -> Seq<char> {
    Seq::new(n, |i: int| c)
}

/// A text progress bar of a fixed width.
pub struct ProgressBar {
    width: usize,
    terminal: Terminal,
}

impl ProgressBar {
    /// The number of cells of the bar.
    pub closed spec fn spec_width(&self) -> usize {
        self.width
    }

    /// A bar of `width` cells.
    pub fn new(width: usize) -> (r: ProgressBar)
        ensures
            r.spec_width() == width,
    {
        ProgressBar { width, terminal: Terminal::new() }
    }

    /// The number of cells.
    pub fn width(&self) -> (r: usize)
        ensures
            r == self.spec_width(),
    {
        self.width
    }

    /// The terminal the bar is drawn for.
    pub fn terminal(&self) -> &Terminal {
        &self.terminal
    }

    /// The bar with `filled` cells filled: `[`, `#` for each filled cell, `.` for each
    /// other cell, `]`; filled cells beyond the width all show.
    pub fn bar(&self, filled: usize) -> (r: String)
        requires
            filled < usize::MAX - 2,
        ensures
            r@ == seq!['['] + repeat('#', filled as nat) + repeat(
                '.',
                if filled < self.spec_width() {
                    (self.spec_width() - filled) as nat
                } else {
                    0
                },
            ) + seq![']'],
    {
        let empty = self.width.saturating_sub(filled);
        let mut v: Vec<char> = Vec::new();
        v.push('[');
        let mut i: usize = 0;
        while i < filled
            invariant
                i <= filled,
                v@ == seq!['['] + repeat('#', i as nat),
            decreases filled - i,
        {
            v.push('#');
            i = i + 1;
            assert(v@ =~= seq!['['] + repeat('#', i as nat));
        }
        let mut j: usize = 0;
        while j < empty
            invariant
                j <= empty,
                v@ == seq!['['] + repeat('#', filled as nat) + repeat('.', j as nat),
            decreases empty - j,
        {
            v.push('.');
            j = j + 1;
            assert(v@ =~= seq!['['] + repeat('#', filled as nat) + repeat('.', j as nat));
        }
        v.push(']');
        crate::text::string_of(&v)
    }
}

impl Default for ProgressBar {
    fn default() -> (r: ProgressBar)
        ensures
            r.spec_width() == 20,
    {
        ProgressBar::new(20)
    }
}

/// Why the monitor could not run.
#[derive(Debug)]
pub enum MonitorError {
    ZfsUnavailable,
    PoolNotFound(String),
    InvalidInterval(String),
    SystemError(String),
    ParseError(String),
}

impl MonitorError {
    /// The message of the error.
    pub fn describe(&self) -> (r: String)
        ensures
            r@ == match self {
                MonitorError::ZfsUnavailable => "ZFS is not available on this system"@,
                MonitorError::PoolNotFound(p) => "Pool '"@ + p@ + "' not found"@,
                MonitorError::InvalidInterval(i) => "Invalid interval: "@ + i@,
                MonitorError::SystemError(m) => "System error: "@ + m@,
                MonitorError::ParseError(m) => "Parse error: "@ + m@,
            },
    {
        match self {
            MonitorError::ZfsUnavailable => String::from_str("ZFS is not available on this system"),
            MonitorError::PoolNotFound(p) => {
                let mut s = String::from_str("Pool '");
                s.append(p.as_str());
                s.append("' not found");
                s
            },
            MonitorError::InvalidInterval(i) => {
                let mut s = String::from_str("Invalid interval: ");
                s.append(i.as_str());
                s
            },
            MonitorError::SystemError(m) => {
                let mut s = String::from_str("System error: ");
                s.append(m.as_str());
                s
            },
            MonitorError::ParseError(m) => {
                let mut s = String::from_str("Parse error: ");
                s.append(m.as_str());
                s
            },
        }
    }
}

} // verus!
