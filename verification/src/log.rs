//! Severity-gated logging of status lines.
//!
//! Outcome mapping emits human-readable lines of the form
//! `log_<level>=<message>` on a side channel, distinct from the record
//! stream. A [`LogGate`] holds the current severity threshold, set from the
//! `log_level` of each validate or evaluate request, and collects the lines
//! whose severity passes the threshold. The embedding program writes the
//! collected lines out.

use vstd::prelude::*;

verus! {

/// Severity of one emitted message, most severe first.
#[derive(Debug, Clone, Copy, PartialEq, Eq, Structural)]
pub enum Level {
    /// Serious errors in the protocol or the module itself.
    Critical,
    /// Errors when validating or evaluating a promise.
    Error,
    /// Something the policy writer should probably fix.
    Warning,
    /// Unusual events worth notifying the user about.
    Notice,
    /// Changes made to the system.
    Info,
    /// Detailed information about promise evaluation.
    Verbose,
    /// Information for module developers.
    Debug,
}

/// Threshold a message's severity is compared against, most severe first.
#[derive(Debug, Clone, Copy, PartialEq, Eq, Structural)]
pub enum LevelFilter {
    /// Pass only critical messages.
    Critical,
    /// Pass errors and above.
    Error,
    /// Pass warnings and above.
    Warning,
    /// Pass notices and above.
    Notice,
    /// Pass informational messages and above.
    Info,
    /// Pass verbose messages and above.
    Verbose,
    /// Pass everything.
    Debug,
}

/// Rank of a severity; lower is more severe.
pub open spec fn level_rank(l: Level) -> int {
    match l {
        Level::Critical => 0,
        Level::Error => 1,
        Level::Warning => 2,
        Level::Notice => 3,
        Level::Info => 4,
        Level::Verbose => 5,
        Level::Debug => 6,
    }
}

/// Rank of a threshold; lower passes fewer messages.
pub open spec fn filter_rank(f: LevelFilter) -> int {
    match f {
        LevelFilter::Critical => 0,
        LevelFilter::Error => 1,
        LevelFilter::Warning => 2,
        LevelFilter::Notice => 3,
        LevelFilter::Info => 4,
        LevelFilter::Verbose => 5,
        LevelFilter::Debug => 6,
    }
}

/// Whether a message at severity `l` passes threshold `f`.
pub open spec fn enabled(l: Level, f: LevelFilter) -> bool {
    level_rank(l) <= filter_rank(f)
}

/// The lowercase name of a severity.
pub open spec fn spec_level_str(l: Level) -> Seq<char> {
    match l {
        Level::Critical => "critical"@,
        Level::Error => "error"@,
        Level::Warning => "warning"@,
        Level::Notice => "notice"@,
        Level::Info => "info"@,
        Level::Verbose => "verbose"@,
        Level::Debug => "debug"@,
    }
}

/// The lowercase name of a threshold, as it appears on the wire.
pub open spec fn spec_filter_str(f: LevelFilter) -> Seq<char> {
    match f {
        LevelFilter::Critical => "critical"@,
        LevelFilter::Error => "error"@,
        LevelFilter::Warning => "warning"@,
        LevelFilter::Notice => "notice"@,
        LevelFilter::Info => "info"@,
        LevelFilter::Verbose => "verbose"@,
        LevelFilter::Debug => "debug"@,
    }
}

/// One full side-channel line for a message at severity `l`.
pub open spec fn spec_log_line(l: Level, msg: Seq<char>) -> Seq<char> {
    "log_"@ + spec_level_str(l) + "="@ + msg
}

impl Level {
    /// The lowercase name of this severity.
    pub fn as_str(&self) -> (r: &'static str)
        ensures
            r@ == spec_level_str(*self),
    {
        match self {
            Level::Critical => "critical",
            Level::Error => "error",
            Level::Warning => "warning",
            Level::Notice => "notice",
            Level::Info => "info",
            Level::Verbose => "verbose",
            Level::Debug => "debug",
        }
    }

    /// Whether a message at this severity passes threshold `f`.
    pub fn passes(&self, f: &LevelFilter) -> (r: bool)
        ensures
            r == enabled(*self, *f),
    {
        self.rank() <= f.rank()
    }

    /// Rank of this severity; lower is more severe.
    pub fn rank(&self) -> (r: u32)
        ensures
            r == level_rank(*self),
    {
        match self {
            Level::Critical => 0,
            Level::Error => 1,
            Level::Warning => 2,
            Level::Notice => 3,
            Level::Info => 4,
            Level::Verbose => 5,
            Level::Debug => 6,
        }
    }
}

impl LevelFilter {
    /// The lowercase name of this threshold.
    pub fn as_str(&self) -> (r: &'static str)
        ensures
            r@ == spec_filter_str(*self),
    {
        match self {
            LevelFilter::Critical => "critical",
            LevelFilter::Error => "error",
            LevelFilter::Warning => "warning",
            LevelFilter::Notice => "notice",
            LevelFilter::Info => "info",
            LevelFilter::Verbose => "verbose",
            LevelFilter::Debug => "debug",
        }
    }

    /// Rank of this threshold; lower passes fewer messages.
    pub fn rank(&self) -> (r: u32)
        ensures
            r == filter_rank(*self),
    {
        match self {
            LevelFilter::Critical => 0,
            LevelFilter::Error => 1,
            LevelFilter::Warning => 2,
            LevelFilter::Notice => 3,
            LevelFilter::Info => 4,
            LevelFilter::Verbose => 5,
            LevelFilter::Debug => 6,
        }
    }

    /// Parses a lowercase threshold name, as it appears on the wire.
    pub fn parse(s: &str) -> (r: Option<LevelFilter>)
        ensures
            r == spec_parse_filter(s@),
    {
        if crate::value::str_eq(s, "critical") {
            Some(LevelFilter::Critical)
        } else if crate::value::str_eq(s, "error") {
            Some(LevelFilter::Error)
        } else if crate::value::str_eq(s, "warning") {
            Some(LevelFilter::Warning)
        } else if crate::value::str_eq(s, "notice") {
            Some(LevelFilter::Notice)
        } else if crate::value::str_eq(s, "info") {
            Some(LevelFilter::Info)
        } else if crate::value::str_eq(s, "verbose") {
            Some(LevelFilter::Verbose)
        } else if crate::value::str_eq(s, "debug") {
            Some(LevelFilter::Debug)
        } else {
            None
        }
    }
}

/// The threshold named by `s`, if `s` is a lowercase threshold name.
pub open spec fn spec_parse_filter(s: Seq<char>) -> Option<LevelFilter> {
    if s == "critical"@ {
        Some(LevelFilter::Critical)
    } else if s == "error"@ {
        Some(LevelFilter::Error)
    } else if s == "warning"@ {
        Some(LevelFilter::Warning)
    } else if s == "notice"@ {
        Some(LevelFilter::Notice)
    } else if s == "info"@ {
        Some(LevelFilter::Info)
    } else if s == "verbose"@ {
        Some(LevelFilter::Verbose)
    } else if s == "debug"@ {
        Some(LevelFilter::Debug)
    } else {
        None
    }
}

/// The views of the collected side-channel lines.
pub open spec fn lines_model(lines: Seq<String>) -> Seq<Seq<char>> {
    Seq::new(lines.len(), |i: int| lines[i]@)
}

/// Gate for the side channel: the current severity threshold, and the
/// lines it let through, oldest first.
#[derive(Debug)]
pub struct LogGate {
    /// Threshold a message must be at least as severe as to be kept.
    pub threshold: LevelFilter,
    /// Messages kept for the embedding program to write out, in order.
    pub lines: Vec<String>,
}

/// Whether the side channel only grew from `pre` to `post`: every line of
/// `pre` stands unchanged, at its place, in `post`. Nothing is said of the
/// thresholds.
pub open spec fn lines_extended(pre: LogGate, post: LogGate) -> bool {
    lines_model(pre.lines@).is_prefix_of(lines_model(post.lines@))
}

/// Growing the side channel is transitive.
pub proof fn lemma_lines_extended_trans(a: LogGate, b: LogGate, c: LogGate)
    requires
        lines_extended(a, b),
        lines_extended(b, c),
    ensures
        lines_extended(a, c),
{
    let ma = lines_model(a.lines@);
    let mb = lines_model(b.lines@);
    let mc = lines_model(c.lines@);
    assert(ma =~= mc.subrange(0, ma.len() as int)) by {
        assert(forall|i: int| 0 <= i < ma.len() ==> ma[i] == mb[i] && mb[i] == mc[i]);
    }
}

/// How one optional message event changes a gate: the threshold stays, and
/// the line is appended exactly when its severity passes the threshold.
pub open spec fn gate_step(pre: LogGate, post: LogGate, event: Option<(Level, Seq<char>)>) -> bool {
    post.threshold == pre.threshold && match event {
        None => lines_model(post.lines@) == lines_model(pre.lines@),
        Some((l, m)) => if enabled(l, pre.threshold) {
            lines_model(post.lines@) == lines_model(pre.lines@).push(spec_log_line(l, m))
        } else {
            lines_model(post.lines@) == lines_model(pre.lines@)
        },
    }
}

impl LogGate {
    /// A fresh gate: only critical messages pass until a request sets the
    /// threshold.
    pub fn new() -> (r: LogGate)
        ensures
            r.threshold == LevelFilter::Critical,
            r.lines@.len() == 0,
    {
        LogGate { threshold: LevelFilter::Critical, lines: Vec::new() }
    }

    /// Emits a message at severity `level`: the line is kept exactly when
    /// the severity passes the current threshold.
    pub fn emit(&mut self, level: Level, msg: &str)
        ensures
            gate_step(*old(self), *final(self), Some((level, msg@))),
    {
        if level.passes(&self.threshold) {
            let mut line = String::new();
            line.append("log_");
            line.append(level.as_str());
            line.append("=");
            line.append(msg);
            self.lines.push(line);
            proof {
                assert(lines_model(self.lines@) =~= lines_model(old(self).lines@).push(
                    spec_log_line(level, msg@),
                ));
            }
        } else {
            proof {
                assert(lines_model(self.lines@) =~= lines_model(old(self).lines@));
            }
        }
    }
}

/// Sets the process-wide severity threshold carried by `gate`.
pub fn set_max_level(gate: &mut LogGate, level: LevelFilter)
    ensures
        final(gate).threshold == level,
        final(gate).lines == old(gate).lines,
{
    gate.threshold = level;
}

/// The severity threshold currently carried by `gate`.
pub fn max_level(gate: &LogGate) -> (r: LevelFilter)
    ensures
        r == gate.threshold,
{
    gate.threshold
}

} // verus!
