//! Configuration: the immutable-after-init `Flags` record and the
//! separately mutable `Extensions` knobs.

use vstd::prelude::*;

use crate::level::Level;

verus! {

/// The flag structure used to initialize the logger.
///
/// Set exactly once per process lifetime: once the logger is ready, later
/// initialization attempts leave the active `Flags` untouched.
#[derive(Clone, Debug)]
pub struct Flags {
    /// If logging to stderr, colorize levels more severe than `Info`.
    pub colorlogtostderr: bool,
    /// Minimum level (inclusive) that should be logged.
    pub minloglevel: Level,
    /// Optionally log a backtrace at the `filename:line` log invocation.
    /// The trace is written to the log file with the lowest severity.
    pub log_backtrace_at: Option<String>,
    /// Log to stderr instead of log files.
    pub logtostderr: bool,
    /// Log to stderr and to log files.
    pub alsologtostderr: bool,
    /// Directory in which to store the log files, including a trailing
    /// separator.  The default is empty, which places files in the current
    /// directory; a caller that wants the system temporary directory passes
    /// it here.
    pub log_dir: String,
}

impl Flags {
    /// The default configuration: log `Info` and above, to files only,
    /// without color, without a backtrace trigger.
    pub open spec fn is_default(self) -> bool {
        &&& self.colorlogtostderr == false
        &&& self.minloglevel == Level::Info
        &&& self.log_backtrace_at is None
        &&& self.logtostderr == false
        &&& self.alsologtostderr == false
        &&& self.log_dir@ == Seq::<char>::empty()
    }
}

impl Default for Flags {
    fn default() -> (r: Flags)
        ensures
            r.is_default(),
    {
        Flags {
            colorlogtostderr: false,
            minloglevel: Level::Info,
            log_backtrace_at: None,
            logtostderr: false,
            alsologtostderr: false,
            log_dir: String::new(),
        }
    }
}

/// Knobs that, unlike `Flags`, may still change after initialization and
/// take effect on the next emitted event.
#[derive(Clone, Copy, PartialEq, Eq, Structural, Debug)]
pub struct Extensions {
    /// Enable the year in the log timestamp.  By default the year is not
    /// part of the timestamp.
    pub with_year: bool,
    /// Keep `Trace` and `Debug` as levels of their own.  By default they
    /// collapse into `Info`, as the glog format has no abbreviations for
    /// them.
    pub with_rust_levels: bool,
}

impl Extensions {
    /// The default extension settings: glog-compatible timestamps and the
    /// collapsed level set.
    pub open spec fn is_default(self) -> bool {
        &&& self.with_year == false
        &&& self.with_rust_levels == false
    }
}

impl Default for Extensions {
    fn default() -> (r: Extensions)
        ensures
            r.is_default(),
    {
        Extensions { with_year: false, with_rust_levels: false }
    }
}

} // verus!
