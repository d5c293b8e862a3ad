//! The severity model: an ordered set of log levels, each with a fixed
//! integer rank, a name and a single-letter abbreviation, plus the collapsing
//! rule that folds `Trace` and `Debug` into `Info` when extended levels are
//! disabled.

use vstd::prelude::*;

verus! {

/// A log severity, ordered from `Verbose` (lowest) to `Fatal` (highest).
#[derive(Clone, Copy, PartialEq, Eq, Structural, Debug, Hash)]
pub enum Level {
    Verbose,
    Trace,
    Debug,
    Info,
    Warn,
    Error,
    Fatal,
}

/// The fixed integer rank of a severity.  Ranks are never reassigned:
/// collapsing only changes which level an event is *rendered and filed as*,
/// never this table.
pub open spec fn rank_spec(l: Level) -> int {
    match l {
        Level::Verbose => -3,
        Level::Trace => -2,
        Level::Debug => -1,
        Level::Info => 0,
        Level::Warn => 1,
        Level::Error => 2,
        Level::Fatal => 3,
    }
}

/// The level an event is rendered and filed as: with collapsing enabled,
/// `Trace` and `Debug` fold into `Info`; every other level, and every level
/// when collapsing is disabled, maps to itself.
pub open spec fn effective_level_spec(l: Level, collapse: bool) -> Level {
    if collapse && (l is Trace || l is Debug) {
        Level::Info
    } else {
        l
    }
}

/// Whether an event at level `l` passes the minimum-severity filter.
/// `Fatal` has the highest rank, so it always passes.
pub open spec fn enabled_spec(min: Level, l: Level) -> bool {
    rank_spec(l) >= rank_spec(min)
}

/// The level's name, as `as_str` returns it.
pub open spec fn name_seq(l: Level) -> Seq<char> {
    match l {
        Level::Verbose => "Verbose"@,
        Level::Trace => "Trace"@,
        Level::Debug => "Debug"@,
        Level::Info => "Info"@,
        Level::Warn => "Warn"@,
        Level::Error => "Error"@,
        Level::Fatal => "Fatal"@,
    }
}

/// The level's name in upper case, as used in log file names.
pub open spec fn upper_name_seq(l: Level) -> Seq<char> {
    match l {
        Level::Verbose => "VERBOSE"@,
        Level::Trace => "TRACE"@,
        Level::Debug => "DEBUG"@,
        Level::Info => "INFO"@,
        Level::Warn => "WARN"@,
        Level::Error => "ERROR"@,
        Level::Fatal => "FATAL"@,
    }
}

/// The single-letter abbreviation that opens every formatted log line.
pub open spec fn abbrev_seq(l: Level) -> Seq<char> {
    match l {
        Level::Verbose => "V"@,
        Level::Trace => "T"@,
        Level::Debug => "D"@,
        Level::Info => "I"@,
        Level::Warn => "W"@,
        Level::Error => "E"@,
        Level::Fatal => "F"@,
    }
}

impl Level {
    /// The integer rank of this level, always in `-3 ..= 3`.
    pub fn rank(&self) -> (r: i8)
        ensures
            r as int == rank_spec(*self),
            -3 <= r <= 3,
    {
        match self {
            Level::Verbose => -3,
            Level::Trace => -2,
            Level::Debug => -1,
            Level::Info => 0,
            Level::Warn => 1,
            Level::Error => 2,
            Level::Fatal => 3,
        }
    }

    /// The level's name.
    pub fn as_str(&self) -> (r: &'static str)
        ensures
            r@ == name_seq(*self),
    {
        match self {
            Level::Verbose => "Verbose",
            Level::Trace => "Trace",
            Level::Debug => "Debug",
            Level::Info => "Info",
            Level::Warn => "Warn",
            Level::Error => "Error",
            Level::Fatal => "Fatal",
        }
    }

    /// The level's name in upper case, as spelled in log file names.
    pub fn upper_name(&self) -> (r: &'static str)
        ensures
            r@ == upper_name_seq(*self),
    {
        match self {
            Level::Verbose => "VERBOSE",
            Level::Trace => "TRACE",
            Level::Debug => "DEBUG",
            Level::Info => "INFO",
            Level::Warn => "WARN",
            Level::Error => "ERROR",
            Level::Fatal => "FATAL",
        }
    }

    /// The single-letter abbreviation of this level.
    pub fn abbreviation(&self) -> (r: &'static str)
        ensures
            r@ == abbrev_seq(*self),
    {
        match self {
            Level::Verbose => "V",
            Level::Trace => "T",
            Level::Debug => "D",
            Level::Info => "I",
            Level::Warn => "W",
            Level::Error => "E",
            Level::Fatal => "F",
        }
    }
}

/// A level is recovered from its rank: ranks identify levels uniquely.
pub fn level_from_rank(r: i8) -> (l: Level)
    requires
        -3 <= r <= 3,
    ensures
        rank_spec(l) == r as int,
{
    if r == -3 {
        Level::Verbose
    } else if r == -2 {
        Level::Trace
    } else if r == -1 {
        Level::Debug
    } else if r == 0 {
        Level::Info
    } else if r == 1 {
        Level::Warn
    } else if r == 2 {
        Level::Error
    } else {
        Level::Fatal
    }
}

/// Ranks are a bijection on levels: two levels with the same rank are equal.
pub proof fn lemma_rank_injective(a: Level, b: Level)
    ensures
        rank_spec(a) == rank_spec(b) ==> a == b,
{
}

/// The rank table is bounded: every rank lies in `-3 ..= 3`.
pub proof fn lemma_rank_bounded(l: Level)
    ensures
        -3 <= rank_spec(l) <= 3,
{
}

/// Every abbreviation is a single character, and it is the first character
/// of the level's name.
pub proof fn lemma_abbreviation_is_initial(l: Level)
    ensures
        abbrev_seq(l).len() == 1,
        abbrev_seq(l)[0] == name_seq(l)[0],
{
    reveal_strlit("Verbose");
    reveal_strlit("Trace");
    reveal_strlit("Debug");
    reveal_strlit("Info");
    reveal_strlit("Warn");
    reveal_strlit("Error");
    reveal_strlit("Fatal");
    reveal_strlit("V");
    reveal_strlit("T");
    reveal_strlit("D");
    reveal_strlit("I");
    reveal_strlit("W");
    reveal_strlit("E");
    reveal_strlit("F");
}

} // verus!
