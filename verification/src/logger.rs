//! The logging engine: the process-wide logger value, its idempotent
//! lifecycle, the cascading file fan-out rule, the backtrace trigger and
//! the per-event output plan.
//!
//! The engine computes every decision and every piece of text; the
//! surrounding binary owns the actual file handles and the terminal stream
//! and performs the writes it is handed.

use vstd::prelude::*;

use crate::flags::Extensions;
use crate::flags::Flags;
use crate::level::effective_level_spec;
use crate::level::enabled_spec;
use crate::level::level_from_rank;
use crate::level::rank_spec;
use crate::level::upper_name_seq;
use crate::level::Level;
use crate::render::basename;
use crate::render::basename_seq;
use crate::render::build_line;
use crate::render::dec_seq;
use crate::render::line_seq;
use crate::render::pad2;
use crate::render::push_dec;
use crate::render::push_dec_pad;
use crate::render::push_year;
use crate::render::year_seq;
use crate::sys::capture_backtrace;
use crate::sys::get_tid;
use crate::sys::hostname_or_placeholder;
use crate::sys::username_or_placeholder;
use crate::time::now_timestamp;
use crate::time::Timestamp;

verus! {

/// One log event: severity, source basename, source line and the rendered
/// message text.  Created on the caller's thread and consumed before the
/// call returns.
pub struct Record {
    pub line: u32,
    pub args: String,
    pub file: String,
    pub level: Level,
}

/// The foreground color the stderr writer applies to a line.
#[derive(Clone, Copy, PartialEq, Eq, Structural, Debug)]
pub enum LogColor {
    Red,
    Yellow,
}

/// The logging structure doing all the heavy lifting.
pub struct Glogger {
    /// The immutable-after-init configuration.
    pub flags: Flags,
    /// The knobs that may still change after initialization.
    pub extensions: Extensions,
    /// Free text written into file headers to identify the build.
    pub application_fingerprint: Option<String>,
    /// Epoch second count at construction, for the header's running
    /// duration.
    pub start_epoch_seconds: i64,
    /// Whether the lifecycle has reached its terminal `Ready` state.
    pub initialized: bool,
}

/// Creates a logger in its `Uninitialized` state, with default flags and
/// extensions, taking the construction time as the process start time.
pub fn new() -> (g: Glogger)
    ensures
        g.wf(),
        !g.initialized,
        g.flags.is_default(),
        g.extensions.is_default(),
        g.application_fingerprint is None,
{
    let start = now_timestamp();
    Glogger {
        flags: Flags::default(),
        extensions: Extensions::default(),
        application_fingerprint: None,
        start_epoch_seconds: start.epoch_seconds,
        initialized: false,
    }
}

/// The logger after one initialization call: the first call installs the
/// given flags and reaches `Ready`; any call on a `Ready` logger changes
/// nothing.
pub open spec fn after_init(g: Glogger, flags: Flags) -> Glogger {
    if g.initialized {
        g
    } else {
        Glogger { flags: flags, initialized: true, ..g }
    }
}

impl Glogger {
    /// The process start time recorded at construction stays within the
    /// clock's representable span.
    pub open spec fn wf(self) -> bool {
        -10_000_000_000_000 <= self.start_epoch_seconds <= 10_000_000_000_000
    }

    /// Whether `Trace` and `Debug` collapse into `Info`.
    pub open spec fn collapse(self) -> bool {
        !self.extensions.with_rust_levels
    }

    /// Runtime check for `wf`, for unverified callers that must test a
    /// precondition before calling in.
    pub fn is_wf(&self) -> (r: bool)
        ensures
            r == self.wf(),
    {
        -10_000_000_000_000 <= self.start_epoch_seconds && self.start_epoch_seconds
            <= 10_000_000_000_000
    }

    /// Enable the year in the log timestamp.  By default the year is not
    /// part of the timestamp.
    pub fn with_year(self, with_year: bool) -> (r: Self)
        ensures
            r == (Glogger {
                extensions: (Extensions { with_year, ..self.extensions }),
                ..self
            }),
    {
        Glogger { extensions: Extensions { with_year, ..self.extensions }, ..self }
    }

    /// Change the behavior regarding `Trace` and `Debug` levels.
    ///
    /// If `limit_abbreviations` is false, `Trace` and `Debug` get levels of
    /// their own; otherwise they are logged as `Info`.  The default is to
    /// limit.
    pub fn reduced_log_levels(self, limit_abbreviations: bool) -> (r: Self)
        ensures
            r == (Glogger {
                extensions: (Extensions {
                    with_rust_levels: !limit_abbreviations,
                    ..self.extensions
                }),
                ..self
            }),
    {
        Glogger {
            extensions: Extensions { with_rust_levels: !limit_abbreviations, ..self.extensions },
            ..self
        }
    }

    /// Set `fingerprint` as the application fingerprint in the log file
    /// header.
    pub fn set_application_fingerprint(self, fingerprint: &str) -> (r: Self)
        ensures
            r.application_fingerprint matches Some(f) && f@ == fingerprint@,
            r.flags == self.flags,
            r.extensions == self.extensions,
            r.start_epoch_seconds == self.start_epoch_seconds,
            r.initialized == self.initialized,
    {
        Glogger { application_fingerprint: Some(String::from_str(fingerprint)), ..self }
    }

    /// One initialization attempt: installs `flags` and reaches `Ready` on
    /// the first call; leaves everything untouched, returning `false`, on
    /// every later call.
    pub fn init(&mut self, flags: Flags) -> (first: bool)
        ensures
            *final(self) == after_init(*old(self), flags),
            first == !old(self).initialized,
    {
        if self.initialized {
            false
        } else {
            self.flags = flags;
            self.initialized = true;
            true
        }
    }

    /// The level an event at `level` is rendered and filed as.
    pub fn match_level(&self, level: &Level) -> (r: Level)
        ensures
            r == effective_level_spec(*level, self.collapse()),
    {
        if !self.extensions.with_rust_levels {
            match level {
                Level::Debug => Level::Info,
                Level::Trace => Level::Info,
                _ => *level,
            }
        } else {
            *level
        }
    }

    /// The integer rank an event at `level` is filed under.
    pub fn level_as_int(&self, level: &Level) -> (r: i8)
        ensures
            r as int == rank_spec(effective_level_spec(*level, self.collapse())),
            -3 <= r <= 3,
    {
        self.match_level(level).rank()
    }

    /// Whether an event at `level` passes the minimum-severity filter.
    pub fn enabled(&self, level: Level) -> (r: bool)
        ensures
            r == enabled_spec(self.flags.minloglevel, level),
    {
        self.flags.minloglevel.rank() <= level.rank()
    }

    /// Whether a log file for `l` exists: at or above the configured
    /// minimum, and not a collapsed-away level.
    pub open spec fn level_active(self, l: Level) -> bool {
        level_active_spec(self.flags.minloglevel, self.extensions.with_rust_levels, l)
    }

    /// Whether a backtrace is appended for an event at `file:line`: exactly
    /// when a trigger is configured and equals that text.
    pub open spec fn trigger_matches(self, file: Seq<char>, line: nat) -> bool {
        match self.flags.log_backtrace_at {
            Some(t) => t@ == trigger_seq(file, line),
            None => false,
        }
    }

    /// Decides the backtrace trigger: true exactly when a trigger is
    /// configured and equals `"{file_name}:{line}"`, by string equality,
    /// with no globbing.
    pub fn should_log_backtrace(&self, file_name: &str, line: u32) -> (r: bool)
        ensures
            r == self.trigger_matches(file_name@, line as nat),
    {
        match &self.flags.log_backtrace_at {
            None => false,
            Some(t) => {
                let mut cand = String::from_str(file_name);
                cand.append(":");
                push_dec(&mut cand, line as u64);
                *t == cand
            },
        }
    }

    /// The basename of a record's source path: the part after the last
    /// path separator.
    pub fn record_to_file_name(file_path: &str) -> (r: String)
        ensures
            r@ == basename_seq(file_path@),
    {
        basename(file_path)
    }
}

/// Whether a log file for `l` exists under minimum level `min`: its rank is
/// at least the minimum's, and it is not a level that the collapsing rule
/// folds away (`Trace` and `Debug` have files only when extended levels
/// are enabled).
pub open spec fn level_active_spec(min: Level, extended: bool, l: Level) -> bool {
    rank_spec(l) >= rank_spec(min) && (extended || (!(l is Trace) && !(l is Debug)))
}

/// The `file:line` text an event's origin is compared against.
pub open spec fn trigger_seq(file: Seq<char>, line: nat) -> Seq<char> {
    file + ":"@ + dec_seq(line)
}

/// The active levels whose rank is at most `hi`, in ascending rank order:
/// the cascade targets of an event filed at rank `hi`.
pub fn levels_in_range(min: Level, extended: bool, hi: i8) -> (r: Vec<Level>)
    requires
        hi <= 3,
    ensures
        forall|l: Level|
            #[trigger] r@.contains(l) <==> (level_active_spec(min, extended, l) && rank_spec(l)
                <= hi as int),
        forall|i: int, j: int|
            0 <= i < j < r@.len() ==> rank_spec(r@[i]) < rank_spec(r@[j]),
{
    let mut r: Vec<Level> = Vec::new();
    let mut i: i8 = min.rank();
    while i <= hi
        invariant
            rank_spec(min) <= i as int <= 4,
            i as int <= hi + 1 || i as int == rank_spec(min),
            hi <= 3,
            forall|l: Level|
                #[trigger] r@.contains(l) <==> (level_active_spec(min, extended, l) && rank_spec(l)
                    < i as int),
            forall|k: int| 0 <= k < r@.len() ==> rank_spec(r@[k]) < i as int,
            forall|k: int, j: int|
                0 <= k < j < r@.len() ==> rank_spec(r@[k]) < rank_spec(r@[j]),
        decreases 4 - i,
    {
        let l = level_from_rank(i);
        if extended || !(l == Level::Trace || l == Level::Debug) {
            let ghost old_r = r@;
            r.push(l);
            proof {
                assert(r@ =~= old_r.push(l));
                assert forall|x: Level| #[trigger]
                    r@.contains(x) <==> (level_active_spec(min, extended, x) && rank_spec(x) < i
                        + 1) by {
                    if r@.contains(x) {
                        let k = choose|k: int| 0 <= k < r@.len() && r@[k] == x;
                        if k < old_r.len() {
                            assert(old_r.contains(x));
                        } else {
                            assert(x == l);
                        }
                    }
                    if level_active_spec(min, extended, x) && rank_spec(x) < i + 1 {
                        if rank_spec(x) < i as int {
                            assert(old_r.contains(x));
                            let k = choose|k: int| 0 <= k < old_r.len() && old_r[k] == x;
                            assert(r@[k] == x);
                        } else {
                            assert(x == l);
                            assert(r@[r@.len() - 1] == x);
                        }
                    }
                }
            }
        } else {
            proof {
                assert forall|x: Level| #[trigger]
                    r@.contains(x) <==> (level_active_spec(min, extended, x) && rank_spec(x) < i
                        + 1) by {
                    if level_active_spec(min, extended, x) && rank_spec(x) == i as int {
                        assert(x == l);
                        assert(false);
                    }
                }
            }
        }
        i = i + 1;
    }
    proof {
        assert forall|l: Level| #[trigger]
            r@.contains(l) <==> (level_active_spec(min, extended, l) && rank_spec(l)
                <= hi as int) by {
            if i as int == rank_spec(min) && rank_spec(min) > hi as int {
                assert(!(level_active_spec(min, extended, l) && rank_spec(l) < i as int));
                assert(!(level_active_spec(min, extended, l) && rank_spec(l) <= hi as int));
            }
        }
    }
    r
}

/// The color a line gets on a color-enabled stderr: red for `Error` and
/// `Fatal`, yellow for `Warn`, the terminal default otherwise.
pub open spec fn color_spec(colorize: bool, l: Level) -> Option<LogColor> {
    if colorize {
        match l {
            Level::Fatal => Some(LogColor::Red),
            Level::Error => Some(LogColor::Red),
            Level::Warn => Some(LogColor::Yellow),
            _ => None,
        }
    } else {
        None
    }
}

/// Whether the fan-out plan `lines` holds a write for the file of level
/// `l`.
pub open spec fn writes_level(lines: Seq<(Level, String)>, l: Level) -> bool {
    exists|i: int| 0 <= i < lines.len() && lines[i].0 == l
}

/// Everything one event asks the surrounding binary to do: the line for
/// stderr with its color, one line per cascade target file in ascending
/// rank order, the captured backtrace with the file it goes to, and
/// whether the caller must halt afterwards.
pub struct EventOutput {
    /// The rendered line, present exactly when stderr output is enabled.
    pub stderr_line: Option<String>,
    /// The foreground color for the stderr write, when color is enabled.
    pub stderr_color: Option<LogColor>,
    /// One `(level, line)` entry per active file the event cascades into.
    pub file_lines: Vec<(Level, String)>,
    /// The captured stack text, present exactly when the trigger matched.
    /// It is appended to every destination the event write used: stderr
    /// when enabled, and the file named by `backtrace_level`.
    pub backtrace: Option<String>,
    /// The lowest-severity active file, when a matched backtrace goes to
    /// the files at all.
    pub backtrace_level: Option<Level>,
    /// Whether the event was `Fatal`, after which the caller must stop.
    pub halt: bool,
}

impl Glogger {
    /// The text of one formatted line for `record`, at clock reading `ts`
    /// and thread id `tid`.
    pub open spec fn line_seq_of(self, record: Record, ts: Timestamp, tid: nat) -> Seq<char> {
        line_seq(
            effective_level_spec(record.level, self.collapse()),
            ts,
            self.extensions.with_year,
            tid,
            record.file@,
            record.line as nat,
            record.args@,
        )
    }

    /// Renders the glog line for `record`: effective abbreviation,
    /// timestamp, thread id, `file:line]` and the message verbatim.
    pub fn build_log_message(&self, record: &Record, now: Timestamp, tid: u64) -> (r: String)
        requires
            now.wf(),
        ensures
            r@ == self.line_seq_of(*record, now, tid as nat),
    {
        let eff = self.match_level(&record.level);
        build_line(
            eff,
            now,
            self.extensions.with_year,
            tid,
            record.file.as_str(),
            record.line,
            record.args.as_str(),
        )
    }

    /// The full per-event plan, past the minimum-severity filter: renders
    /// the line once, fans it out to stderr and to every cascade target
    /// file, and captures a backtrace when the trigger matches.
    ///
    /// Flag precedence: `logtostderr` (stderr only) suppresses all file
    /// writes regardless of `alsologtostderr`.
    #[verifier::loop_isolation(false)]
    pub fn log_internal(&self, record: &Record, now: Timestamp, tid: u64) -> (out: EventOutput)
        requires
            now.wf(),
        ensures
            out.halt == (record.level is Fatal),
            (out.stderr_line is Some) == (self.flags.logtostderr || self.flags.alsologtostderr),
            out.stderr_line matches Some(s) ==> s@ == self.line_seq_of(*record, now, tid as nat),
            out.stderr_color == (if self.flags.logtostderr || self.flags.alsologtostderr {
                color_spec(self.flags.colorlogtostderr, record.level)
            } else {
                None::<LogColor>
            }),
            (out.backtrace is Some) == self.trigger_matches(record.file@, record.line as nat),
            out.backtrace_level == (if self.trigger_matches(record.file@, record.line as nat)
                && !self.flags.logtostderr {
                Some(effective_level_spec(self.flags.minloglevel, self.collapse()))
            } else {
                None::<Level>
            }),
            self.flags.logtostderr ==> out.file_lines@.len() == 0,
            !self.flags.logtostderr ==> forall|l: Level|
                #[trigger] writes_level(out.file_lines@, l) <==> (self.level_active(l) && rank_spec(
                    l,
                ) <= rank_spec(effective_level_spec(record.level, self.collapse()))),
            forall|i: int|
                0 <= i < out.file_lines@.len() ==> (#[trigger] out.file_lines@[i]).1@
                    == self.line_seq_of(*record, now, tid as nat),
            forall|i: int, j: int|
                0 <= i < j < out.file_lines@.len() ==> rank_spec(out.file_lines@[i].0) < rank_spec(
                    out.file_lines@[j].0,
                ),
    {
        let msg = self.build_log_message(record, now, tid);
        let to_stderr = self.flags.logtostderr || self.flags.alsologtostderr;
        let stderr_line = if to_stderr {
            Some(msg.clone())
        } else {
            None
        };
        let stderr_color = if to_stderr && self.flags.colorlogtostderr {
            match record.level {
                Level::Fatal => Some(LogColor::Red),
                Level::Error => Some(LogColor::Red),
                Level::Warn => Some(LogColor::Yellow),
                _ => None,
            }
        } else {
            None
        };
        let mut file_lines: Vec<(Level, String)> = Vec::new();
        if !self.flags.logtostderr {
            let targets = levels_in_range(
                self.flags.minloglevel,
                self.extensions.with_rust_levels,
                self.level_as_int(&record.level),
            );
            let mut k: usize = 0;
            while k < targets.len()
                invariant
                    k <= targets@.len(),
                    file_lines@.len() == k,
                    forall|j: int|
                        0 <= j < k ==> (#[trigger] file_lines@[j]).0 == targets@[j]
                            && file_lines@[j].1@ == msg@,
                decreases targets@.len() - k,
            {
                file_lines.push((targets[k], msg.clone()));
                k = k + 1;
            }
            proof {
                assert forall|l: Level| #[trigger]
                    writes_level(file_lines@, l) <==> (self.level_active(l) && rank_spec(l)
                        <= rank_spec(effective_level_spec(record.level, self.collapse()))) by {
                    if writes_level(file_lines@, l) {
                        let i = choose|i: int|
                            0 <= i < file_lines@.len() && file_lines@[i].0 == l;
                        assert(targets@[i] == l);
                        assert(targets@.contains(l));
                    }
                    if self.level_active(l) && rank_spec(l) <= rank_spec(
                        effective_level_spec(record.level, self.collapse()),
                    ) {
                        assert(targets@.contains(l));
                        let i = choose|i: int| 0 <= i < targets@.len() && targets@[i] == l;
                        assert(file_lines@[i].0 == l);
                        assert(writes_level(file_lines@, l));
                    }
                }
            }
        }
        let matched = self.should_log_backtrace(record.file.as_str(), record.line);
        let backtrace = if matched {
            Some(capture_backtrace())
        } else {
            None
        };
        let backtrace_level = if matched && !self.flags.logtostderr {
            Some(self.match_level(&self.flags.minloglevel))
        } else {
            None
        };
        let halt = record.level == Level::Fatal;
        EventOutput { stderr_line, stderr_color, file_lines, backtrace, backtrace_level, halt }
    }

    /// Whether every line in `out` is the rendering of `record` at some
    /// well-formed clock reading `ts` and thread id `tid`.
    pub open spec fn lines_match(
        self,
        out: EventOutput,
        record: Record,
        ts: Timestamp,
        tid: nat,
    ) -> bool {
        &&& ts.wf()
        &&& (out.stderr_line matches Some(s) ==> s@ == self.line_seq_of(record, ts, tid))
        &&& (forall|i: int|
            0 <= i < out.file_lines@.len() ==> (#[trigger] out.file_lines@[i]).1@
                == self.line_seq_of(record, ts, tid))
    }

    /// One full logging call: applies the minimum-severity filter, reads
    /// the clock and the thread id, and computes the event's output plan.
    pub fn log(&self, record: &Record) -> (r: Option<EventOutput>)
        ensures
            (r is Some) == enabled_spec(self.flags.minloglevel, record.level),
            r matches Some(out) ==> {
                &&& out.halt == (record.level is Fatal)
                &&& (out.stderr_line is Some) == (self.flags.logtostderr
                    || self.flags.alsologtostderr)
                &&& out.stderr_color == (if self.flags.logtostderr || self.flags.alsologtostderr {
                    color_spec(self.flags.colorlogtostderr, record.level)
                } else {
                    None::<LogColor>
                })
                &&& (forall|i: int, j: int|
                    0 <= i < j < out.file_lines@.len() ==> rank_spec(out.file_lines@[i].0)
                        < rank_spec(out.file_lines@[j].0))
                &&& (out.backtrace is Some) == self.trigger_matches(
                    record.file@,
                    record.line as nat,
                )
                &&& out.backtrace_level == (if self.trigger_matches(
                    record.file@,
                    record.line as nat,
                ) && !self.flags.logtostderr {
                    Some(effective_level_spec(self.flags.minloglevel, self.collapse()))
                } else {
                    None::<Level>
                })
                &&& (self.flags.logtostderr ==> out.file_lines@.len() == 0)
                &&& (!self.flags.logtostderr ==> forall|l: Level|
                    #[trigger] writes_level(out.file_lines@, l) <==> (self.level_active(l)
                        && rank_spec(l) <= rank_spec(
                        effective_level_spec(record.level, self.collapse()),
                    )))
                &&& (exists|ts: Timestamp, tid: nat| self.lines_match(out, *record, ts, tid))
            },
    {
        if !self.enabled(record.level) {
            return None;
        }
        let now = now_timestamp();
        let tid = get_tid();
        let out = self.log_internal(record, now, tid);
        proof {
            assert(self.lines_match(out, *record, now, tid as nat));
        }
        Some(out)
    }
}

/// One log file to create: its severity, its full path and the header
/// block to write before any log line.
pub struct FileCreation {
    pub level: Level,
    pub path: String,
    pub header: String,
}

/// The executable name spelled into file names: the path's basename, or a
/// placeholder when the path yields none.
pub open spec fn exe_name_seq(path: Seq<char>) -> Seq<char> {
    if basename_seq(path).len() == 0 {
        "UNKNOWN"@
    } else {
        basename_seq(path)
    }
}

/// The file-name prefix shared by all severities: directory, executable
/// basename, hostname, username and the `.log.` marker.
pub open spec fn base_seq(dir: Seq<char>, exe: Seq<char>, host: Seq<char>, user: Seq<char>) -> Seq<
    char,
> {
    dir + exe + "."@ + host + "."@ + user + ".log."@
}

/// The per-run file-name suffix: a dot, the creation timestamp as
/// `YYYYMMDD-HHMMSS`, a dot and the process id.
pub open spec fn suffix_seq(ts: Timestamp, pid: nat) -> Seq<char> {
    "."@ + year_seq(ts.year as int) + pad2(ts.month as nat) + pad2(ts.day as nat) + "-"@ + pad2(
        ts.hour as nat,
    ) + pad2(ts.minute as nat) + pad2(ts.second as nat) + "."@ + dec_seq(pid)
}

/// The full path of the log file for severity `l`.
pub open spec fn log_file_path_seq(
    dir: Seq<char>,
    exe_path: Seq<char>,
    host: Seq<char>,
    user: Seq<char>,
    l: Level,
    ts: Timestamp,
    pid: nat,
) -> Seq<char> {
    base_seq(dir, exe_name_seq(exe_path), host, user) + upper_name_seq(l) + suffix_seq(ts, pid)
}

/// The process's running duration in whole seconds, clamped at zero when
/// the clock reads earlier than the recorded start.
pub open spec fn duration_secs(now_epoch: int, start_epoch: int) -> nat {
    if now_epoch >= start_epoch {
        (now_epoch - start_epoch) as nat
    } else {
        0
    }
}

/// The view of an optional fingerprint string.
pub open spec fn fp_view(o: Option<String>) -> Option<Seq<char>> {
    match o {
        Some(f) => Some(f@),
        None => None,
    }
}

/// The header block written at the top of every log file: creation time,
/// hostname, the optional application fingerprint, the running duration so
/// far (total hours, total minutes and total seconds), and a description of
/// the line format in effect.
pub open spec fn header_seq(
    ts: Timestamp,
    host: Seq<char>,
    fingerprint: Option<Seq<char>>,
    dur: nat,
    extended: bool,
    with_year: bool,
) -> Seq<char> {
    "Log file created at:\n"@ + year_seq(ts.year as int) + "/"@ + pad2(ts.month as nat) + "/"@
        + pad2(ts.day as nat) + " "@ + pad2(ts.hour as nat) + ":"@ + pad2(ts.minute as nat) + ":"@
        + pad2(ts.second as nat) + "\nRunning on machine: "@ + host + "\n"@ + (match fingerprint {
        Some(f) => "Application fingerprint: "@ + f + "\n"@,
        None => Seq::<char>::empty(),
    }) + "Running duration (h:mm:ss): "@ + dec_seq(dur / 3600) + ":"@ + pad2(dur / 60) + ":"@
        + pad2(dur) + "\nLog line format: ["@ + (if extended {
        "TD"@
    } else {
        Seq::<char>::empty()
    }) + "IWE]"@ + (if with_year {
        "yyyy"@
    } else {
        Seq::<char>::empty()
    }) + "mmdd hh:mm:ss.uuuuuu threadid file:line] msg\n"@
}

/// Whether the creation plan `r` holds a file for level `l`.
pub open spec fn plans_level(r: Seq<FileCreation>, l: Level) -> bool {
    exists|i: int| 0 <= i < r.len() && r[i].level == l
}

/// Appends the per-run file-name suffix.
#[verifier::rlimit(50)]
fn push_suffix(out: &mut String, ts: Timestamp, pid: u64)
    requires
        ts.wf(),
    ensures
        final(out)@ == old(out)@ + suffix_seq(ts, pid as nat),
{
    out.append(".");
    push_year(out, ts.year);
    push_dec_pad(out, ts.month as u64, 2, true);
    push_dec_pad(out, ts.day as u64, 2, true);
    out.append("-");
    push_dec_pad(out, ts.hour as u64, 2, true);
    push_dec_pad(out, ts.minute as u64, 2, true);
    push_dec_pad(out, ts.second as u64, 2, true);
    out.append(".");
    push_dec(out, pid);
    proof {
        assert(final(out)@ =~= old(out)@ + suffix_seq(ts, pid as nat));
    }
}

impl Glogger {
    /// Builds the header block for a log file created at clock reading
    /// `now` on machine `host`.
    #[verifier::rlimit(50)]
    pub fn build_file_header(&self, host: &str, now: Timestamp) -> (r: String)
        requires
            self.wf(),
            now.wf(),
        ensures
            r@ == header_seq(
                now,
                host@,
                fp_view(self.application_fingerprint),
                duration_secs(now.epoch_seconds as int, self.start_epoch_seconds as int),
                self.extensions.with_rust_levels,
                self.extensions.with_year,
            ),
    {
        let dur: u64 = if now.epoch_seconds >= self.start_epoch_seconds {
            (now.epoch_seconds - self.start_epoch_seconds) as u64
        } else {
            0
        };
        let mut out = String::new();
        out.append("Log file created at:\n");
        push_year(&mut out, now.year);
        out.append("/");
        push_dec_pad(&mut out, now.month as u64, 2, true);
        out.append("/");
        push_dec_pad(&mut out, now.day as u64, 2, true);
        out.append(" ");
        push_dec_pad(&mut out, now.hour as u64, 2, true);
        out.append(":");
        push_dec_pad(&mut out, now.minute as u64, 2, true);
        out.append(":");
        push_dec_pad(&mut out, now.second as u64, 2, true);
        out.append("\nRunning on machine: ");
        out.append(host);
        out.append("\n");
        match &self.application_fingerprint {
            Some(f) => {
                out.append("Application fingerprint: ");
                out.append(f.as_str());
                out.append("\n");
            },
            None => {},
        }
        out.append("Running duration (h:mm:ss): ");
        push_dec(&mut out, dur / 3600);
        out.append(":");
        push_dec_pad(&mut out, dur / 60, 2, true);
        out.append(":");
        push_dec_pad(&mut out, dur, 2, true);
        out.append("\nLog line format: [");
        if self.extensions.with_rust_levels {
            out.append("TD");
        }
        out.append("IWE]");
        if self.extensions.with_year {
            out.append("yyyy");
        }
        out.append("mmdd hh:mm:ss.uuuuuu threadid file:line] msg\n");
        proof {
            assert(out@ =~= header_seq(
                now,
                host@,
                fp_view(self.application_fingerprint),
                duration_secs(now.epoch_seconds as int, self.start_epoch_seconds as int),
                self.extensions.with_rust_levels,
                self.extensions.with_year,
            ));
        }
        out
    }

    /// The file-creation plan from explicit identity values: one file per
    /// active severity, in ascending rank order, each with its path and its
    /// header block.
    #[verifier::loop_isolation(false)]
    pub fn plan_log_files(
        &self,
        exe_path: &str,
        host: &str,
        user: &str,
        pid: u64,
        now: Timestamp,
    ) -> (r: Vec<FileCreation>)
        requires
            self.wf(),
            now.wf(),
        ensures
            forall|l: Level| #[trigger] plans_level(r@, l) <==> self.level_active(l),
            forall|i: int, j: int|
                0 <= i < j < r@.len() ==> rank_spec(r@[i].level) < rank_spec(r@[j].level),
            forall|i: int|
                0 <= i < r@.len() ==> (#[trigger] r@[i]).path@ == log_file_path_seq(
                    self.flags.log_dir@,
                    exe_path@,
                    host@,
                    user@,
                    r@[i].level,
                    now,
                    pid as nat,
                ),
            forall|i: int|
                0 <= i < r@.len() ==> (#[trigger] r@[i]).header@ == header_seq(
                    now,
                    host@,
                    fp_view(self.application_fingerprint),
                    duration_secs(now.epoch_seconds as int, self.start_epoch_seconds as int),
                    self.extensions.with_rust_levels,
                    self.extensions.with_year,
                ),
    {
        let header = self.build_file_header(host, now);
        let exe_base = basename(exe_path);
        let exe_name = if exe_base.as_str().unicode_len() == 0 {
            String::from_str("UNKNOWN")
        } else {
            exe_base
        };
        let mut base = String::new();
        base.append(self.flags.log_dir.as_str());
        base.append(exe_name.as_str());
        base.append(".");
        base.append(host);
        base.append(".");
        base.append(user);
        base.append(".log.");
        proof {
            assert(base@ =~= base_seq(
                self.flags.log_dir@,
                exe_name_seq(exe_path@),
                host@,
                user@,
            ));
        }
        let mut suffix = String::new();
        push_suffix(&mut suffix, now, pid);
        let levels = levels_in_range(
            self.flags.minloglevel,
            self.extensions.with_rust_levels,
            3,
        );
        let mut r: Vec<FileCreation> = Vec::new();
        let mut k: usize = 0;
        while k < levels.len()
            invariant
                k <= levels@.len(),
                r@.len() == k,
                forall|j: int|
                    0 <= j < k ==> (#[trigger] r@[j]).level == levels@[j] && r@[j].path@ == base@
                        + upper_name_seq(levels@[j]) + suffix@ && r@[j].header@ == header@,
            decreases levels@.len() - k,
        {
            let level = levels[k];
            let mut path = base.clone();
            path.append(level.upper_name());
            path.append(suffix.as_str());
            r.push(FileCreation { level, path, header: header.clone() });
            k = k + 1;
        }
        proof {
            assert forall|l: Level| #[trigger]
                plans_level(r@, l) <==> self.level_active(l) by {
                if plans_level(r@, l) {
                    let i = choose|i: int| 0 <= i < r@.len() && r@[i].level == l;
                    assert(levels@[i] == l);
                    assert(levels@.contains(l));
                }
                if self.level_active(l) {
                    assert(levels@.contains(l));
                    let i = choose|i: int| 0 <= i < levels@.len() && levels@[i] == l;
                    assert(r@[i].level == l);
                    assert(plans_level(r@, l));
                }
            }
        }
        r
    }

    /// Whether the plan `r` spells the paths and headers for identity
    /// values `exe_path`, `host`, `user`, `pid` read at clock reading `ts`.
    pub open spec fn plan_matches(
        self,
        r: Seq<FileCreation>,
        exe_path: Seq<char>,
        host: Seq<char>,
        user: Seq<char>,
        pid: nat,
        ts: Timestamp,
    ) -> bool {
        &&& ts.wf()
        &&& forall|i: int|
            0 <= i < r.len() ==> (#[trigger] r[i]).path@ == log_file_path_seq(
                self.flags.log_dir@,
                exe_path,
                host,
                user,
                r[i].level,
                ts,
                pid,
            )
        &&& forall|i: int|
            0 <= i < r.len() ==> (#[trigger] r[i]).header@ == header_seq(
                ts,
                host,
                fp_view(self.application_fingerprint),
                duration_secs(ts.epoch_seconds as int, self.start_epoch_seconds as int),
                self.extensions.with_rust_levels,
                self.extensions.with_year,
            )
    }

    /// The file-creation plan for this process: reads hostname, username
    /// and the clock, applies the placeholder fallbacks, and plans one file
    /// per active severity.
    pub fn create_log_files(&self, exe_path: &str, pid: u64) -> (r: Vec<FileCreation>)
        requires
            self.wf(),
        ensures
            forall|l: Level| #[trigger] plans_level(r@, l) <==> self.level_active(l),
            forall|i: int, j: int|
                0 <= i < j < r@.len() ==> rank_spec(r@[i].level) < rank_spec(r@[j].level),
            exists|host: Seq<char>, user: Seq<char>, ts: Timestamp|
                self.plan_matches(r@, exe_path@, host, user, pid as nat, ts),
    {
        let host = hostname_or_placeholder();
        let user = username_or_placeholder();
        let now = now_timestamp();
        let r = self.plan_log_files(exe_path, host.as_str(), user.as_str(), pid, now);
        proof {
            assert(self.plan_matches(r@, exe_path@, host@, user@, pid as nat, now));
        }
        r
    }
}

} // verus!
