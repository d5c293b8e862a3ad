//! The engine's general laws, stated once and proved: cascading fan-out
//! bounds, collapsing, backtrace-trigger exactness and idempotent
//! initialization.  The year-flag law lives beside the formatter in
//! `render`.

use vstd::prelude::*;

use crate::flags::Flags;
use crate::level::abbrev_seq;
use crate::level::effective_level_spec;
use crate::level::rank_spec;
use crate::level::Level;
use crate::logger::after_init;
use crate::logger::level_active_spec;
use crate::logger::trigger_seq;
use crate::logger::Glogger;
use crate::render::dec_seq;
use crate::render::lemma_dec_seq_injective;

verus! {

/// Cascading fan-out bounds: a file receives an event filed at effective
/// level `e` only when its rank lies between the configured minimum rank
/// and `rank(e)`, and a file of rank above `rank(e)` never receives it.
/// The write set grows monotonically with the event's effective rank, which
/// is the cascade: whatever a less severe event reaches, a more severe one
/// reaches too.
pub proof fn lemma_fan_out_bounds(min: Level, extended: bool, e1: Level, e2: Level, l: Level)
    ensures
        (level_active_spec(min, extended, l) && rank_spec(l) <= rank_spec(e1)) ==> rank_spec(min)
            <= rank_spec(l) <= rank_spec(e1),
        rank_spec(l) > rank_spec(e1) ==> !(level_active_spec(min, extended, l) && rank_spec(l)
            <= rank_spec(e1)),
        rank_spec(e1) <= rank_spec(e2) ==> ((level_active_spec(min, extended, l) && rank_spec(l)
            <= rank_spec(e1)) ==> (level_active_spec(min, extended, l) && rank_spec(l)
            <= rank_spec(e2))),
{
}

/// Collapsing: with extended levels disabled, `Trace` and `Debug` events
/// are filed as `Info` and rendered with `Info`'s abbreviation, no `Trace`
/// or `Debug` file is active, and every active file sits at or above the
/// rank of the effective minimum level.
pub proof fn lemma_collapsing(min: Level, l: Level)
    ensures
        effective_level_spec(Level::Trace, true) == Level::Info,
        effective_level_spec(Level::Debug, true) == Level::Info,
        abbrev_seq(effective_level_spec(Level::Trace, true)) == abbrev_seq(Level::Info),
        abbrev_seq(effective_level_spec(Level::Debug, true)) == abbrev_seq(Level::Info),
        !level_active_spec(min, false, Level::Trace),
        !level_active_spec(min, false, Level::Debug),
        level_active_spec(min, false, l) ==> rank_spec(l) >= rank_spec(
            effective_level_spec(min, true),
        ),
{
}

/// Backtrace-trigger exactness in the line number: for one source file,
/// triggers configured for different lines never both match one event.
pub proof fn lemma_trigger_line_exact(file: Seq<char>, l1: nat, l2: nat)
    requires
        l1 != l2,
    ensures
        trigger_seq(file, l1) != trigger_seq(file, l2),
{
    reveal_strlit(":");
    lemma_dec_seq_injective(l1, l2);
    if trigger_seq(file, l1) == trigger_seq(file, l2) {
        assert(trigger_seq(file, l1).skip(file.len() as int + 1) =~= dec_seq(l1));
        assert(trigger_seq(file, l2).skip(file.len() as int + 1) =~= dec_seq(l2));
    }
}

/// Backtrace-trigger exactness in the file name: two different source
/// names of equal length never produce the same trigger text.
pub proof fn lemma_trigger_file_exact(f1: Seq<char>, f2: Seq<char>, line: nat)
    requires
        f1.len() == f2.len(),
        f1 != f2,
    ensures
        trigger_seq(f1, line) != trigger_seq(f2, line),
{
    if trigger_seq(f1, line) == trigger_seq(f2, line) {
        assert(trigger_seq(f1, line).take(f1.len() as int) =~= f1);
        assert(trigger_seq(f2, line).take(f2.len() as int) =~= f2);
    }
}

/// Distinct severities get distinct files: two different levels planned
/// from the same identity values never share a path, because every level's
/// upper-case name begins with its own letter right after the shared
/// prefix.
pub proof fn lemma_plan_paths_distinct(
    dir: Seq<char>,
    exe_path: Seq<char>,
    host: Seq<char>,
    user: Seq<char>,
    l1: Level,
    l2: Level,
    ts: crate::time::Timestamp,
    pid: nat,
)
    requires
        l1 != l2,
    ensures
        crate::logger::log_file_path_seq(dir, exe_path, host, user, l1, ts, pid)
            != crate::logger::log_file_path_seq(dir, exe_path, host, user, l2, ts, pid),
{
    reveal_strlit("VERBOSE");
    reveal_strlit("TRACE");
    reveal_strlit("DEBUG");
    reveal_strlit("INFO");
    reveal_strlit("WARN");
    reveal_strlit("ERROR");
    reveal_strlit("FATAL");
    let b = crate::logger::base_seq(dir, crate::logger::exe_name_seq(exe_path), host, user);
    let p1 = crate::logger::log_file_path_seq(dir, exe_path, host, user, l1, ts, pid);
    let p2 = crate::logger::log_file_path_seq(dir, exe_path, host, user, l2, ts, pid);
    assert(p1[b.len() as int] == crate::level::upper_name_seq(l1)[0]);
    assert(p2[b.len() as int] == crate::level::upper_name_seq(l2)[0]);
    assert(crate::level::upper_name_seq(l1)[0] != crate::level::upper_name_seq(l2)[0]);
}

/// Idempotent initialization: once a first call has installed a
/// configuration, a second call with any other configuration changes
/// nothing — one active configuration, the first, and no second round of
/// file creation.
pub proof fn lemma_init_idempotent(g: Glogger, f1: Flags, f2: Flags)
    ensures
        after_init(after_init(g, f1), f2) == after_init(g, f1),
        after_init(g, f1).initialized,
        !g.initialized ==> after_init(g, f1).flags == f1,
{
}

} // verus!
