use glog::sys::fallback_hostname;
use glog::sys::fallback_username;
use glog::Extensions;
use glog::Flags;
use glog::Glogger;
use glog::Level;
use glog::LogColor;
use glog::Record;
use glog::Timestamp;

fn ts(
    year: i32,
    month: u32,
    day: u32,
    hour: u32,
    minute: u32,
    second: u32,
    micros: u32,
    epoch_seconds: i64,
) -> Timestamp {
    Timestamp { year, month, day, hour, minute, second, micros, epoch_seconds }
}

fn flags(min: Level) -> Flags {
    Flags {
        colorlogtostderr: false,
        minloglevel: min,
        log_backtrace_at: None,
        logtostderr: false,
        alsologtostderr: false,
        log_dir: String::new(),
    }
}

fn glogger(min: Level, extended: bool) -> Glogger {
    Glogger {
        flags: flags(min),
        extensions: Extensions { with_year: false, with_rust_levels: extended },
        application_fingerprint: None,
        start_epoch_seconds: 0,
        initialized: true,
    }
}

fn record(level: Level, file: &str, line: u32, msg: &str) -> Record {
    Record { line, args: String::from(msg), file: String::from(file), level }
}

fn file_levels(g: &Glogger, r: &Record) -> Vec<Level> {
    let out = g.log_internal(r, ts(2021, 4, 1, 12, 0, 0, 0, 100), 1);
    out.file_lines.iter().map(|p| p.0).collect()
}

#[test]
fn fan_out_cascades_down_to_the_minimum() {
    let g = glogger(Level::Info, false);
    assert_eq!(
        file_levels(&g, &record(Level::Error, "f.rs", 1, "x")),
        vec![Level::Info, Level::Warn, Level::Error]
    );
    assert_eq!(file_levels(&g, &record(Level::Info, "f.rs", 1, "x")), vec![Level::Info]);
    assert_eq!(
        file_levels(&g, &record(Level::Warn, "f.rs", 1, "x")),
        vec![Level::Info, Level::Warn]
    );
    let g2 = glogger(Level::Warn, false);
    assert_eq!(
        file_levels(&g2, &record(Level::Error, "f.rs", 1, "x")),
        vec![Level::Warn, Level::Error]
    );
    assert_eq!(
        file_levels(&g2, &record(Level::Fatal, "f.rs", 1, "x")),
        vec![Level::Warn, Level::Error, Level::Fatal]
    );
}

#[test]
fn collapsed_trace_is_filed_and_rendered_as_info() {
    let g = glogger(Level::Trace, false);
    let r = record(Level::Trace, "f.rs", 1, "x");
    let out = g.log_internal(&r, ts(2021, 4, 1, 12, 0, 0, 0, 100), 1);
    let levels: Vec<Level> = out.file_lines.iter().map(|p| p.0).collect();
    assert_eq!(levels, vec![Level::Info]);
    assert!(out.file_lines[0].1.starts_with('I'));
    let rd = record(Level::Debug, "f.rs", 1, "x");
    let out_d = g.log_internal(&rd, ts(2021, 4, 1, 12, 0, 0, 0, 100), 1);
    assert!(out_d.file_lines[0].1.starts_with('I'));
    assert_eq!(out_d.file_lines.len(), 1);
}

#[test]
fn extended_levels_route_to_their_own_files_without_rewriting_history() {
    // Simulate the Info file of a collapsed-levels logger ...
    let g = glogger(Level::Trace, false);
    let mut info_file: Vec<String> = Vec::new();
    let out = g.log_internal(&record(Level::Trace, "f.rs", 1, "old"), ts(2021, 4, 1, 12, 0, 0, 0, 100), 1);
    for (l, line) in &out.file_lines {
        assert_eq!(*l, Level::Info);
        info_file.push(line.clone());
    }
    let before = info_file.clone();
    // ... then enable extended levels: new Trace events go to a Trace file,
    // and the Info file's existing lines stay untouched.
    let g2 = glogger(Level::Trace, true);
    let out2 = g2.log_internal(&record(Level::Trace, "f.rs", 1, "new"), ts(2021, 4, 1, 12, 0, 0, 0, 100), 1);
    let levels2: Vec<Level> = out2.file_lines.iter().map(|p| p.0).collect();
    assert_eq!(levels2, vec![Level::Trace]);
    assert!(out2.file_lines[0].1.starts_with('T'));
    assert_eq!(info_file, before);
}

#[test]
fn backtrace_trigger_matches_exactly() {
    let mut g = glogger(Level::Info, false);
    g.flags.log_backtrace_at = Some(String::from("foo.ext:42"));
    assert!(g.should_log_backtrace("foo.ext", 42));
    assert!(!g.should_log_backtrace("foo.ext", 43));
    assert!(!g.should_log_backtrace("bar.ext", 42));
    let out = g.log_internal(&record(Level::Warn, "foo.ext", 42, "x"), ts(2021, 4, 1, 12, 0, 0, 0, 100), 1);
    assert!(out.backtrace.is_some());
    assert_eq!(out.backtrace_level, Some(Level::Info));
    let out2 = g.log_internal(&record(Level::Warn, "foo.ext", 43, "x"), ts(2021, 4, 1, 12, 0, 0, 0, 100), 1);
    assert!(out2.backtrace.is_none());
    assert_eq!(out2.backtrace_level, None);
    let out3 = g.log_internal(&record(Level::Warn, "bar.ext", 42, "x"), ts(2021, 4, 1, 12, 0, 0, 0, 100), 1);
    assert!(out3.backtrace.is_none());
}

#[test]
fn trigger_fires_below_the_minimum_severity_too() {
    // The only gate is the file:line match, not the severity filter.
    let mut g = glogger(Level::Warn, false);
    g.flags.log_backtrace_at = Some(String::from("f.rs:1"));
    let out = g.log_internal(&record(Level::Debug, "f.rs", 1, "x"), ts(2021, 4, 1, 12, 0, 0, 0, 100), 1);
    assert!(out.backtrace.is_some());
}

#[test]
fn initialization_is_idempotent() {
    let mut g = glog::new();
    let first = g.init(flags(Level::Warn));
    assert!(first);
    assert!(g.initialized);
    assert_eq!(g.flags.minloglevel, Level::Warn);
    let second = g.init(flags(Level::Trace));
    assert!(!second);
    assert_eq!(g.flags.minloglevel, Level::Warn);
    // File creation runs only on the winning call, so no duplicates arise.
    let mut creations = 0;
    for init_won in [first, second] {
        if init_won {
            creations += g.plan_log_files("/bin/app", "h", "u", 7, ts(2021, 4, 1, 12, 0, 0, 0, 100)).len();
        }
    }
    assert_eq!(creations, 3);
}

#[test]
fn warn_minimum_scenario() {
    // Initializing with minimum severity Warn and file output requested ...
    let g = glogger(Level::Warn, false);
    let now = ts(2021, 4, 1, 12, 0, 0, 0, 100);
    let plan = g.plan_log_files("/bin/app", "h", "u", 7, now);
    let planned: Vec<Level> = plan.iter().map(|f| f.level).collect();
    assert_eq!(planned, vec![Level::Warn, Level::Error, Level::Fatal]);
    let mut warn_file: Vec<String> = Vec::new();
    fn apply(warn_file: &mut Vec<String>, out: glog::EventOutput) {
        for (l, line) in out.file_lines {
            if l == Level::Warn {
                warn_file.push(line);
            }
        }
    }
    // ... one Warn event lands in the Warn file,
    apply(&mut warn_file, g.log_internal(&record(Level::Warn, "f.rs", 1, "w"), now, 1));
    assert_eq!(warn_file.len(), 1);
    // ... an Info event is below the minimum and never reaches the files,
    assert!(!g.enabled(Level::Info));
    assert!(g.log(&record(Level::Info, "f.rs", 1, "i")).is_none());
    // ... and a subsequent Error event cascades into the Warn file.
    apply(&mut warn_file, g.log_internal(&record(Level::Error, "f.rs", 1, "e"), now, 1));
    assert_eq!(warn_file.len(), 2);
}

#[test]
fn stderr_only_suppresses_files() {
    let mut g = glogger(Level::Info, false);
    g.flags.logtostderr = true;
    let out = g.log_internal(&record(Level::Error, "f.rs", 1, "x"), ts(2021, 4, 1, 12, 0, 0, 0, 100), 1);
    assert!(out.stderr_line.is_some());
    assert!(out.file_lines.is_empty());
    assert_eq!(out.backtrace_level, None);
}

#[test]
fn also_stderr_writes_both() {
    let mut g = glogger(Level::Info, false);
    g.flags.alsologtostderr = true;
    let out = g.log_internal(&record(Level::Error, "f.rs", 1, "x"), ts(2021, 4, 1, 12, 0, 0, 0, 100), 1);
    assert!(out.stderr_line.is_some());
    assert_eq!(out.file_lines.len(), 3);
    assert_eq!(out.stderr_line.unwrap(), out.file_lines[0].1);
}

#[test]
fn colors_follow_severity() {
    let mut g = glogger(Level::Verbose, true);
    g.flags.alsologtostderr = true;
    g.flags.colorlogtostderr = true;
    let now = ts(2021, 4, 1, 12, 0, 0, 0, 100);
    let color = |level: Level| g.log_internal(&record(level, "f.rs", 1, "x"), now, 1).stderr_color;
    assert_eq!(color(Level::Fatal), Some(LogColor::Red));
    assert_eq!(color(Level::Error), Some(LogColor::Red));
    assert_eq!(color(Level::Warn), Some(LogColor::Yellow));
    assert_eq!(color(Level::Info), None);
    assert_eq!(color(Level::Debug), None);
    let mut plain = glogger(Level::Verbose, true);
    plain.flags.alsologtostderr = true;
    assert_eq!(plain.log_internal(&record(Level::Error, "f.rs", 1, "x"), now, 1).stderr_color, None);
}

#[test]
fn fatal_events_ask_the_caller_to_halt() {
    let g = glogger(Level::Info, false);
    let now = ts(2021, 4, 1, 12, 0, 0, 0, 100);
    assert!(g.log_internal(&record(Level::Fatal, "f.rs", 1, "x"), now, 1).halt);
    assert!(!g.log_internal(&record(Level::Error, "f.rs", 1, "x"), now, 1).halt);
    // Fatal is exempt from the filter: it always passes `enabled`.
    let strict = glogger(Level::Fatal, false);
    assert!(strict.enabled(Level::Fatal));
    assert!(!strict.enabled(Level::Error));
}

#[test]
fn header_text_is_exact() {
    let mut g = glogger(Level::Info, false);
    g.start_epoch_seconds = 0;
    let now = ts(2021, 4, 1, 12, 34, 56, 0, 3725);
    let header = g.build_file_header("myhost", now);
    assert_eq!(
        header,
        "Log file created at:\n2021/04/01 12:34:56\nRunning on machine: myhost\n\
         Running duration (h:mm:ss): 1:62:3725\n\
         Log line format: [IWE]mmdd hh:mm:ss.uuuuuu threadid file:line] msg\n"
    );
}

#[test]
fn header_shows_fingerprint_and_format_flags() {
    let mut g = glogger(Level::Info, true);
    g.extensions.with_year = true;
    g.application_fingerprint = Some(String::from("build-7"));
    g.start_epoch_seconds = 100;
    let now = ts(2021, 4, 1, 0, 0, 7, 0, 100);
    let header = g.build_file_header("m", now);
    assert_eq!(
        header,
        "Log file created at:\n2021/04/01 00:00:07\nRunning on machine: m\n\
         Application fingerprint: build-7\n\
         Running duration (h:mm:ss): 0:00:00\n\
         Log line format: [TDIWE]yyyymmdd hh:mm:ss.uuuuuu threadid file:line] msg\n"
    );
}

#[test]
fn file_paths_are_exact() {
    let mut g = glogger(Level::Warn, false);
    g.flags.log_dir = String::from("/tmp/");
    let now = ts(2021, 4, 1, 12, 34, 56, 0, 100);
    let plan = g.plan_log_files("/bin/myapp", "h", "u", 77, now);
    let paths: Vec<&str> = plan.iter().map(|f| f.path.as_str()).collect();
    assert_eq!(
        paths,
        vec![
            "/tmp/myapp.h.u.log.WARN.20210401-123456.77",
            "/tmp/myapp.h.u.log.ERROR.20210401-123456.77",
            "/tmp/myapp.h.u.log.FATAL.20210401-123456.77",
        ]
    );
    assert!(plan.iter().all(|f| f.header == plan[0].header));
}

#[test]
fn unknown_executable_gets_a_placeholder() {
    let g = glogger(Level::Error, false);
    let now = ts(2021, 4, 1, 12, 34, 56, 0, 100);
    let plan = g.plan_log_files("", "h", "u", 1, now);
    assert!(plan[0].path.starts_with("UNKNOWN.h.u.log.ERROR."));
}

#[test]
fn extended_levels_create_trace_and_debug_files() {
    let g = glogger(Level::Verbose, true);
    let now = ts(2021, 4, 1, 12, 34, 56, 0, 100);
    let planned: Vec<Level> = g.plan_log_files("/a", "h", "u", 1, now).iter().map(|f| f.level).collect();
    assert_eq!(
        planned,
        vec![
            Level::Verbose,
            Level::Trace,
            Level::Debug,
            Level::Info,
            Level::Warn,
            Level::Error,
            Level::Fatal,
        ]
    );
    let collapsed: Vec<Level> = glogger(Level::Verbose, false)
        .plan_log_files("/a", "h", "u", 1, now)
        .iter()
        .map(|f| f.level)
        .collect();
    assert_eq!(
        collapsed,
        vec![Level::Verbose, Level::Info, Level::Warn, Level::Error, Level::Fatal]
    );
}

#[test]
fn identity_fallbacks() {
    assert_eq!(fallback_hostname(None), "(unknown)");
    assert_eq!(fallback_hostname(Some(String::new())), "(unknown)");
    assert_eq!(fallback_hostname(Some(String::from("host1"))), "host1");
    assert_eq!(fallback_username(None), "invalid-user");
    assert_eq!(fallback_username(Some(String::new())), "invalid-user");
    assert_eq!(fallback_username(Some(String::from("alice"))), "alice");
}

#[test]
fn builders_set_extensions_and_fingerprint() {
    let g = glog::new()
        .with_year(true)
        .reduced_log_levels(false)
        .set_application_fingerprint("fp");
    assert!(g.extensions.with_year);
    assert!(g.extensions.with_rust_levels);
    assert_eq!(g.application_fingerprint.as_deref(), Some("fp"));
    assert!(!g.initialized);
    let back = g.with_year(false).reduced_log_levels(true);
    assert!(!back.extensions.with_year);
    assert!(!back.extensions.with_rust_levels);
}

#[test]
fn live_logging_call_produces_a_line() {
    let mut g = glog::new();
    g.init(flags(Level::Info));
    let out = g.log(&record(Level::Info, "live.rs", 3, "hello")).expect("enabled");
    assert_eq!(out.file_lines.len(), 1);
    assert_eq!(out.file_lines[0].0, Level::Info);
    let line = &out.file_lines[0].1;
    assert!(line.starts_with('I'));
    assert!(line.ends_with("live.rs:3] hello"));
    assert!(g.log(&record(Level::Debug, "live.rs", 4, "nope")).is_none());
}

#[test]
fn live_file_plan_uses_real_identity() {
    let g = glog::new();
    let plan = g.create_log_files("/bin/thing", 5);
    assert_eq!(plan.len(), 4);
    assert!(plan.iter().any(|f| f.path.contains(".log.INFO.")));
    assert!(plan.iter().all(|f| f.path.starts_with("thing.")));
    assert!(plan.iter().all(|f| f.path.ends_with(".5")));
    assert!(!plan.iter().any(|f| f.path.contains(".log.TRACE.")));
}

#[test]
fn record_basename_helper() {
    assert_eq!(Glogger::record_to_file_name("src/main.rs"), "main.rs");
    assert_eq!(Glogger::record_to_file_name(""), "");
}
