//! A glog-style structured logging backend.
//!
//! The crate models the dispatch, formatting and file fan-out engine of the
//! glog text format: an ordered severity model with a configurable collapsing
//! rule, a fixed-column line formatter, a cascading file fan-out plan, a
//! conditional backtrace trigger and an idempotent logger lifecycle.  All
//! decisions and all text are computed by verified code; the surrounding
//! binary performs the actual file and terminal writes.

pub mod flags;
pub mod laws;
pub mod level;
pub mod logger;
pub mod render;
pub mod sys;
pub mod time;

pub use flags::Extensions;
pub use flags::Flags;
pub use level::Level;
pub use logger::new;
pub use logger::EventOutput;
pub use logger::FileCreation;
pub use logger::Glogger;
pub use logger::LogColor;
pub use logger::Record;
pub use sys::get_tid;
pub use time::Timestamp;
