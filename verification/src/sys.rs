//! Trusted boundary to the operating system: thread id, host identity and
//! stack capture.  Each wrapper makes exactly one outside call; verified
//! code applies the fallback rules to whatever comes back.

use vstd::prelude::*;

verus! {

/// Relies on `nix::unistd::gettid`: the calling thread's numeric id, stable
/// for the thread's lifetime.  Which number comes back depends on the
/// thread, so nothing is promised about the value.
#[verifier::external_body]
fn os_thread_id() -> u64 {
    nix::unistd::gettid().as_raw() as u64
}

/// The calling thread's numeric identifier, as rendered into the line's
/// thread-id column.
pub fn get_tid() -> u64 {
    os_thread_id()
}

/// Relies on `gethostname::gethostname`: the machine's hostname, handed
/// back only when it is valid UTF-8.  The value depends on the machine, so
/// nothing is promised about it.
#[verifier::external_body]
pub(crate) fn os_hostname() -> Option<String> {
    gethostname::gethostname().into_string().ok()
}

/// Relies on `whoami::username`: the current user's name, when the OS can
/// report one.  The value depends on the environment, so nothing is
/// promised about it.
#[verifier::external_body]
pub(crate) fn os_username() -> Option<String> {
    whoami::username().ok()
}

/// Relies on `backtrace::Backtrace::new` and its `Debug` rendering: the
/// full current call stack of the logging thread as text.  The text depends
/// on the call stack, so nothing is promised about it.
#[verifier::external_body]
pub(crate) fn capture_backtrace() -> String {
    format!("{:?}", backtrace::Backtrace::new())
}

/// The hostname to spell into file names and headers: the OS value when it
/// is present and non-empty, a fixed placeholder otherwise.
pub fn fallback_hostname(h: Option<String>) -> (r: String)
    ensures
        r@ == (match h {
            Some(s) => if s@.len() > 0 {
                s@
            } else {
                "(unknown)"@
            },
            None => "(unknown)"@,
        }),
        r@.len() > 0,
{
    proof {
        reveal_strlit("(unknown)");
    }
    match h {
        Some(s) => {
            if s.as_str().unicode_len() > 0 {
                s
            } else {
                String::from_str("(unknown)")
            }
        },
        None => String::from_str("(unknown)"),
    }
}

/// The username to spell into file names: the OS value when it is present
/// and non-empty, a fixed placeholder otherwise.
pub fn fallback_username(u: Option<String>) -> (r: String)
    ensures
        r@ == (match u {
            Some(s) => if s@.len() > 0 {
                s@
            } else {
                "invalid-user"@
            },
            None => "invalid-user"@,
        }),
        r@.len() > 0,
{
    proof {
        reveal_strlit("invalid-user");
    }
    match u {
        Some(s) => {
            if s.as_str().unicode_len() > 0 {
                s
            } else {
                String::from_str("invalid-user")
            }
        },
        None => String::from_str("invalid-user"),
    }
}

/// The machine's hostname with the placeholder fallback applied.
pub fn hostname_or_placeholder() -> (r: String)
    ensures
        r@.len() > 0,
{
    fallback_hostname(os_hostname())
}

/// The current username with the placeholder fallback applied.
pub fn username_or_placeholder() -> (r: String)
    ensures
        r@.len() > 0,
{
    fallback_username(os_username())
}

} // verus!
