//! The native logging facade's process-wide state, reached only through
//! these trusted wrappers. The facade itself owns the two pieces of
//! shared mutable state: the installed sink and the maximum level.

use vstd::prelude::*;
use crate::level::Level;

verus! {

/// Relies on log::set_max_level: stores the process-wide maximum level in
/// the logging facade. Records above the stored level are suppressed by
/// the facade before they reach the installed sink; last writer wins.
#[verifier::external_body]
pub(crate) fn set_facade_max_level(level: Level) {
    log::set_max_level(
        match level {
            Level::Trace => log::LevelFilter::Trace,
            Level::Debug => log::LevelFilter::Debug,
            Level::Info => log::LevelFilter::Info,
            Level::Warn => log::LevelFilter::Warn,
            Level::Error => log::LevelFilter::Error,
        },
    );
}

/// Relies on log_panics::Config (new, backtrace_mode, install_panic_hook):
/// installs a hook that routes panics raised outside the contained entry
/// points into the logging facade, with backtraces resolved or left as
/// bare addresses.
#[verifier::external_body]
pub(crate) fn install_panic_logging_hook(resolved_backtraces: bool) {
    let mode = if resolved_backtraces {
        log_panics::BacktraceMode::Resolved
    } else {
        log_panics::BacktraceMode::Unresolved
    };
    log_panics::Config::new().backtrace_mode(mode).install_panic_hook();
}

} // verus!
