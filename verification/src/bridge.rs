//! The decisions behind the three host-callable boundary operations.
//!
//! The operations' outer shells — the foreign-function signatures, the
//! panic containment around them, and the sink installation, which needs
//! an implementation of the facade's sink trait — live outside the
//! verified crate and hand events back in as plain values.

use vstd::prelude::*;
use crate::facade;
use crate::host;
use crate::level::{Level, SLF4JLogLevel};

verus! {

/// Decodes a host wire integer into the process-wide maximum level and
/// stores it in the facade. An unrecognized integer falls back to Warn,
/// the conservative default for a global filter level.
pub fn set_max_level_from_slf4j_level(max_level: i32) {
    let level = SLF4JLogLevel::decode_or(max_level, SLF4JLogLevel::Warn);
    facade::set_facade_max_level(level.to_level());
}

/// The one informational record announcing a completed initialization.
pub open spec fn init_message_spec(name: Seq<char>, version: Seq<char>) -> Seq<char> {
    "Initializing "@ + name + " version:"@ + version
}

/// The one warning record announcing a benign duplicate initialization.
pub open spec fn duplicate_init_message_spec(name: Seq<char>) -> Seq<char> {
    "Duplicate logger initialization ignored for "@ + name
}

/// Finishes an initialization attempt once the sink installation has been
/// tried. When the sink was installed, applies the requested maximum
/// level (with the Warn fallback), installs the panic-logging hook, and
/// yields the informational record to emit; when a sink was already
/// installed, the duplicate is benign — no error, no replacement — and
/// only a warning record for the first sink is yielded.
pub fn finish_initialization(
    installed: bool,
    max_level: i32,
    resolved_backtraces: bool,
    name: &str,
    version: &str,
) -> (r: (Level, String))
    ensures
        installed ==> r.0 == Level::Info && r.1@ == init_message_spec(name@, version@),
        !installed ==> r.0 == Level::Warn && r.1@ == duplicate_init_message_spec(name@),
{
    if installed {
        set_max_level_from_slf4j_level(max_level);
        facade::install_panic_logging_hook(resolved_backtraces);
        let mut msg = String::from_str("Initializing ");
        msg.append(name);
        msg.append(" version:");
        msg.append(version);
        (Level::Info, msg)
    } else {
        let mut msg = String::from_str("Duplicate logger initialization ignored for ");
        msg.append(name);
        (Level::Warn, msg)
    }
}

/// Prepares the ad hoc test record: decodes the level, falling back to
/// Info — a harmless default for a one-off record — and decodes the host
/// string message. Yields nothing when the message cannot be decoded, in
/// which case no record is emitted at all. The message contents come from
/// the host runtime, so only the level can be pinned down.
pub fn test_record(env: &mut jni::JNIEnv, level: i32, message: &jni::objects::JString) -> (r:
    Option<(Level, String)>)
    ensures
        r matches Some(p) ==> p.0 == SLF4JLogLevel::decode_or_spec(
            level,
            SLF4JLogLevel::Info,
        ).to_level_spec(),
{
    let decoded = SLF4JLogLevel::decode_or(level, SLF4JLogLevel::Info);
    match host::get_host_string(env, message) {
        Ok(text) => Some((decoded.to_level(), text)),
        Err(_) => None,
    }
}

} // verus!
