//! The process-wide binding between native log emission and the host
//! logger object: the log-sink capability itself.

use vstd::prelude::*;
use crate::format::{format_message, LogRecord};
use crate::host;
use crate::level::SLF4JLogLevel;

verus! {

/// Why a single boundary operation failed. Every variant degrades
/// gracefully: a broken logger must never become the reason the host
/// application itself fails.
#[derive(Clone, Copy, Debug, PartialEq, Eq, Structural)]
pub enum AdapterError {
    /// The host runtime handle could not be obtained.
    RuntimeHandle,
    /// The host logger object could not be pinned into a durable reference.
    DurableReference,
    /// The calling thread could not obtain an execution context.
    Attachment,
    /// The host-side string object could not be constructed.
    StringConstruction,
    /// The leveled host method call itself failed at the boundary.
    HostCall,
    /// The pending-exception state could not be read or cleared.
    ExceptionState,
}

/// What a completed call sequence amounts to, judged from the boundary
/// call's own result and the pending-exception flag read right after it.
#[derive(Clone, Copy, Debug, PartialEq, Eq, Structural)]
pub enum CallOutcome {
    /// No pending exception and the call returned cleanly.
    Delivered,
    /// The host runtime holds a pending exception: the record is lost,
    /// the exception is cleared, and the process continues.
    LostToException,
    /// No pending exception, but the boundary call itself failed.
    BoundaryError,
}

/// A pending host exception dominates the call's own result: it marks the
/// record as lost whether or not the call reported success.
pub open spec fn call_outcome_spec(call_ok: bool, exception_pending: bool) -> CallOutcome {
    if exception_pending {
        CallOutcome::LostToException
    } else if call_ok {
        CallOutcome::Delivered
    } else {
        CallOutcome::BoundaryError
    }
}

pub fn classify_call(call_ok: bool, exception_pending: bool) -> (r: CallOutcome)
    ensures
        r == call_outcome_spec(call_ok, exception_pending),
{
    if exception_pending {
        CallOutcome::LostToException
    } else if call_ok {
        CallOutcome::Delivered
    } else {
        CallOutcome::BoundaryError
    }
}

/// The single process-wide binding between native log emission and the
/// host logger object: a handle to the host runtime, used to obtain a
/// per-call execution context on whichever thread is logging, and a
/// durable reference to the host logger object.
pub struct SLF4JLogger {
    vm: jni::JavaVM,
    logger_class: jni::objects::GlobalRef,
}

impl SLF4JLogger {
    /// Binds to the live execution context's runtime handle and wraps the
    /// caller-supplied host logger object into a reference valid beyond
    /// the constructing call's lifetime. Success depends on the host
    /// runtime alone; only the error taxonomy can be pinned down.
    pub fn new(env: &jni::JNIEnv, logger_obj: &jni::objects::JObject) -> (r: Result<
        Self,
        AdapterError,
    >)
        ensures
            r matches Err(e) ==> e == AdapterError::RuntimeHandle || e
                == AdapterError::DurableReference,
    {
        let vm = match host::get_java_vm(env) {
            Ok(vm) => vm,
            Err(_) => { return Err(AdapterError::RuntimeHandle) },
        };
        let logger_class = match host::new_global_ref(env, logger_obj) {
            Ok(g) => g,
            Err(_) => { return Err(AdapterError::DurableReference) },
        };
        Ok(SLF4JLogger { vm, logger_class })
    }

    /// One log attempt across the boundary: obtain a fresh execution
    /// context for the calling thread, flatten the record, build the host
    /// string, invoke the host method named by the record's level, then
    /// check for a pending host exception. A pending exception is cleared
    /// and downgraded to a standard-error diagnostic (the record is lost,
    /// the process continues); a boundary-call failure is reported the
    /// same way and surfaced as the error. Success depends on the host
    /// runtime; only the error taxonomy can be pinned down.
    pub fn log_impl(&self, record: &LogRecord) -> (r: Result<(), AdapterError>)
        ensures
            r matches Err(e) ==> e == AdapterError::Attachment || e
                == AdapterError::StringConstruction || e == AdapterError::HostCall || e
                == AdapterError::ExceptionState,
    {
        let mut env = match host::attach_current_thread(&self.vm) {
            Ok(env) => env,
            Err(_) => { return Err(AdapterError::Attachment) },
        };
        let name = SLF4JLogLevel::of_level(record.level).method_name();
        let message = format_message(record);
        let jstr = match host::new_host_string(&env, message.as_str()) {
            Ok(s) => s,
            Err(_) => { return Err(AdapterError::StringConstruction) },
        };
        let call_result = host::call_void_string_method(&mut env, &self.logger_class, name, &jstr);
        let pending = match host::exception_check(&env) {
            Ok(p) => p,
            Err(_) => { return Err(AdapterError::ExceptionState) },
        };
        match classify_call(call_result.is_ok(), pending) {
            CallOutcome::Delivered => Ok(()),
            CallOutcome::LostToException => {
                let mut diag = String::from_str("Exception occurred logging to JVM:\n");
                diag.append(message.as_str());
                host::write_stderr_line(diag.as_str());
                match host::exception_clear(&env) {
                    Ok(_) => Ok(()),
                    Err(_) => Err(AdapterError::ExceptionState),
                }
            },
            CallOutcome::BoundaryError => {
                let mut diag = String::from_str("Error logging to JVM: ");
                if let Err(e) = &call_result {
                    diag.append(host::error_description(e).as_str());
                }
                diag.append("\n");
                diag.append(message.as_str());
                host::write_stderr_line(diag.as_str());
                Err(AdapterError::HostCall)
            },
        }
    }

    /// A failed log attempt is swallowed: there is no reliable sink left
    /// to report it to.
    pub fn log(&self, record: &LogRecord) {
        match self.log_impl(record) {
            Ok(_) => (),
            Err(_) => (),
        }
    }

    /// The sink itself never filters; all filtering is delegated to the
    /// process-wide maximum level, so this is intentionally permissive.
    pub fn enabled(&self) -> (r: bool)
        ensures
            r,
    {
        true
    }

    /// Host method calls are synchronous and unbuffered: nothing to flush.
    pub fn flush(&self) {
    }
}

} // verus!
