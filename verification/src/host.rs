//! The foreign-function boundary to the host runtime.
//!
//! Every call into the host runtime crate is made through one of the
//! trusted wrappers below; nothing else in the crate touches it. All of
//! the wrapped calls depend on live host-runtime state, so their
//! contracts promise nothing of their results: the callers state what
//! holds whatever comes back.

use std::io::Write;
use vstd::prelude::*;

verus! {

#[verifier::external_type_specification]
#[verifier::external_body]
pub struct ExJObjectRaw(jni_sys::_jobject);

#[verifier::external_type_specification]
#[verifier::external_body]
pub struct ExJNIEnv<'local>(jni::JNIEnv<'local>);

#[verifier::external_type_specification]
#[verifier::external_body]
pub struct ExJavaVM(jni::JavaVM);

#[verifier::external_type_specification]
#[verifier::external_body]
pub struct ExGlobalRef(jni::objects::GlobalRef);

#[verifier::external_type_specification]
#[verifier::external_body]
pub struct ExJObject<'local>(jni::objects::JObject<'local>);

#[verifier::external_type_specification]
#[verifier::external_body]
pub struct ExJString<'local>(jni::objects::JString<'local>);

#[verifier::external_type_specification]
#[verifier::external_body]
pub struct ExJniError(jni::errors::Error);

/// Relies on jni::JNIEnv::get_java_vm: obtains the process-wide host
/// runtime handle backing this execution context.
#[verifier::external_body]
pub(crate) fn get_java_vm(env: &jni::JNIEnv) -> (r: Result<jni::JavaVM, jni::errors::Error>) {
    env.get_java_vm()
}

/// Relies on jni::JNIEnv::new_global_ref: pins a host object into a
/// reference that stays valid beyond the current call and across host
/// garbage collection.
#[verifier::external_body]
pub(crate) fn new_global_ref(env: &jni::JNIEnv, obj: &jni::objects::JObject) -> (r: Result<
    jni::objects::GlobalRef,
    jni::errors::Error,
>) {
    env.new_global_ref(obj)
}

/// Relies on jni::JavaVM::attach_current_thread_permanently: yields an
/// execution context for the calling thread, attaching the thread to the
/// host runtime first if it was never attached. This is what makes
/// logging safe from threads the host has never seen.
#[verifier::external_body]
pub(crate) fn attach_current_thread<'a>(vm: &'a jni::JavaVM) -> (r: Result<
    jni::JNIEnv<'a>,
    jni::errors::Error,
>) {
    vm.attach_current_thread_permanently()
}

/// Relies on jni::JNIEnv::new_string: builds a host-side string object
/// from native string contents.
#[verifier::external_body]
pub(crate) fn new_host_string<'a>(env: &jni::JNIEnv<'a>, s: &str) -> (r: Result<
    jni::objects::JString<'a>,
    jni::errors::Error,
>) {
    env.new_string(s)
}

/// Relies on jni::JNIEnv::call_method: invokes the host method of the
/// given name with the "accepts one string, returns nothing" signature on
/// the pinned host object, handing it the given string object. The host
/// method may throw; that surfaces afterwards as a pending exception, not
/// in this result.
#[verifier::external_body]
pub(crate) fn call_void_string_method(
    env: &mut jni::JNIEnv,
    target: &jni::objects::GlobalRef,
    name: &str,
    arg: &jni::objects::JString,
) -> (r: Result<(), jni::errors::Error>) {
    let args = [jni::objects::JValue::Object(&**arg)];
    match env.call_method(target, name, "(Ljava/lang/String;)V", &args) {
        Ok(_) => Ok(()),
        Err(e) => Err(e),
    }
}

/// Relies on jni::JNIEnv::exception_check: reports whether the host
/// runtime holds a pending exception on this thread.
#[verifier::external_body]
pub(crate) fn exception_check(env: &jni::JNIEnv) -> (r: Result<bool, jni::errors::Error>) {
    env.exception_check()
}

/// Relies on jni::JNIEnv::exception_clear: drops the pending exception so
/// it cannot resurface when control returns to the host.
#[verifier::external_body]
pub(crate) fn exception_clear(env: &jni::JNIEnv) -> (r: Result<(), jni::errors::Error>) {
    env.exception_clear()
}

/// Relies on jni::JNIEnv::get_string: decodes a host string object into a
/// native string; fails when the object is null or not a host string.
#[verifier::external_body]
pub(crate) fn get_host_string(env: &mut jni::JNIEnv, s: &jni::objects::JString) -> (r: Result<
    String,
    jni::errors::Error,
>) {
    match env.get_string(s) {
        Ok(java_str) => Ok(String::from(java_str)),
        Err(e) => Err(e),
    }
}

/// Relies on the Debug rendering of jni::errors::Error to describe a
/// boundary failure in a diagnostic line.
#[verifier::external_body]
pub(crate) fn error_description(e: &jni::errors::Error) -> (r: String) {
    format!("{:?}", e)
}

/// Relies on std::io::stderr: writes one diagnostic line to the process's
/// standard error stream, the last-resort sink when a record cannot reach
/// the host; a failure of this write itself is ignored.
#[verifier::external_body]
pub(crate) fn write_stderr_line(s: &str) {
    let _ = writeln!(std::io::stderr(), "{}", s);
}

} // verus!
