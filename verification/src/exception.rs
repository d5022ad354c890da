//! Translation of a captured fault into a host exception.
//!
//! A fault caught by the crash barrier is described by [`any_to_string`] and
//! surfaced to the host as its generic runtime exception, best effort: when
//! that error path itself fails, nothing further is raised, because there is
//! no tertiary channel to report through.

use vstd::prelude::*;
use jni::JNIEnv;
use crate::fault::FaultPayload;
use crate::fault::any_to_string;
use crate::jni_calls::find_class;
use crate::jni_calls::throw_new;

verus! {

/// Asks the host runtime to schedule its generic `RuntimeException` with
/// `description` as the message; the host observes it when control returns
/// to managed code. Best effort: when the class cannot be found, or the host
/// refuses the new exception, the failure is swallowed and nothing is raised.
pub fn throw<'a>(env: &JNIEnv<'a>, description: &str) {
    let exception = match find_class(env, "java/lang/RuntimeException") {
        Ok(val) => val,
        Err(_) => {
            return;
        },
    };
    match throw_new(env, exception, description) {
        Ok(_) => {},
        Err(_) => {},
    }
}

/// Returns the crash barrier's normal result unchanged; on a captured fault,
/// schedules a host exception describing it and returns `error_val`, which
/// the host will disregard once it observes the exception.
pub fn unwrap_exc_or<'a, T>(env: &JNIEnv<'a>, res: Result<T, FaultPayload>, error_val: T) -> (r:
    T)
    ensures
        r == (match res {
            Ok(val) => val,
            Err(_) => error_val,
        }),
{
    match res {
        Err(ref e) => {
            let description = any_to_string(e);
            throw(env, description.as_str());
            error_val
        },
        Ok(val) => val,
    }
}

/// Same as `unwrap_exc_or`, with the result type's default value as the
/// fallback handed back on a fault.
pub fn unwrap_exc_or_default<'a, T: Default>(env: &JNIEnv<'a>, res: Result<T, FaultPayload>) -> (r:
    T)
    ensures
        res matches Ok(val) ==> r == val,
        res matches Err(_) ==> call_ensures(T::default, (), r),
{
    let error_val = T::default();
    unwrap_exc_or(env, res, error_val)
}

/// On a faulting outcome with a 64-bit integer result type, the value that
/// `unwrap_exc_or_default` hands back across the boundary is zero.
pub proof fn lemma_faulting_outcome_yields_zero<'a>(
    env: &JNIEnv<'a>,
    res: Result<i64, FaultPayload>,
    r: i64,
)
    requires
        res matches Err(_),
        call_ensures(unwrap_exc_or_default::<i64>, (env, res), r),
    ensures
        r == 0,
{
}

} // verus!
