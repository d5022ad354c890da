//! Trusted declarations of the host-runtime interface.
//!
//! Everything the library needs from the `jni` crate stands here: the opaque
//! execution-context types, and one wrapper per host call that the logic
//! makes. Verus believes each wrapper's signature and reads nothing of its
//! body; what a call does inside the host runtime depends on the running
//! host alone, so the wrappers promise nothing of their results.

use vstd::prelude::*;
use jni::JNIEnv;
use jni::objects::JClass;
use jni::errors::Error;

verus! {

#[verifier::external_type_specification]
#[verifier::external_body]
pub struct ExJNIEnv<'a>(JNIEnv<'a>);

#[verifier::external_type_specification]
#[verifier::external_body]
pub struct ExJClass<'a>(JClass<'a>);

#[verifier::external_type_specification]
#[verifier::external_body]
pub struct ExJniError(Error);

/// Relies on jni's `JNIEnv::find_class`: asks the running host runtime to
/// look up the class with the given binary name. Whether a class reference
/// or an error comes back depends on the host alone.
#[verifier::external_body]
pub(crate) fn find_class<'a>(env: &JNIEnv<'a>, name: &str) -> (r: Result<JClass<'a>, Error>) {
    env.find_class(name)
}

/// Relies on jni's `JNIEnv::throw_new`: asks the host runtime to construct an
/// exception of `class` with `msg` as its message and schedule it, so that
/// the host observes it once control returns to managed code. Whether the
/// host accepts the exception depends on the host alone.
#[verifier::external_body]
pub(crate) fn throw_new<'a>(env: &JNIEnv<'a>, class: JClass<'a>, msg: &str) -> (r: Result<
    (),
    Error,
>) {
    env.throw_new(class, msg)
}

} // verus!
