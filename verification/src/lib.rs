//! A minimal bridge layer between a managed host runtime and native code.
//!
//! The library states when an integer handle may be resolved into a native
//! reference, describes a fault captured by the crash barrier around native
//! work, and translates it into a host exception, best effort.

use vstd::prelude::*;

mod exception;
mod fault;
mod jni_calls;

pub use exception::lemma_faulting_outcome_yields_zero;
pub use exception::throw;
pub use exception::unwrap_exc_or;
pub use exception::unwrap_exc_or_default;
pub use fault::FaultPayload;
pub use fault::any_to_string;
pub use fault::fault_description;

verus! {

/// An integer token that encodes the address of a natively owned value.
/// Zero is never a valid live object; the host must never pass a stale or
/// forged handle.
pub type Handle = i64;

/// Whether a handle may be resolved at all: zero never names a live object,
/// and a boundary function handed zero must fail fast instead of
/// dereferencing it.
pub fn handle_is_live(handle: Handle) -> (r: bool)
    ensures
        r == (handle != 0),
{
    handle != 0
}

} // verus!
