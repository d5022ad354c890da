//! Classification of a fault captured by the crash barrier.
//!
//! An unwind payload is an opaque value; the boundary glue classifies it by
//! attempted downcast, in order, into one of the shapes below before the
//! payload reaches the library.

use vstd::prelude::*;

verus! {

/// The shape of a fault captured by the crash barrier: a boxed error-like
/// value carrying a description, a plain string message, or an unrecognized
/// payload.
pub enum FaultPayload {
    /// A boxed error-like value; the field holds its description text.
    Error(String),
    /// A plain string payload, used verbatim.
    Message(String),
    /// Any payload shape that is not recognized.
    Unknown,
}

/// The human-readable description of a fault: the error's description text,
/// the string payload verbatim, or a fixed generic message.
pub open spec fn fault_description(fault: FaultPayload) -> Seq<char> {
    match fault {
        FaultPayload::Error(description) => description@,
        FaultPayload::Message(message) => message@,
        FaultPayload::Unknown => "Unknown error occurred"@,
    }
}

/// Produces the description of a fault payload, substituting a fixed generic
/// message for an unrecognized payload.
pub fn any_to_string(any: &FaultPayload) -> (r: String)
    ensures
        r@ == fault_description(*any),
{
    match any {
        FaultPayload::Error(description) => description.as_str().to_string(),
        FaultPayload::Message(message) => message.as_str().to_string(),
        FaultPayload::Unknown => "Unknown error occurred".to_string(),
    }
}

} // verus!
