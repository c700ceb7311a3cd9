//! Error values of the representation layer.
use vstd::prelude::*;

verus! {

/// Errors raised while converting values to or from their Postgres form.
#[derive(Debug, Clone, PartialEq, Eq)]
pub enum ReprError {
    /// A free-form message.
    String(String),
    /// An internal invariant did not hold; the message says which.
    InternalError(String),
}

} // verus!
