use vstd::prelude::*;

verus! {

/// The error returned by a generated `TryFrom` conversion.
#[derive(Debug, PartialEq, Eq)]
pub enum TryFromReprError<T> {
    /// The value being converted matches no variant's discriminant.
    UnknownValue(T),
}

} // verus!
