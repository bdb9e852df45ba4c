//! The error kinds surfaced by this layer.
use vstd::prelude::*;

verus! {

/// An error surfaced while validating, reconciling or persisting a
/// configuration, or reported asynchronously through the global error
/// register.
#[derive(Clone, Copy, Debug)]
pub enum Error {
    /// The requested configuration breaks a validation rule, or is
    /// incompatible with what a prior run persisted. Carries a
    /// human-readable reason.
    Unsupported(&'static str),
    /// An underlying filesystem failure, with a short description.
    Io(&'static str),
    /// The persisted configuration record is malformed: a required key
    /// is missing or a value cannot be parsed.
    Corruption,
}

impl Error {
    /// A short human-readable description of the error.
    pub fn describe(&self) -> (r: &'static str)
        ensures
            *self matches Error::Unsupported(m) ==> r == m,
            *self matches Error::Io(m) ==> r == m,
            *self is Corruption ==> r@ == "corrupted persisted configuration record"@,
    {
        match self {
            Error::Unsupported(m) => m,
            Error::Io(m) => m,
            Error::Corruption => "corrupted persisted configuration record",
        }
    }
}

} // verus!
