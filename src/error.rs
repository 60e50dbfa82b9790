use vstd::prelude::*;

verus! {

/// Why an operation of this library failed.
#[derive(Clone, Debug, PartialEq)]
pub enum Error {
    /// A response field was missing or unreadable; `field` is its path.
    Deserialization { field: String },
    /// No dialect is known by this name.
    UnsupportedDialect { name: String },
    /// A response broke an invariant of the canonical model.
    ConversionInvariant { reason: String },
    /// The transport failed; `status` is the HTTP status where there was one.
    Transport { status: Option<u16>, cause: String },
}

} // verus!
