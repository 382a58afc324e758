//! Build-time error values for schema construction and analysis.

use vstd::prelude::*;
use crate::analyzer::Violation;

verus! {

/// An error raised while building or analyzing a schema description.
#[derive(Debug)]
pub enum SchemaError {
    /// The description is structurally unusable (for example, no query root).
    BuildError { message: String },
    /// A description element could not be understood.
    ParseError { message: String },
    /// The analyzer found resolvers open to the N+1 query problem; every
    /// violation is reported, not only the first.
    NPlusOne { violations: Vec<Violation> },
}

/// The library's top-level error.
#[derive(Debug)]
pub enum Error {
    Schema(SchemaError),
}

impl From<SchemaError> for Error {
    fn from(e: SchemaError) -> Self {
        Error::Schema(e)
    }
}

impl vstd::std_specs::convert::FromSpecImpl<SchemaError> for Error {
    open spec fn obeys_from_spec() -> bool {
        true
    }

    open spec fn from_spec(e: SchemaError) -> Self {
        Error::Schema(e)
    }
}

} // verus!
