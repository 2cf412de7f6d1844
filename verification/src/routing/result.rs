use vstd::prelude::*;

verus! {

/// An error that might occur within request execution.
#[derive(Debug, PartialEq)]
pub enum Error {
    /// A field does not exist in the current schema.
    UnknownField { field: String },
    /// A data type was not registered within a project's schema.
    UnknownDataType { data_type: String },
}

} // verus!
