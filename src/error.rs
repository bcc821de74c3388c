//! Errors raised by the library's own checks.
use vstd::prelude::*;

use crate::common::DataType;

verus! {

/// A collection or field definition that breaks a schema rule.
#[derive(Debug, Clone)]
pub enum SchemaError {
    /// Two fields claim the primary key: the first and the second such field, by position.
    DuplicatePrimaryKey(String, String),
    /// No field is the primary key.
    NoPrimaryKey,
    /// The primary key must be `Int64` or `VarChar`.
    UnsupportedPrimaryKey(DataType),
    /// An automatically assigned id must be `Int64`.
    UnsupportedAutoId(DataType),
    /// Only a primary key can have its values assigned automatically.
    AutoIdWithoutPrimaryKey,
    /// A `VarChar` field's maximum length must be positive.
    InvalidMaxLength(i32),
    /// A vector field's dimension must be positive.
    InvalidDimension(i64),
    /// A vector column does not have the dimension that its field declares.
    DimensionMismatch(String, i32, i32),
    /// A column's type differs from its field's: field name, expected, found.
    FieldWrongType(String, DataType, DataType),
    /// A column names a field that the schema does not hold.
    FieldDoesNotExists(String),
    /// No field has this name.
    NoSuchKey(String),
    /// The field must be a vector field.
    NotVectorField(String),
}

/// An error of a request: a local check that failed, or a reply that reports
/// or carries a failure.
#[derive(Debug, Clone)]
pub enum Error {
    /// A schema rule was broken; nothing was sent.
    Schema(SchemaError),
    /// The service refused the request: its numeric error code and its reason.
    Server(i32, String),
    /// A value could not be converted.
    Conversion,
    /// A parameter held a value that cannot be used: its name and the value.
    InvalidParameter(String, String),
    /// A reply did not have the shape that the protocol promises.
    MalformedResponse(String),
    /// Anything else, with a description.
    Unexpected(String),
}

impl From<SchemaError> for Error {
    fn from(e: SchemaError) -> (r: Error)
        ensures
            r == Error::Schema(e),
    {
        Error::Schema(e)
    }
}

impl vstd::std_specs::convert::FromSpecImpl<SchemaError> for Error {
    open spec fn obeys_from_spec() -> bool {
        true
    }

    open spec fn from_spec(e: SchemaError) -> Error {
        Error::Schema(e)
    }
}

} // verus!
