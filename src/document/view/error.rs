//! View error and result.
use vstd::prelude::*;

use crate::iri::IriParseError;

verus! {

/// A property fetch result.
pub type Result<T> = core::result::Result<T, PropertyError>;

/// A property fetch error.
#[derive(Debug, Clone, Copy, PartialEq, Eq)]
pub enum PropertyError {
    /// IRI parse error.
    Iri(IriParseError),
    /// Property not found.
    NoSuchProperty,
    /// Unexpected type.
    TypeMismatch,
    /// Unknown document type.
    UnknownDocumentType,
}

impl PropertyError {
    /// The message that describes the error.
    pub open spec fn spec_description(self) -> Seq<char> {
        match self {
            PropertyError::Iri(_) => "IRI parse error"@,
            PropertyError::NoSuchProperty => "Property not found"@,
            PropertyError::TypeMismatch => "Unexpected type of property"@,
            PropertyError::UnknownDocumentType => "Unknown document type"@,
        }
    }

    /// Returns a message that describes the error.
    pub fn description(&self) -> (r: &'static str)
        ensures
            r@ == self.spec_description(),
    {
        match self {
            PropertyError::Iri(_) => "IRI parse error",
            PropertyError::NoSuchProperty => "Property not found",
            PropertyError::TypeMismatch => "Unexpected type of property",
            PropertyError::UnknownDocumentType => "Unknown document type",
        }
    }
}

impl From<IriParseError> for PropertyError {
    fn from(e: IriParseError) -> PropertyError {
        PropertyError::Iri(e)
    }
}

impl vstd::std_specs::convert::FromSpecImpl<IriParseError> for PropertyError {
    open spec fn obeys_from_spec() -> bool {
        true
    }

    open spec fn from_spec(v: IriParseError) -> PropertyError {
        PropertyError::Iri(v)
    }
}

} // verus!
