//! The failures of a reflection pass.

use crate::enums::{Capability, ExecutionModel};
use crate::parse::ParseError;
use vstd::prelude::*;
use vstd::std_specs::convert::FromSpecImpl;

verus! {

/// Why a module could not be reflected. Every variant is fatal for the pass:
/// no partial description is produced.
#[derive(Debug, Clone, Copy, PartialEq, Eq, Structural)]
pub enum Error {
    /// The bytes are not a module.
    ParseError(ParseError),
    /// No type declaration has this identifier.
    UnknownType { id: u32 },
    /// The declaration of this type nests deeper than the module has
    /// instructions, which only a type that contains itself can.
    RecursiveType { id: u32 },
    /// An array names this identifier as its length, and no constant has it.
    MissingArrayLength { id: u32 },
    /// Two structs of different identifiers have the same name.
    DuplicateStructName { first: u32, second: u32 },
    /// An input of a vertex entry point has no location.
    MissingLocation { variable: u32 },
    /// A resource variable has no descriptor set.
    MissingDescriptorSet { variable: u32 },
    /// A resource variable has no binding.
    MissingBinding { variable: u32 },
    /// The type of a resource variable is not a pointer to a buffer block, an
    /// image, a sampler or an array of one of these.
    UnsupportedDescriptor { variable: u32 },
    /// Entry points of this execution model are not supported.
    UnsupportedExecutionModel(ExecutionModel),
    /// The module needs a capability that cannot be provided.
    UnsupportedCapability(Capability),
}

/// The three classes of failure.
#[derive(Debug, Clone, Copy, PartialEq, Eq, Structural)]
pub enum ErrorKind {
    /// The byte stream is malformed.
    Format,
    /// The instructions decode but contradict each other.
    MalformedModule,
    /// The module uses something recognised and not implemented.
    UnsupportedFeature,
}

impl Error {
    /// The class this failure belongs to.
    pub open spec fn spec_kind(self) -> ErrorKind {
        match self {
            Error::ParseError(_) => ErrorKind::Format,
            Error::UnsupportedDescriptor { .. } => ErrorKind::UnsupportedFeature,
            Error::UnsupportedExecutionModel(_) => ErrorKind::UnsupportedFeature,
            Error::UnsupportedCapability(_) => ErrorKind::UnsupportedFeature,
            _ => ErrorKind::MalformedModule,
        }
    }

    /// The class this failure belongs to.
    pub fn kind(&self) -> (kind: ErrorKind)
        ensures
            kind == self.spec_kind(),
    {
        match self {
            Error::ParseError(_) => ErrorKind::Format,
            Error::UnsupportedDescriptor { .. } => ErrorKind::UnsupportedFeature,
            Error::UnsupportedExecutionModel(_) => ErrorKind::UnsupportedFeature,
            Error::UnsupportedCapability(_) => ErrorKind::UnsupportedFeature,
            _ => ErrorKind::MalformedModule,
        }
    }
}

impl From<ParseError> for Error {
    /// A failure of the decoder as a failure of the pass.
    fn from(err: ParseError) -> (e: Error) {
        Error::ParseError(err)
    }
}

impl FromSpecImpl<ParseError> for Error {
    open spec fn obeys_from_spec() -> bool {
        true
    }

    open spec fn from_spec(err: ParseError) -> Error {
        Error::ParseError(err)
    }
}

} // verus!
