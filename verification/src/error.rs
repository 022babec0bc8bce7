//! The failures an operation can end in, and the words used to describe a
//! reply that did not fit.

use vstd::prelude::*;

verus! {

/// What one decoded reply is, without its payload.
#[derive(Clone, Copy, Debug, PartialEq, Eq, Structural)]
pub enum ReplyKind {
    Null,
    Integer,
    Double,
    Text,
    Array,
    Mapping,
}

/// The shapes a typed result can have. Every command expects exactly one.
#[derive(Clone, Copy, Debug, PartialEq, Eq, Structural)]
pub enum Shape {
    /// Free-form text.
    Text,
    /// Metric names with their values.
    Stats,
    /// A byte count, or nothing where the key does not exist.
    OptionalCount,
    /// An acknowledgement without payload.
    Unit,
}

/// A reply did not have the shape the command expects.
#[derive(Clone, Copy, Debug, PartialEq, Eq, Structural)]
pub enum ConversionError {
    /// The reply, or the first part of it that does not fit, is not what
    /// the shape has in that place.
    WrongType { expected: Shape, found: ReplyKind },
    /// A flat list of names and values holds an odd number of items.
    WrongArity { expected: Shape, found: ReplyKind, items: usize },
}

impl ConversionError {
    /// The shape that was asked for.
    pub open spec fn spec_expected(self) -> Shape {
        match self {
            ConversionError::WrongType { expected, .. } => expected,
            ConversionError::WrongArity { expected, .. } => expected,
        }
    }

    /// The kind of the reply, or of the part of it, that did not fit.
    pub open spec fn spec_found(self) -> ReplyKind {
        match self {
            ConversionError::WrongType { found, .. } => found,
            ConversionError::WrongArity { found, .. } => found,
        }
    }

    #[verifier::when_used_as_spec(spec_expected)]
    pub fn expected(self) -> (shape: Shape)
        ensures
            shape == self.spec_expected(),
    {
        match self {
            ConversionError::WrongType { expected, .. } => expected,
            ConversionError::WrongArity { expected, .. } => expected,
        }
    }

    #[verifier::when_used_as_spec(spec_found)]
    pub fn found(self) -> (kind: ReplyKind)
        ensures
            kind == self.spec_found(),
    {
        match self {
            ConversionError::WrongType { found, .. } => found,
            ConversionError::WrongArity { found, .. } => found,
        }
    }
}

/// A failure of the transport, the connection or the server. This layer
/// never looks inside: it hands the value on as it came.
#[derive(Clone, Debug, PartialEq, Eq)]
pub struct ProtocolError {
    pub details: String,
}

/// Why an operation failed.
#[derive(Clone, Debug, PartialEq, Eq)]
pub enum RedisError {
    /// The round trip failed.
    Protocol(ProtocolError),
    /// The round trip succeeded and the reply did not fit.
    Conversion(ConversionError),
}

pub type RedisResult<T> = Result<T, RedisError>;

} // verus!
