//! From a raw reply to a typed result: a match on the reply's structure
//! against the one shape that the command expects.

use crate::error::{ConversionError, Shape};
use crate::reply::RawReply;
use crate::stats::{is_stats, stats_from_reply, stats_of, stats_of_fits, viewed, MemoryStats, StatView};
use vstd::prelude::*;

verus! {

/// A reply read as text: only text is text.
pub open spec fn text_of(reply: RawReply) -> Result<String, ConversionError> {
    match reply {
        RawReply::Text(text) => Ok(text),
        _ => Err(ConversionError::WrongType { expected: Shape::Text, found: reply.spec_kind() }),
    }
}

/// A reply read as an optional count: nothing where the reply is null, the
/// number where it is an integer that is not negative.
pub open spec fn optional_count_of(reply: RawReply) -> Result<Option<u64>, ConversionError> {
    match reply {
        RawReply::Null => Ok(None),
        RawReply::Integer(n) if n >= 0 => Ok(Some(n as u64)),
        _ => Err(
            ConversionError::WrongType { expected: Shape::OptionalCount, found: reply.spec_kind() },
        ),
    }
}

/// A typed result: one value of one of the four shapes.
#[derive(Debug, PartialEq, Eq)]
pub enum TypedResult {
    Text(String),
    Stats(MemoryStats),
    OptionalCount(Option<u64>),
    Unit,
}

/// A typed result as a plain value.
pub enum TypedView {
    Text(Seq<char>),
    Stats(Seq<(Seq<char>, StatView)>),
    OptionalCount(Option<u64>),
    Unit,
}

impl TypedView {
    /// The shape of the value.
    pub open spec fn shape(self) -> Shape {
        match self {
            TypedView::Text(_) => Shape::Text,
            TypedView::Stats(_) => Shape::Stats,
            TypedView::OptionalCount(_) => Shape::OptionalCount,
            TypedView::Unit => Shape::Unit,
        }
    }
}

impl View for TypedResult {
    type V = TypedView;

    open spec fn view(&self) -> TypedView {
        match self {
            TypedResult::Text(text) => TypedView::Text(text@),
            TypedResult::Stats(stats) => TypedView::Stats(stats@),
            TypedResult::OptionalCount(count) => TypedView::OptionalCount(*count),
            TypedResult::Unit => TypedView::Unit,
        }
    }
}

impl TypedResult {
    /// The shape of the value.
    pub fn shape(&self) -> (shape: Shape)
        ensures
            shape == self@.shape(),
    {
        match self {
            TypedResult::Text(_) => Shape::Text,
            TypedResult::Stats(_) => Shape::Stats,
            TypedResult::OptionalCount(_) => Shape::OptionalCount,
            TypedResult::Unit => Shape::Unit,
        }
    }
}

/// What a reply becomes when it is read as `shape`. An acknowledgement has
/// no payload to read, so every reply is one.
pub open spec fn converted(reply: RawReply, shape: Shape) -> Result<TypedView, ConversionError> {
    match shape {
        Shape::Text => match text_of(reply) {
            Ok(text) => Ok(TypedView::Text(text@)),
            Err(e) => Err(e),
        },
        Shape::Stats => match stats_of(reply) {
            Ok(entries) => Ok(TypedView::Stats(entries)),
            Err(e) => Err(e),
        },
        Shape::OptionalCount => match optional_count_of(reply) {
            Ok(count) => Ok(TypedView::OptionalCount(count)),
            Err(e) => Err(e),
        },
        Shape::Unit => Ok(TypedView::Unit),
    }
}

/// Whether a reply has the structure of `shape`.
pub open spec fn fits(reply: RawReply, shape: Shape) -> bool {
    match shape {
        Shape::Text => reply is Text,
        Shape::Stats => is_stats(reply),
        Shape::OptionalCount => reply is Null || (reply matches RawReply::Integer(n) && n >= 0),
        Shape::Unit => true,
    }
}

/// A reply converts without error exactly when it has the structure of the
/// shape asked for. What comes out then has that shape; what comes out
/// otherwise is an error that names that shape as the one expected.
pub proof fn conversion_follows_structure(reply: RawReply, shape: Shape)
    ensures
        converted(reply, shape) is Ok <==> fits(reply, shape),
        converted(reply, shape) matches Ok(value) ==> value.shape() == shape,
        converted(reply, shape) matches Err(e) ==> e.spec_expected() == shape,
{
    stats_of_fits(reply);
}

impl RawReply {
    /// Reads the reply as text.
    pub fn into_text(self) -> (result: Result<String, ConversionError>)
        ensures
            result == text_of(self),
    {
        match self {
            RawReply::Text(text) => Ok(text),
            other => Err(
                ConversionError::WrongType { expected: Shape::Text, found: other.kind() },
            ),
        }
    }

    /// Reads the reply as an optional count.
    pub fn into_optional_count(self) -> (result: Result<Option<u64>, ConversionError>)
        ensures
            result == optional_count_of(self),
    {
        match self {
            RawReply::Null => Ok(None),
            RawReply::Integer(n) if n >= 0 => Ok(Some(n as u64)),
            other => Err(
                ConversionError::WrongType { expected: Shape::OptionalCount, found: other.kind() },
            ),
        }
    }

    /// Reads the reply as metrics.
    pub fn into_stats(self) -> (result: Result<MemoryStats, ConversionError>)
        ensures
            viewed(result) == stats_of(self),
    {
        stats_from_reply(&self)
    }

    /// Reads the reply as `shape`.
    pub fn convert(self, shape: Shape) -> (result: Result<TypedResult, ConversionError>)
        ensures
            viewed(result) == converted(self, shape),
    {
        match shape {
            Shape::Text => match self.into_text() {
                Ok(text) => Ok(TypedResult::Text(text)),
                Err(e) => Err(e),
            },
            Shape::Stats => match self.into_stats() {
                Ok(stats) => Ok(TypedResult::Stats(stats)),
                Err(e) => Err(e),
            },
            Shape::OptionalCount => match self.into_optional_count() {
                Ok(count) => Ok(TypedResult::OptionalCount(count)),
                Err(e) => Err(e),
            },
            Shape::Unit => Ok(TypedResult::Unit),
        }
    }
}

} // verus!
