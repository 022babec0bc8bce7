//! The value that one decoded reply carries, before anything is read into it.

use crate::error::ReplyKind;
use vstd::prelude::*;

verus! {

/// One decoded reply.
///
/// A `Double` holds the number by its IEEE 754 bits, so that nothing here
/// computes on it: it is carried from the reply to the result as it came.
#[derive(Debug, PartialEq, Eq)]
pub enum RawReply {
    /// The server has nothing to say: a key does not exist.
    Null,
    Integer(i64),
    Double(u64),
    Text(String),
    /// A list of replies.
    Array(Vec<RawReply>),
    /// A list of pairs, each a name and what is under it.
    Mapping(Vec<ReplyPair>),
}

/// One pair of a mapping.
#[derive(Debug, PartialEq, Eq)]
pub struct ReplyPair {
    pub name: RawReply,
    pub value: RawReply,
}

impl RawReply {
    /// What the reply is, without its payload.
    pub open spec fn spec_kind(&self) -> ReplyKind {
        match self {
            RawReply::Null => ReplyKind::Null,
            RawReply::Integer(_) => ReplyKind::Integer,
            RawReply::Double(_) => ReplyKind::Double,
            RawReply::Text(_) => ReplyKind::Text,
            RawReply::Array(_) => ReplyKind::Array,
            RawReply::Mapping(_) => ReplyKind::Mapping,
        }
    }

    #[verifier::when_used_as_spec(spec_kind)]
    pub fn kind(&self) -> (kind: ReplyKind)
        ensures
            kind == self.spec_kind(),
    {
        match self {
            RawReply::Null => ReplyKind::Null,
            RawReply::Integer(_) => ReplyKind::Integer,
            RawReply::Double(_) => ReplyKind::Double,
            RawReply::Text(_) => ReplyKind::Text,
            RawReply::Array(_) => ReplyKind::Array,
            RawReply::Mapping(_) => ReplyKind::Mapping,
        }
    }

    /// How many pairs of a name and a value the reply holds: half the items
    /// of a list, the pairs of a mapping, none in anything else.
    pub open spec fn pair_count(self) -> nat {
        match self {
            RawReply::Array(items) => items@.len() / 2,
            RawReply::Mapping(pairs) => pairs@.len(),
            _ => 0,
        }
    }

    /// The name of the pair at `k`.
    pub open spec fn name_at(self, k: int) -> RawReply
        recommends
            0 <= k < self.pair_count(),
    {
        match self {
            RawReply::Array(items) => items@[2 * k],
            RawReply::Mapping(pairs) => pairs@[k].name,
            _ => self,
        }
    }

    /// The value of the pair at `k`.
    pub open spec fn value_at(self, k: int) -> RawReply
        recommends
            0 <= k < self.pair_count(),
    {
        match self {
            RawReply::Array(items) => items@[2 * k + 1],
            RawReply::Mapping(pairs) => pairs@[k].value,
            _ => self,
        }
    }
}

} // verus!
