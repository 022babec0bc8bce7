//! Memory introspection commands of a key-value server: typed arguments in,
//! command descriptors out, raw replies in, typed results out. Nothing here
//! performs I/O; the round trip belongs to whoever implements `ClientLike`.

pub mod argument;
pub mod commands;
pub mod convert;
pub mod error;
pub mod interfaces;
pub mod reply;
pub mod stats;

pub use argument::{Argument, RedisKey};
pub use commands::Command;
pub use error::{ConversionError, ProtocolError, RedisError, RedisResult};
pub use interfaces::{ClientLike, MemoryInterface};
pub use reply::RawReply;
pub use stats::MemoryStats;
