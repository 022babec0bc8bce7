//! The operations of the memory group, for any client that can make one
//! round trip.

use crate::argument::RedisKey;
use crate::commands;
use crate::commands::{bare, usage, Command, CommandKind, CommandView};
use crate::convert::{
    conversion_follows_structure, converted, fits, optional_count_of, text_of, TypedResult,
    TypedView,
};
use crate::error::{ProtocolError, RedisError, RedisResult, Shape};
use crate::reply::RawReply;
use crate::stats::{stats_from_reply, stats_of, viewed, MemoryStats, StatView};
use vstd::prelude::*;

verus! {

/// What a text operation returns for each way its round trip can end.
pub open spec fn text_outcome(outcome: Result<RawReply, ProtocolError>) -> RedisResult<String> {
    match outcome {
        Ok(reply) => match text_of(reply) {
            Ok(text) => Ok(text),
            Err(e) => Err(RedisError::Conversion(e)),
        },
        Err(e) => Err(RedisError::Protocol(e)),
    }
}

/// What the usage operation returns for each way its round trip can end.
pub open spec fn usage_outcome(outcome: Result<RawReply, ProtocolError>) -> RedisResult<
    Option<u64>,
> {
    match outcome {
        Ok(reply) => match optional_count_of(reply) {
            Ok(count) => Ok(count),
            Err(e) => Err(RedisError::Conversion(e)),
        },
        Err(e) => Err(RedisError::Protocol(e)),
    }
}

/// What the purge operation returns for each way its round trip can end.
pub open spec fn purge_outcome(outcome: Result<RawReply, ProtocolError>) -> RedisResult<()> {
    match outcome {
        Ok(_) => Ok(()),
        Err(e) => Err(RedisError::Protocol(e)),
    }
}

/// What the stats operation returns for each way its round trip can end,
/// the metrics taken as plain values.
pub open spec fn stats_outcome(outcome: Result<RawReply, ProtocolError>) -> Result<
    Seq<(Seq<char>, StatView)>,
    RedisError,
> {
    match outcome {
        Ok(reply) => match stats_of(reply) {
            Ok(entries) => Ok(entries),
            Err(e) => Err(RedisError::Conversion(e)),
        },
        Err(e) => Err(RedisError::Protocol(e)),
    }
}

/// Ends a text operation: the reply's text, or the failure.
pub fn text_result(outcome: Result<RawReply, ProtocolError>) -> (result: RedisResult<String>)
    ensures
        result == text_outcome(outcome),
{
    match outcome {
        Ok(reply) => match reply.into_text() {
            Ok(text) => Ok(text),
            Err(e) => Err(RedisError::Conversion(e)),
        },
        Err(e) => Err(RedisError::Protocol(e)),
    }
}

/// Ends the usage operation: the byte count, nothing where the key does
/// not exist, or the failure.
pub fn usage_result(outcome: Result<RawReply, ProtocolError>) -> (result: RedisResult<Option<u64>>)
    ensures
        result == usage_outcome(outcome),
{
    match outcome {
        Ok(reply) => match reply.into_optional_count() {
            Ok(count) => Ok(count),
            Err(e) => Err(RedisError::Conversion(e)),
        },
        Err(e) => Err(RedisError::Protocol(e)),
    }
}

/// Ends the purge operation: it fails only where the round trip failed.
pub fn purge_result(outcome: Result<RawReply, ProtocolError>) -> (result: RedisResult<()>)
    ensures
        result == purge_outcome(outcome),
{
    match outcome {
        Ok(_) => Ok(()),
        Err(e) => Err(RedisError::Protocol(e)),
    }
}

/// Ends the stats operation: all the metrics, or the failure.
pub fn stats_result(outcome: Result<RawReply, ProtocolError>) -> (result: RedisResult<MemoryStats>)
    ensures
        viewed(result) == stats_outcome(outcome),
{
    match outcome {
        Ok(reply) => match stats_from_reply(&reply) {
            Ok(stats) => Ok(stats),
            Err(e) => Err(RedisError::Conversion(e)),
        },
        Err(e) => Err(RedisError::Protocol(e)),
    }
}

/// What the operation of a command that expects `shape` returns for each
/// way its round trip can end, the result taken as a plain value: the
/// transport's failure as it came, or what the reply converts to.
pub open spec fn outcome_as(shape: Shape, outcome: Result<RawReply, ProtocolError>) -> Result<
    TypedView,
    RedisError,
> {
    match outcome {
        Ok(reply) => match converted(reply, shape) {
            Ok(value) => Ok(value),
            Err(e) => Err(RedisError::Conversion(e)),
        },
        Err(e) => Err(RedisError::Protocol(e)),
    }
}

/// Ends the operation of a command that expects `shape`.
pub fn complete(shape: Shape, outcome: Result<RawReply, ProtocolError>) -> (result: Result<
    TypedResult,
    RedisError,
>)
    ensures
        viewed(result) == outcome_as(shape, outcome),
{
    match outcome {
        Ok(reply) => match reply.convert(shape) {
            Ok(value) => Ok(value),
            Err(e) => Err(RedisError::Conversion(e)),
        },
        Err(e) => Err(RedisError::Protocol(e)),
    }
}

/// The five operations are the one pattern at five shapes: each returns
/// what `outcome_as` gives for the shape of its command, as a value of its
/// own type.
pub proof fn operations_are_one_pattern(outcome: Result<RawReply, ProtocolError>)
    ensures
        outcome_as(Shape::Text, outcome) == match text_outcome(outcome) {
            Ok(text) => Ok::<TypedView, RedisError>(TypedView::Text(text@)),
            Err(e) => Err(e),
        },
        outcome_as(Shape::Unit, outcome) == match purge_outcome(outcome) {
            Ok(_) => Ok::<TypedView, RedisError>(TypedView::Unit),
            Err(e) => Err(e),
        },
        outcome_as(Shape::Stats, outcome) == match stats_outcome(outcome) {
            Ok(entries) => Ok::<TypedView, RedisError>(TypedView::Stats(entries)),
            Err(e) => Err(e),
        },
        outcome_as(Shape::OptionalCount, outcome) == match usage_outcome(outcome) {
            Ok(count) => Ok::<TypedView, RedisError>(TypedView::OptionalCount(count)),
            Err(e) => Err(e),
        },
{
}

/// A key that does not exist is no failure: where the server answers the
/// usage command with null, the result is nothing, and no error.
pub proof fn absent_key_is_not_an_error()
    ensures
        usage_outcome(Ok(RawReply::Null)) == Ok::<Option<u64>, RedisError>(None),
{
}

/// Purging twice: each of two purges whose round trip succeeded ends in the
/// unit result, whatever the server replied to it or to the other. A purge
/// fails only with the failure of its own round trip.
pub proof fn purge_twice(
    first: Result<RawReply, ProtocolError>,
    second: Result<RawReply, ProtocolError>,
)
    ensures
        first is Ok ==> purge_outcome(first) == Ok::<(), RedisError>(()),
        second is Ok ==> purge_outcome(second) == Ok::<(), RedisError>(()),
        first matches Err(e) ==> purge_outcome(first) == Err::<(), RedisError>(
            RedisError::Protocol(e),
        ),
        second matches Err(e) ==> purge_outcome(second) == Err::<(), RedisError>(
            RedisError::Protocol(e),
        ),
{
}

/// Every operation follows the structure of the reply. Once the round trip
/// has succeeded, an operation succeeds exactly when the reply has the
/// structure of the shape that its command expects, and fails otherwise with
/// a conversion error that names that shape. A failed round trip fails the
/// operation with the transport's own error.
pub proof fn operations_follow_structure(reply: RawReply, failure: ProtocolError)
    ensures
        text_outcome(Ok(reply)) is Ok <==> fits(reply, CommandKind::MemoryDoctor.spec_shape()),
        text_outcome(Ok(reply)) is Ok <==> fits(
            reply,
            CommandKind::MemoryMallocStats.spec_shape(),
        ),
        purge_outcome(Ok(reply)) is Ok <==> fits(reply, CommandKind::MemoryPurge.spec_shape()),
        stats_outcome(Ok(reply)) is Ok <==> fits(reply, CommandKind::MemoryStats.spec_shape()),
        usage_outcome(Ok(reply)) is Ok <==> fits(reply, CommandKind::MemoryUsage.spec_shape()),
        text_outcome(Ok(reply)) matches Err(e) ==> e matches RedisError::Conversion(c)
            && c.spec_expected() == Shape::Text,
        stats_outcome(Ok(reply)) matches Err(e) ==> e matches RedisError::Conversion(c)
            && c.spec_expected() == Shape::Stats,
        usage_outcome(Ok(reply)) matches Err(e) ==> e matches RedisError::Conversion(c)
            && c.spec_expected() == Shape::OptionalCount,
        text_outcome(Err(failure)) == Err::<String, RedisError>(RedisError::Protocol(failure)),
        purge_outcome(Err(failure)) == Err::<(), RedisError>(RedisError::Protocol(failure)),
        stats_outcome(Err(failure)) == Err::<Seq<(Seq<char>, StatView)>, RedisError>(
            RedisError::Protocol(failure),
        ),
        usage_outcome(Err(failure)) == Err::<Option<u64>, RedisError>(
            RedisError::Protocol(failure),
        ),
{
    conversion_follows_structure(reply, Shape::Text);
    conversion_follows_structure(reply, Shape::Stats);
    conversion_follows_structure(reply, Shape::OptionalCount);
    conversion_follows_structure(reply, Shape::Unit);
}

/// A client that can make one round trip: send a command, take the reply.
pub trait ClientLike {
    /// Whether `outcome` is a way in which this client's round trip for
    /// `command` can end. A client that says nothing of its round trips
    /// leaves every outcome open.
    open spec fn answers(
        &self,
        command: CommandView,
        outcome: Result<RawReply, ProtocolError>,
    ) -> bool {
        true
    }

    /// Makes the round trip for `command`.
    fn send_command(&self, command: Command) -> (outcome: Result<RawReply, ProtocolError>)
        ensures
            self.answers(command@, outcome),
    ;
}

/// The memory operations. Each builds its command, makes one round trip and
/// converts the reply; a client has them all once it can make a round trip.
pub trait MemoryInterface: ClientLike + Sized {
    /// Asks the server for its diagnosis of memory problems.
    fn memory_doctor(&self) -> (result: RedisResult<String>)
        ensures
            exists|outcome: Result<RawReply, ProtocolError>|
                #[trigger] self.answers(bare(CommandKind::MemoryDoctor), outcome) && result
                    == text_outcome(outcome),
    {
        text_result(self.send_command(commands::memory_doctor()))
    }

    /// Asks for the allocator's report of its internals.
    fn memory_malloc_stats(&self) -> (result: RedisResult<String>)
        ensures
            exists|outcome: Result<RawReply, ProtocolError>|
                #[trigger] self.answers(bare(CommandKind::MemoryMallocStats), outcome) && result
                    == text_outcome(outcome),
    {
        text_result(self.send_command(commands::memory_malloc_stats()))
    }

    /// Asks the allocator to give back memory that it holds and does not
    /// use.
    fn memory_purge(&self) -> (result: RedisResult<()>)
        ensures
            exists|outcome: Result<RawReply, ProtocolError>|
                #[trigger] self.answers(bare(CommandKind::MemoryPurge), outcome) && result
                    == purge_outcome(outcome),
    {
        purge_result(self.send_command(commands::memory_purge()))
    }

    /// Asks for the server's memory metrics.
    fn memory_stats(&self) -> (result: RedisResult<MemoryStats>)
        ensures
            exists|outcome: Result<RawReply, ProtocolError>|
                #[trigger] self.answers(bare(CommandKind::MemoryStats), outcome) && viewed(result)
                    == stats_outcome(outcome),
    {
        stats_result(self.send_command(commands::memory_stats()))
    }

    /// Asks how many bytes a key and its value take.
    fn memory_usage<K>(&self, key: K, samples: Option<u32>) -> (result: RedisResult<Option<u64>>)
        where K: Into<RedisKey> + Send
        ensures
            exists|sent: RedisKey, outcome: Result<RawReply, ProtocolError>|
                call_ensures(K::into, (key,), sent) && #[trigger] self.answers(
                    usage(sent@, samples),
                    outcome,
                ) && result == usage_outcome(outcome),
    {
        let sent: RedisKey = key.into();
        let ghost handed = sent@;
        let outcome = self.send_command(commands::memory_usage(sent, samples));
        assert(self.answers(usage(handed, samples), outcome));
        usage_result(outcome)
    }
}

/// Runs any command on any client: one round trip, then the conversion to
/// the shape that the command expects.
pub fn execute<C: ClientLike>(client: &C, command: Command) -> (result: Result<
    TypedResult,
    RedisError,
>)
    ensures
        exists|outcome: Result<RawReply, ProtocolError>|
            #[trigger] client.answers(command@, outcome) && viewed(result) == outcome_as(
                command@.kind.spec_shape(),
                outcome,
            ),
{
    let shape = command.shape();
    complete(shape, client.send_command(command))
}

} // verus!
