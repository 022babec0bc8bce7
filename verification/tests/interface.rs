use memory_interface::commands::{
    memory_doctor, memory_purge, memory_stats, memory_usage, Command,
};
use memory_interface::convert::TypedResult;
use memory_interface::argument::RedisKey;
use memory_interface::error::{
    ConversionError, ProtocolError, RedisError, RedisResult, ReplyKind, Shape,
};
use memory_interface::interfaces::{
    complete, execute, purge_result, stats_result, text_result, usage_result, ClientLike,
    MemoryInterface,
};
use memory_interface::reply::RawReply;
use memory_interface::stats::{MemoryStats, StatValue};
use std::cell::RefCell;
use std::collections::VecDeque;

/// A client that answers from a script and keeps what it was sent.
struct Scripted {
    answers: RefCell<VecDeque<Result<RawReply, ProtocolError>>>,
    sent: RefCell<Vec<Vec<Vec<u8>>>>,
}

impl Scripted {
    fn new(answers: Vec<Result<RawReply, ProtocolError>>) -> Scripted {
        Scripted { answers: RefCell::new(answers.into()), sent: RefCell::new(Vec::new()) }
    }

    fn sent(&self) -> Vec<Vec<String>> {
        self.sent
            .borrow()
            .iter()
            .map(|words| {
                words.iter().map(|word| String::from_utf8_lossy(word).into_owned()).collect()
            })
            .collect()
    }
}

impl ClientLike for Scripted {
    fn send_command(&self, command: Command) -> Result<RawReply, ProtocolError> {
        self.sent.borrow_mut().push(command.words());
        self.answers.borrow_mut().pop_front().expect("the script has run out")
    }
}

impl MemoryInterface for Scripted {}

fn text(s: &str) -> RawReply {
    RawReply::Text(s.to_string())
}

fn broken(details: &str) -> ProtocolError {
    ProtocolError { details: details.to_string() }
}

fn sent(list: &[&[&str]]) -> Vec<Vec<String>> {
    list.iter().map(|words| words.iter().map(|word| word.to_string()).collect()).collect()
}

#[test]
fn usage_of_an_absent_key_is_none_and_no_error() {
    let client = Scripted::new(vec![Ok(RawReply::Null)]);
    assert_eq!(client.memory_usage("missing", None), Ok(None));
    assert_eq!(client.sent(), sent(&[&["USAGE", "missing"]]));
}

#[test]
fn usage_of_a_key_is_its_byte_count() {
    let client = Scripted::new(vec![Ok(RawReply::Integer(72))]);
    assert_eq!(client.memory_usage("k", Some(5)), Ok(Some(72)));
    assert_eq!(client.sent(), sent(&[&["USAGE", "k", "SAMPLES", "5"]]));
}

#[test]
fn usage_takes_every_kind_of_key() {
    let client = Scripted::new(vec![
        Ok(RawReply::Integer(1)),
        Ok(RawReply::Integer(2)),
        Ok(RawReply::Integer(3)),
        Ok(RawReply::Integer(4)),
    ]);
    assert_eq!(client.memory_usage("k", None), Ok(Some(1)));
    assert_eq!(client.memory_usage(String::from("k"), None), Ok(Some(2)));
    assert_eq!(client.memory_usage(b"k".to_vec(), None), Ok(Some(3)));
    assert_eq!(client.memory_usage(RedisKey::from("k"), None), Ok(Some(4)));
    assert_eq!(
        client.sent(),
        sent(&[&["USAGE", "k"], &["USAGE", "k"], &["USAGE", "k"], &["USAGE", "k"]])
    );
}

#[test]
fn usage_with_a_reply_of_another_structure_is_a_conversion_error() {
    let client = Scripted::new(vec![Ok(text("72")), Ok(RawReply::Integer(-1))]);
    assert_eq!(
        client.memory_usage("k", None),
        Err(RedisError::Conversion(ConversionError::WrongType {
            expected: Shape::OptionalCount,
            found: ReplyKind::Text,
        }))
    );
    assert_eq!(
        client.memory_usage("k", None),
        Err(RedisError::Conversion(ConversionError::WrongType {
            expected: Shape::OptionalCount,
            found: ReplyKind::Integer,
        }))
    );
}

#[test]
fn doctor_returns_the_diagnosis() {
    let client = Scripted::new(vec![Ok(text("Sam, I have no memory problems"))]);
    assert_eq!(client.memory_doctor(), Ok("Sam, I have no memory problems".to_string()));
    assert_eq!(client.sent(), sent(&[&["DIAGNOSE"]]));
}

#[test]
fn allocator_report_returns_the_text() {
    let client = Scripted::new(vec![Ok(text("___ Begin allocator statistics ___"))]);
    assert_eq!(
        client.memory_malloc_stats(),
        Ok("___ Begin allocator statistics ___".to_string())
    );
    assert_eq!(client.sent(), sent(&[&["ALLOCATOR-STATS"]]));
}

#[test]
fn text_operations_refuse_what_is_not_text() {
    let client = Scripted::new(vec![Ok(RawReply::Integer(1)), Ok(RawReply::Null)]);
    assert_eq!(
        client.memory_doctor(),
        Err(RedisError::Conversion(ConversionError::WrongType {
            expected: Shape::Text,
            found: ReplyKind::Integer,
        }))
    );
    assert_eq!(
        client.memory_malloc_stats(),
        Err(RedisError::Conversion(ConversionError::WrongType {
            expected: Shape::Text,
            found: ReplyKind::Null,
        }))
    );
}

#[test]
fn stats_returns_the_metrics() {
    let client = Scripted::new(vec![Ok(RawReply::Array(vec![
        text("peak.allocated"),
        RawReply::Integer(4096),
    ]))]);
    assert_eq!(
        client.memory_stats(),
        Ok(MemoryStats { entries: vec![("peak.allocated".to_string(), StatValue::Integer(4096))] })
    );
    assert_eq!(client.sent(), sent(&[&["STATS"]]));
}

#[test]
fn stats_fails_as_a_whole_on_a_malformed_reply() {
    let client = Scripted::new(vec![Ok(RawReply::Array(vec![
        text("peak.allocated"),
        RawReply::Integer(4096),
        text("dangling"),
    ]))]);
    assert_eq!(
        client.memory_stats(),
        Err(RedisError::Conversion(ConversionError::WrongArity {
            expected: Shape::Stats,
            found: ReplyKind::Array,
            items: 3,
        }))
    );
}

#[test]
fn purge_twice_gives_two_unit_results() {
    let client = Scripted::new(vec![Ok(text("OK")), Ok(text("OK"))]);
    assert_eq!(client.memory_purge(), Ok(()));
    assert_eq!(client.memory_purge(), Ok(()));
    assert_eq!(client.sent(), sent(&[&["PURGE"], &["PURGE"]]));
}

#[test]
fn purge_fails_only_where_the_round_trip_failed() {
    let client = Scripted::new(vec![
        Ok(RawReply::Integer(5)),
        Err(broken("connection reset")),
        Ok(RawReply::Null),
    ]);
    assert_eq!(client.memory_purge(), Ok(()));
    assert_eq!(client.memory_purge(), Err(RedisError::Protocol(broken("connection reset"))));
    // The failure of one call leaves nothing behind for the next.
    assert_eq!(client.memory_purge(), Ok(()));
}

#[test]
fn every_operation_makes_exactly_one_round_trip() {
    let client = Scripted::new(vec![
        Ok(text("fine")),
        Ok(text("report")),
        Ok(text("OK")),
        Ok(RawReply::Mapping(vec![])),
        Ok(RawReply::Null),
    ]);
    assert!(client.memory_doctor().is_ok());
    assert_eq!(client.sent().len(), 1);
    assert!(client.memory_malloc_stats().is_ok());
    assert_eq!(client.sent().len(), 2);
    assert!(client.memory_purge().is_ok());
    assert_eq!(client.sent().len(), 3);
    assert!(client.memory_stats().is_ok());
    assert_eq!(client.sent().len(), 4);
    assert!(client.memory_usage("k", Some(1)).is_ok());
    assert_eq!(client.sent().len(), 5);
    // A failed conversion is not tried again.
    let failing = Scripted::new(vec![Ok(RawReply::Null)]);
    assert!(failing.memory_doctor().is_err());
    assert_eq!(failing.sent().len(), 1);
}

#[test]
fn transport_failure_comes_back_unchanged_from_every_operation() {
    let client = Scripted::new(vec![
        Err(broken("a")),
        Err(broken("b")),
        Err(broken("c")),
        Err(broken("d")),
        Err(broken("e")),
    ]);
    assert_eq!(client.memory_doctor(), Err(RedisError::Protocol(broken("a"))));
    assert_eq!(client.memory_malloc_stats(), Err(RedisError::Protocol(broken("b"))));
    assert_eq!(client.memory_purge(), Err(RedisError::Protocol(broken("c"))));
    assert_eq!(client.memory_stats(), Err(RedisError::Protocol(broken("d"))));
    assert_eq!(client.memory_usage("k", None), Err(RedisError::Protocol(broken("e"))));
}

#[test]
fn results_of_the_ending_functions() {
    assert_eq!(text_result(Ok(text("t"))), Ok("t".to_string()));
    assert_eq!(text_result(Err(broken("x"))), Err(RedisError::Protocol(broken("x"))));
    assert_eq!(usage_result(Ok(RawReply::Null)), Ok(None));
    assert_eq!(usage_result(Ok(RawReply::Integer(8))), Ok(Some(8)));
    assert_eq!(usage_result(Err(broken("x"))), Err(RedisError::Protocol(broken("x"))));
    assert_eq!(purge_result(Ok(RawReply::Array(vec![]))), Ok(()));
    assert_eq!(purge_result(Err(broken("x"))), Err(RedisError::Protocol(broken("x"))));
    assert_eq!(stats_result(Ok(RawReply::Mapping(vec![]))), Ok(MemoryStats { entries: vec![] }));
    assert_eq!(stats_result(Err(broken("x"))), Err(RedisError::Protocol(broken("x"))));
    assert_eq!(
        stats_result(Ok(RawReply::Null)),
        Err(RedisError::Conversion(ConversionError::WrongType {
            expected: Shape::Stats,
            found: ReplyKind::Null,
        }))
    );
}

#[test]
fn interleaved_stats_and_usage_keep_their_own_results() {
    // Two exchanges in flight at once: both commands are built before either
    // reply is there, and the replies come back in the other order.
    let stats_command = memory_stats();
    let usage_command = memory_usage(RedisKey::from("k"), None);
    assert_eq!(stats_command.words(), vec![b"STATS".to_vec()]);
    assert_eq!(usage_command.words(), vec![b"USAGE".to_vec(), b"k".to_vec()]);

    let usage_reply: Result<RawReply, ProtocolError> = Ok(RawReply::Integer(40));
    let stats_reply: Result<RawReply, ProtocolError> =
        Ok(RawReply::Array(vec![text("keys.count"), RawReply::Integer(1)]));

    let usage: RedisResult<Option<u64>> = usage_result(usage_reply);
    let stats: RedisResult<MemoryStats> = stats_result(stats_reply);
    assert_eq!(usage, Ok(Some(40)));
    assert_eq!(
        stats,
        Ok(MemoryStats { entries: vec![("keys.count".to_string(), StatValue::Integer(1))] })
    );
}

#[test]
fn two_clients_do_not_see_each_other() {
    let first = Scripted::new(vec![Ok(RawReply::Mapping(vec![]))]);
    let second = Scripted::new(vec![Ok(RawReply::Null)]);
    let usage = second.memory_usage("k", None);
    let stats = first.memory_stats();
    assert_eq!(usage, Ok(None));
    assert_eq!(stats, Ok(MemoryStats { entries: vec![] }));
    assert_eq!(first.sent(), sent(&[&["STATS"]]));
    assert_eq!(second.sent(), sent(&[&["USAGE", "k"]]));
}

#[test]
fn any_command_runs_to_a_result_of_its_shape() {
    let client = Scripted::new(vec![
        Ok(text("fine")),
        Ok(RawReply::Integer(3)),
        Ok(RawReply::Integer(64)),
        Ok(RawReply::Mapping(vec![])),
        Ok(text("not a count")),
        Err(broken("timeout")),
    ]);
    assert_eq!(execute(&client, memory_doctor()), Ok(TypedResult::Text("fine".to_string())));
    assert_eq!(execute(&client, memory_purge()), Ok(TypedResult::Unit));
    assert_eq!(
        execute(&client, memory_usage(RedisKey::from("k"), Some(2))),
        Ok(TypedResult::OptionalCount(Some(64)))
    );
    assert_eq!(
        execute(&client, memory_stats()),
        Ok(TypedResult::Stats(MemoryStats { entries: vec![] }))
    );
    assert_eq!(
        execute(&client, memory_usage(RedisKey::from("k"), None)),
        Err(RedisError::Conversion(ConversionError::WrongType {
            expected: Shape::OptionalCount,
            found: ReplyKind::Text,
        }))
    );
    assert_eq!(execute(&client, memory_stats()), Err(RedisError::Protocol(broken("timeout"))));
    assert_eq!(
        client.sent(),
        sent(&[
            &["DIAGNOSE"],
            &["PURGE"],
            &["USAGE", "k", "SAMPLES", "2"],
            &["STATS"],
            &["USAGE", "k"],
            &["STATS"],
        ])
    );
}

#[test]
fn completing_agrees_with_the_typed_operations() {
    assert_eq!(complete(Shape::Text, Ok(text("t"))), Ok(TypedResult::Text("t".to_string())));
    assert_eq!(complete(Shape::Unit, Ok(RawReply::Null)), Ok(TypedResult::Unit));
    assert_eq!(
        complete(Shape::OptionalCount, Ok(RawReply::Null)),
        Ok(TypedResult::OptionalCount(None))
    );
    assert_eq!(
        complete(Shape::Stats, Ok(text("t"))),
        Err(RedisError::Conversion(ConversionError::WrongType {
            expected: Shape::Stats,
            found: ReplyKind::Text,
        }))
    );
    for shape in [Shape::Text, Shape::Unit, Shape::OptionalCount, Shape::Stats] {
        assert_eq!(complete(shape, Err(broken("x"))), Err(RedisError::Protocol(broken("x"))));
    }
}
