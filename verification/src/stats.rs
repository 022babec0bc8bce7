//! Memory metrics: names with their values, in the order in which the server
//! gave them. The set of names is the server's to choose.

use crate::error::{ConversionError, ReplyKind, Shape};
use crate::reply::RawReply;
use vstd::prelude::*;

verus! {

/// What stands under one metric name.
#[derive(Debug, PartialEq, Eq)]
pub enum StatValue {
    Integer(i64),
    /// A floating-point number, by its IEEE 754 bits.
    Double(u64),
    /// Metrics of their own, as a database or an allocator has them.
    Nested(MemoryStats),
}

/// The metrics of one reply.
#[derive(Debug, PartialEq, Eq)]
pub struct MemoryStats {
    /// Each name with its value, in the order of the reply.
    pub entries: Vec<(String, StatValue)>,
}

/// A metric value as a plain value.
pub enum StatView {
    Integer(i64),
    Double(u64),
    Nested(Seq<(Seq<char>, StatView)>),
}

/// The plain value of a metric value.
pub open spec fn value_view(value: StatValue) -> StatView
    decreases value,
{
    match value {
        StatValue::Integer(n) => StatView::Integer(n),
        StatValue::Double(bits) => StatView::Double(bits),
        StatValue::Nested(stats) => StatView::Nested(entries_view(stats)),
    }
}

/// The names and plain values of some metrics, in order.
pub open spec fn entries_view(stats: MemoryStats) -> Seq<(Seq<char>, StatView)>
    decreases stats,
{
    Seq::new(
        stats.entries@.len(),
        |i: int|
            if 0 <= i < stats.entries@.len() {
                (stats.entries@[i].0@, value_view(stats.entries@[i].1))
            } else {
                (Seq::empty(), StatView::Integer(0))
            },
    )
}

impl View for StatValue {
    type V = StatView;

    open spec fn view(&self) -> StatView {
        value_view(*self)
    }
}

impl View for MemoryStats {
    type V = Seq<(Seq<char>, StatView)>;

    open spec fn view(&self) -> Seq<(Seq<char>, StatView)> {
        entries_view(*self)
    }
}

/// The metric value that a reply stands for: an integer, a double, or, for
/// a list or a mapping, the metrics read from it.
pub open spec fn metric_of(reply: RawReply) -> Result<StatView, ConversionError>
    decreases reply, reply.pair_count() + 2,
{
    match reply {
        RawReply::Integer(n) => Ok(StatView::Integer(n)),
        RawReply::Double(bits) => Ok(StatView::Double(bits)),
        RawReply::Array(_) | RawReply::Mapping(_) => match stats_of(reply) {
            Ok(entries) => Ok(StatView::Nested(entries)),
            Err(e) => Err(e),
        },
        _ => Err(ConversionError::WrongType { expected: Shape::Stats, found: reply.spec_kind() }),
    }
}

/// The metrics that a reply stands for. A mapping gives its pairs; a list
/// gives names and values in turn, and must hold an even number of items.
/// The first part that does not fit, read from the left, decides the error.
pub open spec fn stats_of(reply: RawReply) -> Result<Seq<(Seq<char>, StatView)>, ConversionError>
    decreases reply, reply.pair_count() + 1,
{
    match reply {
        RawReply::Array(items) => if items@.len() % 2 == 0 {
            entries_upto(reply, reply.pair_count())
        } else {
            Err(
                ConversionError::WrongArity {
                    expected: Shape::Stats,
                    found: ReplyKind::Array,
                    items: items@.len() as usize,
                },
            )
        },
        RawReply::Mapping(_) => entries_upto(reply, reply.pair_count()),
        _ => Err(ConversionError::WrongType { expected: Shape::Stats, found: reply.spec_kind() }),
    }
}

/// The metrics of the first `n` pairs of a reply: each name must be text,
/// each value a metric value.
pub open spec fn entries_upto(reply: RawReply, n: nat) -> Result<
    Seq<(Seq<char>, StatView)>,
    ConversionError,
>
    decreases reply, n,
{
    if n == 0 || n > reply.pair_count() {
        Ok(Seq::empty())
    } else {
        match entries_upto(reply, (n - 1) as nat) {
            Err(e) => Err(e),
            Ok(before) => match reply.name_at(n - 1) {
                RawReply::Text(name) => match metric_of(reply.value_at(n - 1)) {
                    Ok(value) => Ok(before.push((name@, value))),
                    Err(e) => Err(e),
                },
                other => Err(
                    ConversionError::WrongType {
                        expected: Shape::Stats,
                        found: other.spec_kind(),
                    },
                ),
            },
        }
    }
}

/// Once a pair does not fit, reading further pairs changes nothing.
proof fn first_error_decides(reply: RawReply, n: nat, m: nat)
    requires
        n <= m <= reply.pair_count(),
        entries_upto(reply, n) is Err,
    ensures
        entries_upto(reply, m) == entries_upto(reply, n),
    decreases m - n,
{
    if n < m {
        first_error_decides(reply, n, (m - 1) as nat);
    }
}

fn pair_len(reply: &RawReply) -> (count: usize)
    ensures
        count == reply.pair_count(),
{
    match reply {
        RawReply::Array(items) => items.len() / 2,
        RawReply::Mapping(pairs) => pairs.len(),
        _ => 0,
    }
}

fn pair_at(reply: &RawReply, k: usize) -> (pair: (&RawReply, &RawReply))
    requires
        k < reply.pair_count(),
    ensures
        *pair.0 == reply.name_at(k as int),
        *pair.1 == reply.value_at(k as int),
{
    match reply {
        RawReply::Array(items) => {
            assert(2 * k + 1 < items.len());
            (&items[2 * k], &items[2 * k + 1])
        },
        RawReply::Mapping(pairs) => (&pairs[k].name, &pairs[k].value),
        _ => (reply, reply),
    }
}

/// A result with its success taken by its plain value.
pub open spec fn viewed<T: View, E>(result: Result<T, E>) -> Result<T::V, E> {
    match result {
        Ok(value) => Ok(value@),
        Err(e) => Err(e),
    }
}

/// Reads one metric value from a reply.
pub fn metric_from_reply(reply: &RawReply) -> (result: Result<StatValue, ConversionError>)
    ensures
        viewed(result) == metric_of(*reply),
    decreases reply, 2nat,
{
    match reply {
        RawReply::Integer(n) => Ok(StatValue::Integer(*n)),
        RawReply::Double(bits) => Ok(StatValue::Double(*bits)),
        RawReply::Array(_) | RawReply::Mapping(_) => match stats_from_reply(reply) {
            Ok(stats) => Ok(StatValue::Nested(stats)),
            Err(e) => Err(e),
        },
        _ => Err(ConversionError::WrongType { expected: Shape::Stats, found: reply.kind() }),
    }
}

/// Reads the metrics from a reply: all of them, or the first error.
pub fn stats_from_reply(reply: &RawReply) -> (result: Result<MemoryStats, ConversionError>)
    ensures
        viewed(result) == stats_of(*reply),
    decreases reply, 1nat,
{
    match reply {
        RawReply::Array(items) => {
            if items.len() % 2 != 0 {
                return Err(
                    ConversionError::WrongArity {
                        expected: Shape::Stats,
                        found: ReplyKind::Array,
                        items: items.len(),
                    },
                );
            }
        },
        RawReply::Mapping(_) => {},
        _ => {
            return Err(
                ConversionError::WrongType { expected: Shape::Stats, found: reply.kind() },
            );
        },
    }
    let count = pair_len(reply);
    let mut entries: Vec<(String, StatValue)> = Vec::new();
    let mut k: usize = 0;
    assert(entries_view(MemoryStats { entries }) =~= Seq::empty());
    while k < count
        invariant
            k <= count,
            count == reply.pair_count(),
            stats_of(*reply) == entries_upto(*reply, count as nat),
            entries_upto(*reply, k as nat) == Ok::<Seq<(Seq<char>, StatView)>, ConversionError>(
                entries_view(MemoryStats { entries }),
            ),
        decreases count - k,
    {
        let ghost before = entries_view(MemoryStats { entries });
        let (name, value) = pair_at(reply, k);
        match name {
            RawReply::Text(text) => {
                match metric_from_reply(value) {
                    Ok(metric) => {
                        entries.push((text.clone(), metric));
                        assert(entries_view(MemoryStats { entries }) =~= before.push(
                            (text@, metric@),
                        ));
                    },
                    Err(e) => {
                        proof {
                            first_error_decides(*reply, (k + 1) as nat, count as nat);
                        }
                        return Err(e);
                    },
                }
            },
            _ => {
                proof {
                    first_error_decides(*reply, (k + 1) as nat, count as nat);
                }
                return Err(
                    ConversionError::WrongType { expected: Shape::Stats, found: name.kind() },
                );
            },
        }
        k += 1;
    }
    Ok(MemoryStats { entries })
}

/// Whether a reply has the form of a metric value: an integer, a double,
/// or metrics of its own.
pub open spec fn is_metric(reply: RawReply) -> bool
    decreases reply, 2nat,
{
    match reply {
        RawReply::Integer(_) | RawReply::Double(_) => true,
        RawReply::Array(_) | RawReply::Mapping(_) => is_stats(reply),
        _ => false,
    }
}

/// Whether a reply has the form of metrics: a mapping, or a list with an
/// even number of items, in which every name is text and every value has the
/// form of a metric value.
pub open spec fn is_stats(reply: RawReply) -> bool
    decreases reply, 1nat,
{
    &&& match reply {
        RawReply::Array(items) => items@.len() % 2 == 0,
        RawReply::Mapping(_) => true,
        _ => false,
    }
    &&& forall|k: int|
        0 <= k < reply.pair_count() ==> (#[trigger] reply.name_at(k)) is Text && is_metric(
            reply.value_at(k),
        )
}

/// A reply reads as a metric value exactly when it has the form of one.
pub proof fn metric_of_fits(reply: RawReply)
    ensures
        metric_of(reply) is Ok <==> is_metric(reply),
        metric_of(reply) matches Err(e) ==> e.spec_expected() == Shape::Stats,
    decreases reply, reply.pair_count() + 2,
{
    match reply {
        RawReply::Array(_) | RawReply::Mapping(_) => {
            stats_of_fits(reply);
        },
        _ => {},
    }
}

/// A reply reads as metrics exactly when it has the form of metrics. Then
/// there is one entry for each pair, in order, with the pair's name and the
/// metric value read from the pair's value; otherwise the error names the
/// metrics as what was expected.
pub proof fn stats_of_fits(reply: RawReply)
    ensures
        stats_of(reply) is Ok <==> is_stats(reply),
        stats_of(reply) matches Ok(entries) ==> entries.len() == reply.pair_count(),
        stats_of(reply) matches Ok(entries) ==> forall|k: int|
            0 <= k < reply.pair_count() ==> (#[trigger] entries[k]).0 == reply.name_at(k)->Text_0@
                && metric_of(reply.value_at(k)) == Ok::<StatView, ConversionError>(entries[k].1),
        stats_of(reply) matches Err(e) ==> e.spec_expected() == Shape::Stats,
    decreases reply, reply.pair_count() + 1,
{
    entries_upto_fits(reply, reply.pair_count());
}

proof fn entries_upto_fits(reply: RawReply, n: nat)
    requires
        n <= reply.pair_count(),
    ensures
        entries_upto(reply, n) is Ok <==> forall|k: int|
            0 <= k < n ==> (#[trigger] reply.name_at(k)) is Text && is_metric(reply.value_at(k)),
        entries_upto(reply, n) matches Ok(entries) ==> entries.len() == n,
        entries_upto(reply, n) matches Ok(entries) ==> forall|k: int|
            0 <= k < n ==> (#[trigger] entries[k]).0 == reply.name_at(k)->Text_0@ && metric_of(
                reply.value_at(k),
            ) == Ok::<StatView, ConversionError>(entries[k].1),
        entries_upto(reply, n) matches Err(e) ==> e.spec_expected() == Shape::Stats,
    decreases reply, n,
{
    if n > 0 {
        entries_upto_fits(reply, (n - 1) as nat);
        metric_of_fits(reply.value_at(n - 1));
        if entries_upto(reply, n) is Err && entries_upto(reply, (n - 1) as nat) is Ok {
            assert(!(reply.name_at(n - 1) is Text && is_metric(reply.value_at(n - 1))));
        }
    }
}

/// The value under a name: that of the last entry with that name, as a
/// mapping filled in the order of the reply would hold it.
pub open spec fn lookup(entries: Seq<(Seq<char>, StatView)>, name: Seq<char>) -> Option<StatView>
    decreases entries.len(),
{
    if entries.len() == 0 {
        None
    } else if entries.last().0 == name {
        Some(entries.last().1)
    } else {
        lookup(entries.drop_last(), name)
    }
}

impl MemoryStats {
    /// The number of entries.
    pub fn len(&self) -> (len: usize)
        ensures
            len == self@.len(),
    {
        self.entries.len()
    }

    /// The value under `name`, if there is one.
    pub fn get(&self, name: &str) -> (value: Option<&StatValue>)
        ensures
            match value {
                Some(found) => lookup(self@, name@) == Some(found@),
                None => lookup(self@, name@) is None,
            },
    {
        let wanted: String = name.to_owned();
        let mut i: usize = self.entries.len();
        assert(self@.take(i as int) =~= self@);
        while i > 0
            invariant
                i <= self.entries.len(),
                wanted@ == name@,
                lookup(self@, name@) == lookup(self@.take(i as int), name@),
            decreases i,
        {
            i -= 1;
            assert(self@.take(i + 1).drop_last() =~= self@.take(i as int));
            if self.entries[i].0 == wanted {
                return Some(&self.entries[i].1);
            }
        }
        None
    }
}

} // verus!
