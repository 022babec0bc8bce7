//! Command descriptors: a name, the arguments in order, and the shape of the
//! reply that the command expects.

use crate::argument::{decimal, Argument, ArgumentView, Keyword, RedisKey};
use crate::error::Shape;
use vstd::prelude::*;
use vstd::string::StrSliceExecFns;
use vstd::utf8::encode_utf8;

verus! {

/// The commands of the memory group.
#[derive(Clone, Copy, Debug, PartialEq, Eq, Structural)]
pub enum CommandKind {
    /// Asks for the server's diagnosis of its memory use.
    MemoryDoctor,
    /// Asks for the allocator's own report.
    MemoryMallocStats,
    /// Asks the allocator to give back what it can.
    MemoryPurge,
    /// Asks for the memory metrics.
    MemoryStats,
    /// Asks how many bytes a key takes.
    MemoryUsage,
}

impl CommandKind {
    /// The name under which the server knows the command.
    pub open spec fn spec_name(self) -> Seq<char> {
        match self {
            CommandKind::MemoryDoctor => "DIAGNOSE"@,
            CommandKind::MemoryMallocStats => "ALLOCATOR-STATS"@,
            CommandKind::MemoryPurge => "PURGE"@,
            CommandKind::MemoryStats => "STATS"@,
            CommandKind::MemoryUsage => "USAGE"@,
        }
    }

    /// The one shape that a reply to the command is converted to.
    pub open spec fn spec_shape(self) -> Shape {
        match self {
            CommandKind::MemoryDoctor => Shape::Text,
            CommandKind::MemoryMallocStats => Shape::Text,
            CommandKind::MemoryPurge => Shape::Unit,
            CommandKind::MemoryStats => Shape::Stats,
            CommandKind::MemoryUsage => Shape::OptionalCount,
        }
    }

    pub fn name(self) -> (name: &'static str)
        ensures
            name@ == self.spec_name(),
    {
        match self {
            CommandKind::MemoryDoctor => "DIAGNOSE",
            CommandKind::MemoryMallocStats => "ALLOCATOR-STATS",
            CommandKind::MemoryPurge => "PURGE",
            CommandKind::MemoryStats => "STATS",
            CommandKind::MemoryUsage => "USAGE",
        }
    }

    #[verifier::when_used_as_spec(spec_shape)]
    pub fn shape(self) -> (shape: Shape)
        ensures
            shape == self.spec_shape(),
    {
        match self {
            CommandKind::MemoryDoctor => Shape::Text,
            CommandKind::MemoryMallocStats => Shape::Text,
            CommandKind::MemoryPurge => Shape::Unit,
            CommandKind::MemoryStats => Shape::Stats,
            CommandKind::MemoryUsage => Shape::OptionalCount,
        }
    }
}

/// The arguments of a usage command: the key, and the samples clause where
/// a sample count is given.
pub open spec fn usage_arguments(key: Seq<u8>, samples: Option<u32>) -> Seq<ArgumentView> {
    match samples {
        None => seq![ArgumentView::Key(key)],
        Some(n) => seq![
            ArgumentView::Key(key),
            ArgumentView::Keyword(Keyword::Samples),
            ArgumentView::Count(n as u64),
        ],
    }
}

/// A command without arguments, as a plain value.
pub open spec fn bare(kind: CommandKind) -> CommandView {
    CommandView { kind, args: Seq::empty() }
}

/// The usage command for a key and an optional sample count, as a plain
/// value.
pub open spec fn usage(key: Seq<u8>, samples: Option<u32>) -> CommandView {
    CommandView { kind: CommandKind::MemoryUsage, args: usage_arguments(key, samples) }
}

/// A command descriptor as a plain value.
pub struct CommandView {
    pub kind: CommandKind,
    pub args: Seq<ArgumentView>,
}

impl CommandView {
    /// The words that go on the wire: the name, then each argument's word.
    pub open spec fn words(self) -> Seq<Seq<u8>> {
        seq![encode_utf8(self.kind.spec_name())] + Seq::new(
            self.args.len(),
            |i: int| self.args[i].word(),
        )
    }

    /// The arguments are those that the kind of command takes: a key and
    /// at most one samples clause for a usage command, none for the others.
    pub open spec fn well_formed(self) -> bool {
        match self.kind {
            CommandKind::MemoryUsage => exists|key: Seq<u8>, samples: Option<u32>|
                self.args == #[trigger] usage_arguments(key, samples),
            _ => self.args == Seq::<ArgumentView>::empty(),
        }
    }
}

/// One command, ready to send. It is made by one of the five functions
/// below and by nothing else, so its arguments always fit its kind.
#[derive(Debug, PartialEq, Eq)]
pub struct Command {
    kind: CommandKind,
    args: Vec<Argument>,
}

impl View for Command {
    type V = CommandView;

    closed spec fn view(&self) -> CommandView {
        CommandView { kind: self.kind, args: Seq::new(self.args@.len(), |i: int| self.args@[i]@) }
    }
}

impl Command {
    #[verifier::type_invariant]
    spec fn arguments_fit(self) -> bool {
        self@.well_formed()
    }

    fn without_arguments(kind: CommandKind) -> (command: Command)
        requires
            kind != CommandKind::MemoryUsage,
        ensures
            command@ == bare(kind),
    {
        let args: Vec<Argument> = Vec::new();
        assert(Seq::new(args@.len(), |i: int| args@[i]@) =~= Seq::<ArgumentView>::empty());
        Command { kind, args }
    }

    /// Which command this is.
    pub fn kind(&self) -> (kind: CommandKind)
        ensures
            kind == self@.kind,
            self@.well_formed(),
    {
        proof {
            use_type_invariant(self);
        }
        self.kind
    }

    /// The shape that a reply to this command is converted to.
    pub fn shape(&self) -> (shape: Shape)
        ensures
            shape == self@.kind.spec_shape(),
    {
        self.kind.shape()
    }

    /// The arguments, in the order in which they are sent.
    pub fn args(&self) -> (args: &Vec<Argument>)
        ensures
            args@.len() == self@.args.len(),
            forall|i: int| 0 <= i < args@.len() ==> (#[trigger] args@[i])@ == self@.args[i],
    {
        &self.args
    }

    /// The words that go on the wire.
    pub fn words(&self) -> (words: Vec<Vec<u8>>)
        ensures
            words@.len() == self@.words().len(),
            forall|i: int| 0 <= i < words@.len() ==> (#[trigger] words@[i])@ == self@.words()[i],
    {
        let mut words: Vec<Vec<u8>> = Vec::new();
        words.push(self.kind.name().as_bytes_vec());
        let mut i: usize = 0;
        while i < self.args.len()
            invariant
                i <= self.args.len(),
                words@.len() == i + 1,
                words@[0]@ == encode_utf8(self.kind.spec_name()),
                forall|j: int| 0 <= j < i ==> (#[trigger] words@[j + 1])@ == self.args@[j]@.word(),
            decreases self.args.len() - i,
        {
            words.push(self.args[i].word());
            i += 1;
        }
        assert forall|k: int| 0 <= k < words@.len() implies (#[trigger] words@[k])@
            == self@.words()[k] by {
            if k > 0 {
                assert(words@[(k - 1) + 1]@ == self.args@[k - 1]@.word());
            }
        }
        words
    }
}

/// The command that asks for the server's diagnosis. It takes no argument.
pub fn memory_doctor() -> (command: Command)
    ensures
        command@ == bare(CommandKind::MemoryDoctor),
{
    Command::without_arguments(CommandKind::MemoryDoctor)
}

/// The command that asks for the allocator's report. It takes no argument.
pub fn memory_malloc_stats() -> (command: Command)
    ensures
        command@ == bare(CommandKind::MemoryMallocStats),
{
    Command::without_arguments(CommandKind::MemoryMallocStats)
}

/// The command that asks the allocator to purge. It takes no argument.
pub fn memory_purge() -> (command: Command)
    ensures
        command@ == bare(CommandKind::MemoryPurge),
{
    Command::without_arguments(CommandKind::MemoryPurge)
}

/// The command that asks for the memory metrics. It takes no argument.
pub fn memory_stats() -> (command: Command)
    ensures
        command@ == bare(CommandKind::MemoryStats),
{
    Command::without_arguments(CommandKind::MemoryStats)
}

/// The command that asks how many bytes `key` takes. The sample count goes
/// out as it came in, behind the samples keyword; without one, the key is
/// the only argument.
pub fn memory_usage(key: RedisKey, samples: Option<u32>) -> (command: Command)
    ensures
        command@ == usage(key@, samples),
{
    let mut args: Vec<Argument> = Vec::new();
    args.push(Argument::Key(key));
    if let Some(n) = samples {
        args.push(Argument::Keyword(Keyword::Samples));
        args.push(Argument::Count(n as u64));
    }
    proof {
        assert(Seq::new(args@.len(), |i: int| args@[i]@) =~= usage_arguments(key@, samples));
    }
    Command { kind: CommandKind::MemoryUsage, args }
}

/// A command without arguments goes out as its name and nothing else.
pub proof fn bare_command_is_its_name(kind: CommandKind)
    ensures
        bare(kind).words() == seq![encode_utf8(kind.spec_name())],
{
    assert(bare(kind).words() =~= seq![encode_utf8(kind.spec_name())]);
}

/// The usage command holds a samples clause exactly where a sample count
/// is given. Without one it goes out as the name and the key; with one, the
/// samples keyword and the count in decimal follow.
pub proof fn samples_clause_iff_supplied(key: Seq<u8>, samples: Option<u32>)
    ensures
        usage_arguments(key, samples).contains(ArgumentView::Keyword(Keyword::Samples))
            <==> samples is Some,
        samples is None ==> usage(key, samples).words() == seq![encode_utf8("USAGE"@), key],
        samples matches Some(n) ==> usage(key, samples).words() == seq![
            encode_utf8("USAGE"@),
            key,
            encode_utf8("SAMPLES"@),
            decimal(n as nat),
        ],
{
    let args = usage_arguments(key, samples);
    match samples {
        None => {
            assert(usage(key, samples).words() =~= seq![encode_utf8("USAGE"@), key]);
            assert forall|i: int| 0 <= i < args.len() implies args[i] != ArgumentView::Keyword(
                Keyword::Samples,
            ) by {}
        },
        Some(n) => {
            assert(args[1] == ArgumentView::Keyword(Keyword::Samples));
            assert(usage(key, samples).words() =~= seq![
                encode_utf8("USAGE"@),
                key,
                encode_utf8("SAMPLES"@),
                decimal(n as nat),
            ]);
        },
    }
}

} // verus!
