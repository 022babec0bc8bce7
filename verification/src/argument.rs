//! What a caller hands over, and the words it becomes on the wire.

use vstd::prelude::*;
use vstd::slice::slice_to_vec;
use vstd::std_specs::convert::FromSpecImpl;
use vstd::string::StrSliceExecFns;
use vstd::utf8::encode_utf8;

verus! {

/// The decimal digits of `n` in ASCII, most significant first, without
/// leading zeros.
pub open spec fn decimal(n: nat) -> Seq<u8>
    decreases n,
{
    if n < 10 {
        seq![(48 + n) as u8]
    } else {
        decimal(n / 10).push((48 + n % 10) as u8)
    }
}

/// The number that a word of ASCII digits stands for.
pub open spec fn decimal_value(digits: Seq<u8>) -> nat
    decreases digits.len(),
{
    if digits.len() == 0 {
        0
    } else {
        (10 * decimal_value(digits.drop_last()) + (digits.last() - 48)) as nat
    }
}

/// A count reads back from its decimal word: nothing is lost or added on the
/// way to the wire.
pub proof fn decimal_reads_back(n: nat)
    ensures
        decimal_value(decimal(n)) == n,
        decimal(n).len() >= 1,
        forall|i: int| 0 <= i < decimal(n).len() ==> 48 <= #[trigger] decimal(n)[i] <= 57,
        n > 0 ==> decimal(n)[0] != 48,
    decreases n,
{
    if n < 10 {
        let word = decimal(n);
        assert(word.drop_last() =~= Seq::<u8>::empty());
        assert(decimal_value(word.drop_last()) == 0);
    } else {
        decimal_reads_back(n / 10);
        let shorter = decimal(n / 10);
        let word = decimal(n);
        assert(word.drop_last() =~= shorter);
        assert(word[0] == shorter[0]);
    }
}

fn push_decimal(n: u64, out: &mut Vec<u8>)
    ensures
        final(out)@ == old(out)@ + decimal(n as nat),
    decreases n,
{
    if n >= 10 {
        push_decimal(n / 10, out);
    }
    let digit: u8 = (n % 10) as u8;
    out.push(48 + digit);
    proof {
        if n >= 10 {
            assert(final(out)@ =~= old(out)@ + decimal((n / 10) as nat).push((48 + n % 10) as u8));
        } else {
            assert(final(out)@ =~= old(out)@ + seq![(48 + n) as u8]);
        }
    }
}

/// The decimal word of a count.
pub fn decimal_word(n: u64) -> (word: Vec<u8>)
    ensures
        word@ == decimal(n as nat),
{
    let mut word: Vec<u8> = Vec::new();
    push_decimal(n, &mut word);
    assert(word@ =~= decimal(n as nat));
    word
}

/// The name of a key: any sequence of bytes.
///
/// A key is what its bytes are, so every way of making one states the bytes
/// of the result. Where the bytes are written out anew, as from text, the
/// conversion promises those bytes and leaves `from_spec` unused.
#[derive(Clone, Debug, PartialEq, Eq)]
pub struct RedisKey {
    bytes: Vec<u8>,
}

impl View for RedisKey {
    type V = Seq<u8>;

    closed spec fn view(&self) -> Seq<u8> {
        self.bytes@
    }
}

impl RedisKey {
    /// The key with exactly these bytes.
    pub fn from_bytes(bytes: Vec<u8>) -> (key: RedisKey)
        ensures
            key@ == bytes@,
    {
        RedisKey { bytes }
    }

    /// The bytes of the key.
    pub fn as_bytes(&self) -> (bytes: &[u8])
        ensures
            bytes@ == self@,
    {
        self.bytes.as_slice()
    }
}

impl FromSpecImpl<Vec<u8>> for RedisKey {
    open spec fn obeys_from_spec() -> bool {
        true
    }

    closed spec fn from_spec(v: Vec<u8>) -> Self {
        RedisKey { bytes: v }
    }
}

impl From<Vec<u8>> for RedisKey {
    /// A vector of bytes is a key as it stands.
    fn from(v: Vec<u8>) -> (key: RedisKey)
        ensures
            key@ == v@,
    {
        RedisKey { bytes: v }
    }
}

impl<'a> FromSpecImpl<&'a [u8]> for RedisKey {
    open spec fn obeys_from_spec() -> bool {
        false
    }

    open spec fn from_spec(v: &'a [u8]) -> Self {
        arbitrary()
    }
}

impl<'a> From<&'a [u8]> for RedisKey {
    /// A slice of bytes is a key as it stands.
    fn from(v: &'a [u8]) -> (key: RedisKey)
        ensures
            key@ == v@,
    {
        RedisKey { bytes: slice_to_vec(v) }
    }
}

impl<'a> FromSpecImpl<&'a str> for RedisKey {
    open spec fn obeys_from_spec() -> bool {
        false
    }

    open spec fn from_spec(v: &'a str) -> Self {
        arbitrary()
    }
}

impl<'a> From<&'a str> for RedisKey {
    /// Text is a key by its UTF-8 bytes.
    fn from(v: &'a str) -> (key: RedisKey)
        ensures
            key@ == encode_utf8(v@),
    {
        RedisKey { bytes: v.as_bytes_vec() }
    }
}

impl FromSpecImpl<String> for RedisKey {
    open spec fn obeys_from_spec() -> bool {
        false
    }

    open spec fn from_spec(v: String) -> Self {
        arbitrary()
    }
}

impl From<String> for RedisKey {
    /// Text is a key by its UTF-8 bytes.
    fn from(v: String) -> (key: RedisKey)
        ensures
            key@ == encode_utf8(v@),
    {
        RedisKey { bytes: v.as_str().as_bytes_vec() }
    }
}

/// The fixed words that may stand among the arguments of a command.
#[derive(Clone, Copy, Debug, PartialEq, Eq, Structural)]
pub enum Keyword {
    /// Introduces the number of samples to take.
    Samples,
}

impl Keyword {
    /// The bytes of the word as the server reads it.
    pub open spec fn spec_word(self) -> Seq<u8> {
        match self {
            Keyword::Samples => encode_utf8("SAMPLES"@),
        }
    }

    pub fn word(self) -> (word: Vec<u8>)
        ensures
            word@ == self.spec_word(),
    {
        match self {
            Keyword::Samples => "SAMPLES".as_bytes_vec(),
        }
    }
}

/// One argument of a command.
#[derive(Clone, Debug, PartialEq, Eq)]
pub enum Argument {
    /// The name of a key.
    Key(RedisKey),
    /// A fixed word.
    Keyword(Keyword),
    /// An unsigned count.
    Count(u64),
}

/// An argument as a plain value.
pub enum ArgumentView {
    Key(Seq<u8>),
    Keyword(Keyword),
    Count(u64),
}

impl ArgumentView {
    /// The word that the argument is on the wire: a key by its bytes, a
    /// keyword by its letters, a count by its decimal digits.
    pub open spec fn word(self) -> Seq<u8> {
        match self {
            ArgumentView::Key(bytes) => bytes,
            ArgumentView::Keyword(keyword) => keyword.spec_word(),
            ArgumentView::Count(n) => decimal(n as nat),
        }
    }
}

impl View for Argument {
    type V = ArgumentView;

    open spec fn view(&self) -> ArgumentView {
        match self {
            Argument::Key(key) => ArgumentView::Key(key@),
            Argument::Keyword(keyword) => ArgumentView::Keyword(*keyword),
            Argument::Count(n) => ArgumentView::Count(*n),
        }
    }
}

impl Argument {
    /// The word that the argument is on the wire.
    pub fn word(&self) -> (word: Vec<u8>)
        ensures
            word@ == self@.word(),
    {
        match self {
            Argument::Key(key) => slice_to_vec(key.as_bytes()),
            Argument::Keyword(keyword) => keyword.word(),
            Argument::Count(n) => decimal_word(*n),
        }
    }
}

impl FromSpecImpl<RedisKey> for Argument {
    open spec fn obeys_from_spec() -> bool {
        true
    }

    open spec fn from_spec(v: RedisKey) -> Self {
        Argument::Key(v)
    }
}

impl From<RedisKey> for Argument {
    fn from(v: RedisKey) -> (argument: Argument) {
        Argument::Key(v)
    }
}

impl FromSpecImpl<Keyword> for Argument {
    open spec fn obeys_from_spec() -> bool {
        true
    }

    open spec fn from_spec(v: Keyword) -> Self {
        Argument::Keyword(v)
    }
}

impl From<Keyword> for Argument {
    fn from(v: Keyword) -> (argument: Argument) {
        Argument::Keyword(v)
    }
}

impl FromSpecImpl<u64> for Argument {
    open spec fn obeys_from_spec() -> bool {
        true
    }

    open spec fn from_spec(v: u64) -> Self {
        Argument::Count(v)
    }
}

impl From<u64> for Argument {
    fn from(v: u64) -> (argument: Argument) {
        Argument::Count(v)
    }
}

impl FromSpecImpl<u32> for Argument {
    open spec fn obeys_from_spec() -> bool {
        true
    }

    open spec fn from_spec(v: u32) -> Self {
        Argument::Count(v as u64)
    }
}

impl From<u32> for Argument {
    fn from(v: u32) -> (argument: Argument) {
        Argument::Count(v as u64)
    }
}

impl<'a> FromSpecImpl<&'a str> for Argument {
    open spec fn obeys_from_spec() -> bool {
        false
    }

    open spec fn from_spec(v: &'a str) -> Self {
        arbitrary()
    }
}

impl<'a> From<&'a str> for Argument {
    /// Text becomes a key argument.
    fn from(v: &'a str) -> (argument: Argument)
        ensures
            argument@ == ArgumentView::Key(encode_utf8(v@)),
    {
        Argument::Key(RedisKey::from(v))
    }
}

impl FromSpecImpl<String> for Argument {
    open spec fn obeys_from_spec() -> bool {
        false
    }

    open spec fn from_spec(v: String) -> Self {
        arbitrary()
    }
}

impl From<String> for Argument {
    /// Text becomes a key argument.
    fn from(v: String) -> (argument: Argument)
        ensures
            argument@ == ArgumentView::Key(encode_utf8(v@)),
    {
        Argument::Key(RedisKey::from(v))
    }
}

impl FromSpecImpl<Vec<u8>> for Argument {
    open spec fn obeys_from_spec() -> bool {
        false
    }

    open spec fn from_spec(v: Vec<u8>) -> Self {
        arbitrary()
    }
}

impl From<Vec<u8>> for Argument {
    /// Bytes become a key argument.
    fn from(v: Vec<u8>) -> (argument: Argument)
        ensures
            argument@ == ArgumentView::Key(v@),
    {
        Argument::Key(RedisKey::from(v))
    }
}

/// Text converts whatever it holds, and converting the same text twice
/// gives the same argument: the key with the text's UTF-8 bytes.
pub proof fn str_conversion_is_total_and_deterministic<'a>(
    a: &'a str,
    b: &'a str,
    first: Argument,
    second: Argument,
)
    requires
        a@ == b@,
        call_ensures(<Argument as From<&'a str>>::from, (a,), first),
        call_ensures(<Argument as From<&'a str>>::from, (b,), second),
    ensures
        call_requires(<Argument as From<&'a str>>::from, (a,)),
        first@ == second@,
        first@ == ArgumentView::Key(encode_utf8(a@)),
{
}

/// An owned text converts whatever it holds, and converting the same text
/// twice gives the same argument: the key with the text's UTF-8 bytes.
pub proof fn string_conversion_is_total_and_deterministic(
    a: String,
    b: String,
    first: Argument,
    second: Argument,
)
    requires
        a@ == b@,
        call_ensures(<Argument as From<String>>::from, (a,), first),
        call_ensures(<Argument as From<String>>::from, (b,), second),
    ensures
        call_requires(<Argument as From<String>>::from, (a,)),
        first@ == second@,
        first@ == ArgumentView::Key(encode_utf8(a@)),
{
}

/// Bytes convert whatever they hold, and converting the same bytes twice
/// gives the same argument: the key with those bytes.
pub proof fn bytes_conversion_is_total_and_deterministic(
    a: Vec<u8>,
    b: Vec<u8>,
    first: Argument,
    second: Argument,
)
    requires
        a@ == b@,
        call_ensures(<Argument as From<Vec<u8>>>::from, (a,), first),
        call_ensures(<Argument as From<Vec<u8>>>::from, (b,), second),
    ensures
        call_requires(<Argument as From<Vec<u8>>>::from, (a,)),
        first@ == second@,
        first@ == ArgumentView::Key(a@),
{
}

/// Every count converts, and converting the same count twice gives the
/// same argument: that count, whichever width it came in.
pub proof fn count_conversion_is_total_and_deterministic(
    a: u32,
    b: u64,
    first: Argument,
    second: Argument,
)
    requires
        a == b,
        call_ensures(<Argument as From<u32>>::from, (a,), first),
        call_ensures(<Argument as From<u64>>::from, (b,), second),
    ensures
        call_requires(<Argument as From<u32>>::from, (a,)),
        call_requires(<Argument as From<u64>>::from, (b,)),
        first@ == second@,
        first@ == ArgumentView::Count(b),
{
}

/// Different inputs stay different on the wire: two texts with the same
/// bytes are the same text, and two counts with the same digits are the same
/// count.
pub proof fn words_tell_inputs_apart(a: Seq<char>, b: Seq<char>, m: u64, n: u64)
    ensures
        encode_utf8(a) == encode_utf8(b) ==> a == b,
        decimal(m as nat) == decimal(n as nat) ==> m == n,
{
    vstd::utf8::encode_utf8_decode_utf8(a);
    vstd::utf8::encode_utf8_decode_utf8(b);
    decimal_reads_back(m as nat);
    decimal_reads_back(n as nat);
}

} // verus!
