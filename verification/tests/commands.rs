use memory_interface::argument::{decimal_word, Argument, Keyword, RedisKey};
use memory_interface::commands::{
    memory_doctor, memory_malloc_stats, memory_purge, memory_stats, memory_usage, CommandKind,
};
use memory_interface::error::Shape;

fn words(list: &[&str]) -> Vec<Vec<u8>> {
    list.iter().map(|word| word.as_bytes().to_vec()).collect()
}

#[test]
fn usage_without_samples_holds_only_the_key() {
    let command = memory_usage(RedisKey::from("k"), None);
    assert_eq!(command.words(), words(&["USAGE", "k"]));
    assert_eq!(command.args().len(), 1);
    assert_eq!(command.args()[0], Argument::Key(RedisKey::from("k")));
}

#[test]
fn usage_with_samples_appends_the_clause() {
    let command = memory_usage(RedisKey::from("k"), Some(5));
    assert_eq!(command.words(), words(&["USAGE", "k", "SAMPLES", "5"]));
    assert_eq!(
        command.args(),
        &vec![
            Argument::Key(RedisKey::from("k")),
            Argument::Keyword(Keyword::Samples),
            Argument::Count(5),
        ]
    );
}

#[test]
fn samples_clause_is_there_exactly_when_a_count_is_given() {
    for samples in [None, Some(0u32), Some(1), Some(77), Some(u32::MAX)] {
        let command = memory_usage(RedisKey::from("some:key"), samples);
        let has_clause = command.args().contains(&Argument::Keyword(Keyword::Samples));
        assert_eq!(has_clause, samples.is_some());
        assert_eq!(command.words().len(), if samples.is_some() { 4 } else { 2 });
    }
}

#[test]
fn sample_count_goes_out_unchanged() {
    let zero = memory_usage(RedisKey::from("k"), Some(0));
    assert_eq!(zero.words(), words(&["USAGE", "k", "SAMPLES", "0"]));
    let most = memory_usage(RedisKey::from("k"), Some(u32::MAX));
    assert_eq!(most.words(), words(&["USAGE", "k", "SAMPLES", "4294967295"]));
}

#[test]
fn purge_and_doctor_take_no_argument() {
    assert_eq!(memory_purge().words(), words(&["PURGE"]));
    assert_eq!(memory_doctor().words(), words(&["DIAGNOSE"]));
    assert!(memory_purge().args().is_empty());
    assert!(memory_doctor().args().is_empty());
}

#[test]
fn stats_and_allocator_report_take_no_argument() {
    assert_eq!(memory_stats().words(), words(&["STATS"]));
    assert_eq!(memory_malloc_stats().words(), words(&["ALLOCATOR-STATS"]));
}

#[test]
fn each_command_has_its_kind_name_and_shape() {
    assert_eq!(memory_doctor().kind(), CommandKind::MemoryDoctor);
    assert_eq!(memory_malloc_stats().kind(), CommandKind::MemoryMallocStats);
    assert_eq!(memory_purge().kind(), CommandKind::MemoryPurge);
    assert_eq!(memory_stats().kind(), CommandKind::MemoryStats);
    assert_eq!(memory_usage(RedisKey::from("k"), None).kind(), CommandKind::MemoryUsage);

    assert_eq!(CommandKind::MemoryDoctor.name(), "DIAGNOSE");
    assert_eq!(CommandKind::MemoryMallocStats.name(), "ALLOCATOR-STATS");
    assert_eq!(CommandKind::MemoryPurge.name(), "PURGE");
    assert_eq!(CommandKind::MemoryStats.name(), "STATS");
    assert_eq!(CommandKind::MemoryUsage.name(), "USAGE");

    assert_eq!(memory_doctor().shape(), Shape::Text);
    assert_eq!(memory_malloc_stats().shape(), Shape::Text);
    assert_eq!(memory_purge().shape(), Shape::Unit);
    assert_eq!(memory_stats().shape(), Shape::Stats);
    assert_eq!(memory_usage(RedisKey::from("k"), Some(1)).shape(), Shape::OptionalCount);
}

#[test]
fn building_twice_gives_the_same_command() {
    let first = memory_usage(RedisKey::from("k"), Some(9));
    let second = memory_usage(RedisKey::from("k"), Some(9));
    assert_eq!(first, second);
    assert_eq!(memory_purge(), memory_purge());
}

#[test]
fn decimal_word_of_small_and_large_counts() {
    assert_eq!(decimal_word(0), b"0".to_vec());
    assert_eq!(decimal_word(5), b"5".to_vec());
    assert_eq!(decimal_word(9), b"9".to_vec());
    assert_eq!(decimal_word(10), b"10".to_vec());
    assert_eq!(decimal_word(1203), b"1203".to_vec());
    assert_eq!(decimal_word(u64::MAX), b"18446744073709551615".to_vec());
}

#[test]
fn decimal_word_reads_back() {
    for n in [0u64, 1, 9, 10, 99, 100, 65535, 4294967295, 4294967296, u64::MAX] {
        let word = decimal_word(n);
        let text = String::from_utf8(word).unwrap();
        assert_eq!(text, n.to_string());
        assert_eq!(text.parse::<u64>().unwrap(), n);
    }
}

#[test]
fn text_becomes_a_key_by_its_bytes() {
    assert_eq!(Argument::from("k"), Argument::Key(RedisKey::from_bytes(vec![0x6b])));
    assert_eq!(
        Argument::from(String::from("k")),
        Argument::Key(RedisKey::from_bytes(vec![0x6b]))
    );
    assert_eq!(RedisKey::from("caf\u{e9}").as_bytes(), &[0x63, 0x61, 0x66, 0xc3, 0xa9]);
    assert_eq!(RedisKey::from(String::from("\u{20ac}")).as_bytes(), &[0xe2, 0x82, 0xac]);
    assert_eq!(RedisKey::from("").as_bytes(), &[] as &[u8]);
}

#[test]
fn bytes_become_a_key_as_they_stand() {
    let raw = vec![0u8, 255, 128, 10, 13];
    assert_eq!(Argument::from(raw.clone()), Argument::Key(RedisKey::from_bytes(raw.clone())));
    assert_eq!(RedisKey::from(raw.clone()).as_bytes(), raw.as_slice());
    assert_eq!(RedisKey::from(raw.as_slice()).as_bytes(), raw.as_slice());
    let command = memory_usage(RedisKey::from(raw.clone()), None);
    assert_eq!(command.words(), vec![b"USAGE".to_vec(), raw]);
}

#[test]
fn counts_and_keywords_become_arguments() {
    assert_eq!(Argument::from(5u32), Argument::Count(5));
    assert_eq!(Argument::from(5u64), Argument::Count(5));
    assert_eq!(Argument::from(u32::MAX), Argument::Count(4294967295));
    assert_eq!(Argument::from(u64::MAX), Argument::Count(u64::MAX));
    assert_eq!(Argument::from(Keyword::Samples), Argument::Keyword(Keyword::Samples));
    assert_eq!(
        Argument::from(RedisKey::from("k")),
        Argument::Key(RedisKey::from_bytes(b"k".to_vec()))
    );
}

#[test]
fn the_same_input_gives_the_same_argument() {
    let via_into: Argument = "session:42".into();
    assert_eq!(via_into, Argument::from("session:42"));
    assert_eq!(Argument::from("session:42"), Argument::from(String::from("session:42")));
    assert_eq!(Argument::from("session:42"), Argument::from(b"session:42".to_vec()));
    assert_eq!(Argument::from(7u32), Argument::from(7u64));
    assert_ne!(Argument::from("a"), Argument::from("b"));
    assert_ne!(Argument::from(1u64), Argument::from(2u64));
}

#[test]
fn each_argument_has_its_word() {
    assert_eq!(Argument::from("k").word(), b"k".to_vec());
    assert_eq!(Argument::from(Keyword::Samples).word(), b"SAMPLES".to_vec());
    assert_eq!(Keyword::Samples.word(), b"SAMPLES".to_vec());
    assert_eq!(Argument::from(42u64).word(), b"42".to_vec());
    // A key that spells a count or a keyword is still a key.
    assert_eq!(Argument::from("42").word(), b"42".to_vec());
    assert_ne!(Argument::from("42"), Argument::from(42u64));
    assert_ne!(Argument::from("SAMPLES"), Argument::from(Keyword::Samples));
}
