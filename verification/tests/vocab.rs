use ddr_score::vocab::{ClearKind, ClearRank, Difficulty, VocabError};

#[test]
fn difficulty_words_in_any_case() {
    assert_eq!(Difficulty::from_str("beginner").unwrap(), Difficulty::Beginner);
    assert_eq!(Difficulty::from_str("Basic").unwrap(), Difficulty::Basic);
    assert_eq!(Difficulty::from_str("DIFFICULT").unwrap(), Difficulty::Difficult);
    assert_eq!(Difficulty::from_str("eXpErT").unwrap(), Difficulty::Expert);
    assert_eq!(Difficulty::from_str("challenge").unwrap(), Difficulty::Challenge);
}

#[test]
fn difficulty_ordinals() {
    assert_eq!(Difficulty::Beginner.ordinal(), 0);
    assert_eq!(Difficulty::Basic.ordinal(), 1);
    assert_eq!(Difficulty::Difficult.ordinal(), 2);
    assert_eq!(Difficulty::Expert.ordinal(), 3);
    assert_eq!(Difficulty::Challenge.ordinal(), 4);
}

#[test]
fn difficulty_names() {
    assert_eq!(Difficulty::Beginner.to_string(), "BEGINNER");
    assert_eq!(Difficulty::Basic.to_string(), "BASIC");
    assert_eq!(Difficulty::Difficult.to_string(), "DIFFICULT");
    assert_eq!(Difficulty::Expert.to_string(), "EXPERT");
    assert_eq!(Difficulty::Challenge.to_string(), "CHALLENGE");
}

#[test]
fn difficulty_names_read_back() {
    for d in [
        Difficulty::Beginner,
        Difficulty::Basic,
        Difficulty::Difficult,
        Difficulty::Expert,
        Difficulty::Challenge,
    ] {
        assert_eq!(Difficulty::from_str(&d.to_string()).unwrap(), d);
    }
}

#[test]
fn unknown_difficulty_keeps_the_word() {
    match Difficulty::from_str("Extreme") {
        Err(VocabError::UnknownDifficulty(w)) => assert_eq!(w, "Extreme"),
        other => panic!("unexpected: {:?}", other),
    }
    let e = Difficulty::from_str("Extreme").unwrap_err();
    assert_eq!(e.message(), "Unknown difficulty Extreme");
}

#[test]
fn difficulty_words_are_whole() {
    assert!(Difficulty::from_str("").is_err());
    assert!(Difficulty::from_str("expert ").is_err());
    assert!(Difficulty::from_str(" expert").is_err());
    assert!(Difficulty::from_str("exper").is_err());
    assert!(Difficulty::from_str("experts").is_err());
    assert!(Difficulty::from_str("ｅｘｐｅｒｔ").is_err());
}

#[test]
fn clear_rank_words_and_ordinals() {
    let words = [
        ("AAA", ClearRank::AAA, 0),
        ("AA+", ClearRank::AAPlus, 1),
        ("AA", ClearRank::AA, 2),
        ("AA-", ClearRank::AAMinus, 3),
        ("A+", ClearRank::APlus, 4),
        ("A", ClearRank::A, 5),
        ("A-", ClearRank::AMinus, 6),
        ("B+", ClearRank::BPlus, 7),
        ("B", ClearRank::B, 8),
        ("B-", ClearRank::BMinus, 9),
        ("C+", ClearRank::CPlus, 10),
        ("C", ClearRank::C, 11),
        ("C-", ClearRank::CMinus, 12),
        ("D+", ClearRank::DPlus, 13),
        ("D", ClearRank::D, 14),
        ("E", ClearRank::E, 15),
    ];
    for (word, rank, ordinal) in words {
        assert_eq!(ClearRank::from_str(word).unwrap(), rank);
        assert_eq!(ClearRank::from_str(&word.to_lowercase()).unwrap(), rank);
        assert_eq!(rank.ordinal(), ordinal);
    }
}

#[test]
fn unknown_clear_rank() {
    match ClearRank::from_str("S") {
        Err(VocabError::UnknownClearRank(w)) => assert_eq!(w, "S"),
        other => panic!("unexpected: {:?}", other),
    }
    assert_eq!(ClearRank::from_str("aa +").unwrap_err().message(), "Unknown clear rank aa +");
    assert!(ClearRank::from_str("").is_err());
    assert!(ClearRank::from_str("AAAA").is_err());
    assert!(ClearRank::from_str("F").is_err());
}

#[test]
fn clear_kind_words_and_ordinals() {
    let words = [
        ("MFC", ClearKind::MFC, 0),
        ("PFC", ClearKind::PFC, 1),
        ("GFC", ClearKind::GFC, 2),
        ("FC", ClearKind::FC, 3),
        ("LIFE4", ClearKind::Life4, 4),
        ("CLEAR", ClearKind::Clear, 5),
        ("ASSISTED", ClearKind::Assisted, 6),
        ("FAILED", ClearKind::Failed, 7),
        ("NO PLAY", ClearKind::NoPlay, 8),
    ];
    for (word, kind, ordinal) in words {
        assert_eq!(ClearKind::from_str(word).unwrap(), kind);
        assert_eq!(ClearKind::from_str(&word.to_lowercase()).unwrap(), kind);
        assert_eq!(kind.ordinal(), ordinal);
    }
}

#[test]
fn unknown_clear_kind() {
    match ClearKind::from_str("NOPLAY") {
        Err(VocabError::UnknownClearKind(w)) => assert_eq!(w, "NOPLAY"),
        other => panic!("unexpected: {:?}", other),
    }
    assert_eq!(ClearKind::from_str("Life 4").unwrap_err().message(), "Unknown clear kind Life 4");
    assert!(ClearKind::from_str("").is_err());
}
