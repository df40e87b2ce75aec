use ddr_score::compare::{is_superseding, kind_ordinal, or_floor, rank_ordinal, Best, Submission};

fn blank() -> Submission {
    Submission {
        title: "Song A".to_string(),
        difficulty: "Expert".to_string(),
        score: None,
        rank: None,
        clear_kind: None,
        flare_skill: None,
        flare_rank: None,
    }
}

fn best(score: Option<i64>, rank: Option<&str>, kind: Option<&str>, flare: Option<i64>) -> Best {
    Best {
        id: 1,
        score,
        rank: rank.map(|r| r.to_string()),
        kind: kind.map(|k| k.to_string()),
        flare,
    }
}

#[test]
fn all_empty_first_submission_is_discarded() {
    assert!(!is_superseding(None, &blank()));
}

#[test]
fn first_submission_counts_with_any_one_field() {
    let mut s = blank();
    s.score = Some(0);
    assert!(is_superseding(None, &s));
    let mut s = blank();
    s.rank = Some("not a rank".to_string());
    assert!(is_superseding(None, &s));
    let mut s = blank();
    s.clear_kind = Some("FC".to_string());
    assert!(is_superseding(None, &s));
    let mut s = blank();
    s.flare_skill = Some(12);
    assert!(is_superseding(None, &s));
}

#[test]
fn flare_rank_alone_opens_no_record() {
    let mut s = blank();
    s.flare_rank = Some(9);
    assert!(!is_superseding(None, &s));
}

#[test]
fn missing_values_count_as_minus_one_and_worst() {
    assert_eq!(or_floor(None), -1);
    assert_eq!(or_floor(Some(-7)), -7);
    assert_eq!(rank_ordinal(&None), i64::MAX);
    assert_eq!(rank_ordinal(&Some("zzz".to_string())), i64::MAX);
    assert_eq!(rank_ordinal(&Some("aa".to_string())), 2);
    assert_eq!(kind_ordinal(&None), i64::MAX);
    assert_eq!(kind_ordinal(&Some("???".to_string())), i64::MAX);
    assert_eq!(kind_ordinal(&Some("no play".to_string())), 8);
}

#[test]
fn higher_score_supersedes() {
    let b = best(Some(900000), Some("AA"), Some("FC"), Some(5));
    let mut s = blank();
    s.score = Some(900001);
    assert!(is_superseding(Some(&b), &s));
    s.score = Some(900000);
    assert!(!is_superseding(Some(&b), &s));
    s.score = Some(899999);
    assert!(!is_superseding(Some(&b), &s));
}

#[test]
fn better_rank_supersedes_even_with_lower_score() {
    let b = best(Some(900000), Some("AA"), Some("FC"), Some(5));
    let mut s = blank();
    s.score = Some(1);
    s.rank = Some("AA+".to_string());
    assert!(is_superseding(Some(&b), &s));
    s.rank = Some("AA".to_string());
    assert!(!is_superseding(Some(&b), &s));
    s.rank = Some("AA-".to_string());
    assert!(!is_superseding(Some(&b), &s));
}

#[test]
fn better_kind_supersedes() {
    let b = best(Some(900000), Some("AA"), Some("FC"), Some(5));
    let mut s = blank();
    s.clear_kind = Some("GFC".to_string());
    assert!(is_superseding(Some(&b), &s));
    s.clear_kind = Some("FC".to_string());
    assert!(!is_superseding(Some(&b), &s));
    s.clear_kind = Some("Clear".to_string());
    assert!(!is_superseding(Some(&b), &s));
}

#[test]
fn higher_flare_rank_supersedes() {
    let b = best(Some(900000), Some("AA"), Some("FC"), Some(5));
    let mut s = blank();
    s.flare_rank = Some(6);
    assert!(is_superseding(Some(&b), &s));
    s.flare_rank = Some(5);
    assert!(!is_superseding(Some(&b), &s));
}

#[test]
fn flare_skill_is_not_compared() {
    let b = best(Some(900000), Some("AA"), Some("FC"), Some(5));
    let mut s = blank();
    s.flare_skill = Some(i64::MAX);
    assert!(!is_superseding(Some(&b), &s));
}

#[test]
fn any_value_beats_a_missing_one() {
    let b = best(None, None, None, None);
    let mut s = blank();
    assert!(!is_superseding(Some(&b), &s));
    s.score = Some(0);
    assert!(is_superseding(Some(&b), &s));
    let mut s = blank();
    s.rank = Some("E".to_string());
    assert!(is_superseding(Some(&b), &s));
    let mut s = blank();
    s.clear_kind = Some("No Play".to_string());
    assert!(is_superseding(Some(&b), &s));
    let mut s = blank();
    s.flare_rank = Some(0);
    assert!(is_superseding(Some(&b), &s));
}

#[test]
fn score_below_minus_one_loses_to_a_missing_score() {
    let b = best(None, None, None, None);
    let mut s = blank();
    s.score = Some(-1);
    assert!(!is_superseding(Some(&b), &s));
    s.score = Some(-2);
    assert!(!is_superseding(Some(&b), &s));
}

#[test]
fn unknown_rank_is_never_better() {
    for recorded in [Some("E"), Some("AAA"), Some("junk"), None] {
        let b = best(Some(10), recorded, Some("MFC"), Some(10));
        let mut s = blank();
        s.score = Some(10);
        s.clear_kind = Some("MFC".to_string());
        s.flare_rank = Some(10);
        s.rank = Some("SSS".to_string());
        assert!(!is_superseding(Some(&b), &s));
    }
}

#[test]
fn unknown_kind_is_never_better() {
    for recorded in [Some("No Play"), Some("MFC"), Some("junk"), None] {
        let b = best(Some(10), Some("AAA"), recorded, Some(10));
        let mut s = blank();
        s.score = Some(10);
        s.rank = Some("AAA".to_string());
        s.flare_rank = Some(10);
        s.clear_kind = Some("perfect".to_string());
        assert!(!is_superseding(Some(&b), &s));
    }
}

#[test]
fn raising_the_score_keeps_a_win() {
    let b = best(Some(500), Some("A"), Some("Clear"), Some(3));
    let mut low = blank();
    low.score = Some(400);
    low.rank = Some("AA".to_string());
    assert!(is_superseding(Some(&b), &low));
    for score in [400, 401, 500, 501, i64::MAX] {
        let mut high = low.clone();
        high.score = Some(score);
        assert!(is_superseding(Some(&b), &high));
    }
}

#[test]
fn the_same_result_twice_is_not_better() {
    let mut s = blank();
    s.score = Some(990000);
    s.rank = Some("AA".to_string());
    s.clear_kind = Some("FC".to_string());
    s.flare_rank = Some(7);
    s.flare_skill = Some(300);
    assert!(is_superseding(None, &s));
    let recorded = Best {
        id: 42,
        score: s.score,
        rank: s.rank.clone(),
        kind: s.clear_kind.clone(),
        flare: s.flare_rank,
    };
    assert!(!is_superseding(Some(&recorded), &s));
}
