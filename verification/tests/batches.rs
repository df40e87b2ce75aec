use std::collections::HashMap;

use ddr_score::batch::{
    score_batches, BIND_LIMIT, POINTER_BATCH_ROWS, POINTER_FIELDS, SCORE_BATCH_ROWS, SCORE_FIELDS,
};
use ddr_score::compare::Submission;
use ddr_score::pointers::{
    index_ids, pointer_batches, repoints, InsertedRow, PointerRow, Repoint,
};
use ddr_score::select::NewRecord;

fn entry(score: i64) -> Submission {
    Submission {
        title: "t".to_string(),
        difficulty: "Expert".to_string(),
        score: Some(score),
        rank: Some("AA".to_string()),
        clear_kind: None,
        flare_skill: Some(3),
        flare_rank: Some(2),
    }
}

fn fresh(n: usize) -> Vec<NewRecord> {
    (0..n).map(|k| NewRecord { chart_id: 1000 + k as i64, req_index: k, best_id: None }).collect()
}

#[test]
fn batch_sizes_follow_the_bind_limit() {
    assert_eq!(BIND_LIMIT, 32766);
    assert_eq!(SCORE_FIELDS, 8);
    assert_eq!(POINTER_FIELDS, 3);
    assert_eq!(SCORE_BATCH_ROWS, 4095);
    assert_eq!(POINTER_BATCH_ROWS, 10922);
    assert_eq!(SCORE_BATCH_ROWS, BIND_LIMIT / SCORE_FIELDS);
    assert_eq!(POINTER_BATCH_ROWS, BIND_LIMIT / POINTER_FIELDS);
}

#[test]
fn no_records_no_statements() {
    let out = score_batches(1, &"now".to_string(), &vec![], &vec![]);
    assert!(out.is_empty());
    let out = pointer_batches(1, &vec![], &HashMap::new()).unwrap();
    assert!(out.is_empty());
}

#[test]
fn score_rows_carry_the_submission() {
    let subs = vec![entry(5), entry(6)];
    let records = vec![NewRecord { chart_id: 77, req_index: 1, best_id: Some(3) }];
    let out = score_batches(9, &"2024-05-01T12:00:00Z".to_string(), &subs, &records);
    assert_eq!(out.len(), 1);
    assert_eq!(out[0].len(), 1);
    let row = &out[0][0];
    assert_eq!(row.user, 9);
    assert_eq!(row.chart, 77);
    assert_eq!(row.score, Some(6));
    assert_eq!(row.clear_rank, Some("AA".to_string()));
    assert_eq!(row.clear_kind, None);
    assert_eq!(row.flare_rank, Some(2));
    assert_eq!(row.flare_skill, Some(3));
    assert_eq!(row.created_at, "2024-05-01T12:00:00Z");
}

#[test]
fn a_full_batch_is_one_statement() {
    let n = SCORE_BATCH_ROWS;
    let subs: Vec<Submission> = (0..n).map(|k| entry(k as i64)).collect();
    let out = score_batches(1, &"now".to_string(), &subs, &fresh(n));
    assert_eq!(out.len(), 1);
    assert_eq!(out[0].len(), 4095);
}

#[test]
fn one_row_over_the_limit_makes_a_second_statement() {
    let n = SCORE_BATCH_ROWS + 1;
    assert!(n * SCORE_FIELDS > BIND_LIMIT);
    let subs: Vec<Submission> = (0..n).map(|k| entry(k as i64)).collect();
    let records = fresh(n);
    let out = score_batches(1, &"now".to_string(), &subs, &records);
    assert_eq!(out.len(), 2);
    assert_eq!(out[0].len(), 4095);
    assert_eq!(out[1].len(), 1);
    for batch in &out {
        assert!(batch.len() * SCORE_FIELDS <= BIND_LIMIT);
    }
    let flat: Vec<(i64, Option<i64>)> =
        out.iter().flatten().map(|r| (r.chart, r.score)).collect();
    let expected: Vec<(i64, Option<i64>)> =
        (0..n).map(|k| (1000 + k as i64, Some(k as i64))).collect();
    assert_eq!(flat, expected);
}

#[test]
fn many_rows_come_back_under_distinct_charts() {
    let n = 2 * SCORE_BATCH_ROWS + 10;
    let subs: Vec<Submission> = (0..n).map(|k| entry(k as i64)).collect();
    let out = score_batches(1, &"now".to_string(), &subs, &fresh(n));
    assert_eq!(out.len(), 3);
    let mut created = vec![];
    for batch in &out {
        for row in batch {
            created.push(InsertedRow { id: 50000 + created.len() as i64, chart: row.chart });
        }
    }
    let ids = index_ids(&created);
    assert_eq!(ids.len(), n);
    for k in 0..n {
        assert_eq!(ids.get(&(1000 + k as i64)), Some(&(50000 + k as i64)));
    }
}

#[test]
fn the_last_row_for_a_chart_is_the_one_filed() {
    let rows = vec![
        InsertedRow { id: 1, chart: 7 },
        InsertedRow { id: 2, chart: 8 },
        InsertedRow { id: 3, chart: 7 },
    ];
    let ids = index_ids(&rows);
    assert_eq!(ids.len(), 2);
    assert_eq!(ids.get(&7), Some(&3));
    assert_eq!(ids.get(&8), Some(&2));
    assert_eq!(ids.get(&9), None);
}

#[test]
fn pointers_only_for_records_without_one() {
    let records = vec![
        NewRecord { chart_id: 10, req_index: 0, best_id: None },
        NewRecord { chart_id: 11, req_index: 1, best_id: Some(500) },
        NewRecord { chart_id: 12, req_index: 2, best_id: None },
    ];
    let mut score_ids = HashMap::new();
    score_ids.insert(10, 100);
    score_ids.insert(11, 101);
    score_ids.insert(12, 102);
    let out = pointer_batches(4, &records, &score_ids).unwrap();
    assert_eq!(
        out,
        vec![vec![
            PointerRow { user: 4, chart: 10, score: 100 },
            PointerRow { user: 4, chart: 12, score: 102 },
        ]]
    );
}

#[test]
fn no_statement_where_every_record_has_a_pointer() {
    let records = vec![
        NewRecord { chart_id: 10, req_index: 0, best_id: Some(1) },
        NewRecord { chart_id: 11, req_index: 1, best_id: Some(2) },
    ];
    let out = pointer_batches(4, &records, &HashMap::new()).unwrap();
    assert!(out.is_empty());
}

#[test]
fn a_missing_history_row_is_refused() {
    let records = vec![
        NewRecord { chart_id: 10, req_index: 0, best_id: None },
        NewRecord { chart_id: 11, req_index: 1, best_id: None },
    ];
    let mut score_ids = HashMap::new();
    score_ids.insert(10, 100);
    assert_eq!(pointer_batches(4, &records, &score_ids), None);
}

#[test]
fn pointer_statements_follow_windows_of_records() {
    let n = POINTER_BATCH_ROWS + 5;
    let mut records = vec![];
    let mut score_ids = HashMap::new();
    for k in 0..n {
        let best_id = if k % 2 == 0 { None } else { Some(k as i64) };
        records.push(NewRecord { chart_id: k as i64, req_index: k, best_id });
        score_ids.insert(k as i64, 7000 + k as i64);
    }
    let out = pointer_batches(4, &records, &score_ids).unwrap();
    assert_eq!(out.len(), 2);
    assert_eq!(out[0].len(), POINTER_BATCH_ROWS / 2);
    assert_eq!(out[1].len(), 3);
    for batch in &out {
        assert!(!batch.is_empty());
        assert!(batch.len() * POINTER_FIELDS <= BIND_LIMIT);
    }
    assert_eq!(out[0][0], PointerRow { user: 4, chart: 0, score: 7000 });
    assert_eq!(out[1][0], PointerRow { user: 4, chart: 10922, score: 7000 + 10922 });
}

#[test]
fn an_empty_window_gives_no_statement() {
    let n = POINTER_BATCH_ROWS + 2;
    let mut records = vec![];
    let mut score_ids = HashMap::new();
    for k in 0..n {
        let best_id = if k < POINTER_BATCH_ROWS { Some(k as i64) } else { None };
        records.push(NewRecord { chart_id: k as i64, req_index: k, best_id });
        score_ids.insert(k as i64, k as i64);
    }
    let out = pointer_batches(4, &records, &score_ids).unwrap();
    assert_eq!(out.len(), 1);
    assert_eq!(out[0].len(), 2);
}

#[test]
fn repoints_use_old_and_new_pointers() {
    let records = vec![
        NewRecord { chart_id: 10, req_index: 0, best_id: None },
        NewRecord { chart_id: 11, req_index: 1, best_id: Some(500) },
        NewRecord { chart_id: 12, req_index: 2, best_id: None },
        NewRecord { chart_id: 13, req_index: 3, best_id: Some(501) },
    ];
    let mut score_ids = HashMap::new();
    score_ids.insert(10, 100);
    score_ids.insert(11, 101);
    score_ids.insert(12, 102);
    let mut best_ids = HashMap::new();
    best_ids.insert(10, 900);
    best_ids.insert(11, 901);
    let out = repoints(&records, &score_ids, &best_ids);
    assert_eq!(
        out,
        vec![
            Repoint { best_id: 900, score_id: 100 },
            Repoint { best_id: 500, score_id: 101 },
        ]
    );
}
