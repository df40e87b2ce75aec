use std::io::Read;

use ddr_score::encode::{
    bests_archive, bests_key, compress, history_archive, history_key, join_line, write_table,
    COMPRESSION_LEVEL, DELIMITER,
};
use ddr_score::export::{
    best_fields, bests_rows, history_fields, history_rows_of, locked_fields, number_field,
    text_field, BestRecord, ChartInfo, HistoryRecord,
};
use ddr_score::text::{decimal, matches_upper, to_upper};

fn chart(id: i64, title: &str, difficulty: i64, level: i64) -> ChartInfo {
    ChartInfo { id, title: title.to_string(), difficulty, level }
}

fn best_on(c: ChartInfo) -> BestRecord {
    BestRecord {
        chart: c,
        score: Some(990000),
        clear_rank: Some("AA".to_string()),
        clear_kind: None,
        flare_rank: None,
        flare_skill: Some(-4),
    }
}

fn history(chart: i64) -> HistoryRecord {
    HistoryRecord {
        chart,
        score: "1,2".to_string(),
        clear_rank: "A,AA".to_string(),
        clear_kind: ",FC".to_string(),
        flare_rank: ",".to_string(),
        flare_skill: "3,".to_string(),
        updated_at: "2024-05-01T12:00:00Z,2024-05-02T12:00:00Z".to_string(),
    }
}

fn strings(words: &[&str]) -> Vec<String> {
    words.iter().map(|w| w.to_string()).collect()
}

fn gunzip(bytes: &[u8]) -> String {
    let mut out = String::new();
    flate2::read::GzDecoder::new(bytes).read_to_string(&mut out).unwrap();
    out
}

#[test]
fn numbers_in_decimal() {
    assert_eq!(decimal(0), "0");
    assert_eq!(decimal(7), "7");
    assert_eq!(decimal(10), "10");
    assert_eq!(decimal(990000), "990000");
    assert_eq!(decimal(1234567890), "1234567890");
    assert_eq!(decimal(-1), "-1");
    assert_eq!(decimal(-105), "-105");
    assert_eq!(decimal(i64::MAX), "9223372036854775807");
    assert_eq!(decimal(i64::MIN), "-9223372036854775808");
    for n in [-1000, -11, -10, -9, 9, 11, 99, 100, 101, 4095, 32766] {
        assert_eq!(decimal(n), format!("{}", n));
    }
}

#[test]
fn folding_to_upper_case() {
    assert_eq!(to_upper('a'), 'A');
    assert_eq!(to_upper('z'), 'Z');
    assert_eq!(to_upper('A'), 'A');
    assert_eq!(to_upper('4'), '4');
    assert_eq!(to_upper('+'), '+');
    assert_eq!(to_upper('`'), '`');
    assert_eq!(to_upper('{'), '{');
    assert_eq!(to_upper('é'), 'é');
    assert!(matches_upper("life4", "LIFE4"));
    assert!(matches_upper("No Play", "NO PLAY"));
    assert!(!matches_upper("NO PLAY", "no play"));
    assert!(!matches_upper("life", "LIFE4"));
    assert!(matches_upper("", ""));
}

#[test]
fn blank_fields() {
    assert_eq!(number_field(None), "");
    assert_eq!(number_field(Some(-3)), "-3");
    assert_eq!(text_field(&None), "");
    assert_eq!(text_field(&Some("AA".to_string())), "AA");
}

#[test]
fn rows_of_each_kind() {
    let c = chart(10, "Song A", 3, 15);
    assert_eq!(
        best_fields(&best_on(c.clone())),
        strings(&["10", "Song A", "3", "15", "990000", "AA", "", "", "-4"])
    );
    assert_eq!(
        locked_fields(&c),
        strings(&["10", "Song A", "3", "15", "", "", "LOCKED", "", ""])
    );
    assert_eq!(
        history_fields(&c, &history(10)),
        strings(&[
            "10",
            "Song A",
            "3",
            "15",
            "1,2",
            "A,AA",
            ",FC",
            ",",
            "3,",
            "2024-05-01T12:00:00Z,2024-05-02T12:00:00Z",
        ])
    );
}

#[test]
fn the_table_of_bests() {
    let charts = vec![chart(10, "Song A", 3, 15), chart(11, "Song A", 4, 18), chart(20, "Song B", 0, 2)];
    let bests = vec![best_on(charts[1].clone())];
    let rows = bests_rows(&bests, &charts);
    assert_eq!(
        rows,
        vec![
            strings(&[
                "id",
                "title",
                "difficulty",
                "level",
                "score",
                "clear_rank",
                "clear_kind",
                "flare_rank",
                "flare_skill",
            ]),
            strings(&["11", "Song A", "4", "18", "990000", "AA", "", "", "-4"]),
            strings(&["10", "Song A", "3", "15", "", "", "LOCKED", "", ""]),
            strings(&["20", "Song B", "0", "2", "", "", "LOCKED", "", ""]),
        ]
    );
}

#[test]
fn the_table_of_bests_with_nothing_in_it() {
    let rows = bests_rows(&vec![], &vec![]);
    assert_eq!(rows.len(), 1);
    assert_eq!(rows[0].len(), 9);
}

#[test]
fn the_table_of_history() {
    let charts = vec![chart(10, "Song A", 3, 15), chart(20, "Song B", 0, 2)];
    let records = vec![history(20), history(77), history(10)];
    let rows = history_rows_of(&records, &charts);
    assert_eq!(rows.len(), 3);
    assert_eq!(
        rows[0],
        strings(&[
            "id",
            "title",
            "difficulty",
            "level",
            "score",
            "clear_rank",
            "clear_kind",
            "flare_rank",
            "flare_skill",
            "updated_at",
        ])
    );
    assert_eq!(&rows[1][..4], &strings(&["20", "Song B", "0", "2"])[..]);
    assert_eq!(&rows[2][..4], &strings(&["10", "Song A", "3", "15"])[..]);
    assert_eq!(rows[2][9], "2024-05-01T12:00:00Z,2024-05-02T12:00:00Z");
}

#[test]
fn rows_become_tab_separated_lines() {
    assert_eq!(DELIMITER, b'\t');
    let rows = vec![strings(&["id", "title"]), strings(&["10", "Song A"]), strings(&["11", ""])];
    let text = write_table(&rows).unwrap();
    assert_eq!(String::from_utf8(text).unwrap(), "id\ttitle\n10\tSong A\n11\t\n");
}

#[test]
fn fields_are_quoted_where_they_must_be() {
    let rows = vec![strings(&["a\tb", "say \"hi\"", "two\nlines", "1,2"])];
    let text = write_table(&rows).unwrap();
    assert_eq!(
        String::from_utf8(text).unwrap(),
        "\"a\tb\"\t\"say \"\"hi\"\"\"\t\"two\nlines\"\t1,2\n"
    );
}

#[test]
fn no_rows_no_text() {
    assert_eq!(write_table(&vec![]), Some(vec![]));
}

#[test]
fn lines_join_in_order() {
    assert_eq!(join_line(Some(vec![1, 2]), Some(vec![3])), Some(vec![1, 2, 3]));
    assert_eq!(join_line(Some(vec![]), Some(vec![])), Some(vec![]));
    assert_eq!(join_line(None, Some(vec![3])), None);
    assert_eq!(join_line(Some(vec![1]), None), None);
}

#[test]
fn compression_round_trips() {
    assert_eq!(COMPRESSION_LEVEL, 6);
    let text = b"id\ttitle\n10\tSong A\n".to_vec();
    let packed = compress(Some(text.clone())).unwrap();
    assert_ne!(packed, text);
    assert_eq!(&packed[..3], &[0x1f, 0x8b, 8]);
    assert_eq!(gunzip(&packed), "id\ttitle\n10\tSong A\n");
    assert_eq!(compress(None), None);
    assert_eq!(compress(Some(text.clone())), Some(packed));
}

#[test]
fn archives_hold_the_tables() {
    let charts = vec![chart(10, "Song A", 3, 15), chart(11, "Song A", 4, 18)];
    let bests = vec![best_on(charts[0].clone())];
    let packed = bests_archive(&bests, &charts).unwrap();
    assert_eq!(
        gunzip(&packed),
        "id\ttitle\tdifficulty\tlevel\tscore\tclear_rank\tclear_kind\tflare_rank\tflare_skill\n\
         10\tSong A\t3\t15\t990000\tAA\t\t\t-4\n\
         11\tSong A\t4\t18\t\t\tLOCKED\t\t\n"
    );
    let packed = history_archive(&vec![history(11)], &charts).unwrap();
    assert_eq!(
        gunzip(&packed),
        "id\ttitle\tdifficulty\tlevel\tscore\tclear_rank\tclear_kind\tflare_rank\tflare_skill\tupdated_at\n\
         11\tSong A\t4\t18\t1,2\tA,AA\t,FC\t,\t3,\t2024-05-01T12:00:00Z,2024-05-02T12:00:00Z\n"
    );
}

#[test]
fn object_keys() {
    assert_eq!(bests_key("bob"), "scores/bob/data/bests.tsv.gz");
    assert_eq!(history_key("bob"), "scores/bob/data/scores.tsv.gz");
    assert_eq!(bests_key(""), "scores//data/bests.tsv.gz");
}
