use ddr_score::catalog::{Catalog, ChartRow, SongRow};
use ddr_score::songs::{
    chart_writes, difficulty_of, known_song, repeated_title, ChartWrite, Counts, SongRequest,
};
use ddr_score::vocab::Difficulty;

fn cat() -> Catalog {
    let songs = vec![SongRow { id: 1, name: "Song A".to_string() }];
    let charts = vec![
        ChartRow { id: 10, song: 1, difficulty: 0, level: 3 },
        ChartRow { id: 11, song: 1, difficulty: 3, level: 15 },
        ChartRow { id: 12, song: 1, difficulty: 4, level: 18 },
    ];
    Catalog::new(&songs, &charts)
}

fn request(name: &str, levels: [Option<i64>; 5]) -> SongRequest {
    SongRequest { name: name.to_string(), version: "A3".to_string(), levels }
}

#[test]
fn difficulties_by_ordinal() {
    assert_eq!(difficulty_of(0), Difficulty::Beginner);
    assert_eq!(difficulty_of(1), Difficulty::Basic);
    assert_eq!(difficulty_of(2), Difficulty::Difficult);
    assert_eq!(difficulty_of(3), Difficulty::Expert);
    assert_eq!(difficulty_of(4), Difficulty::Challenge);
}

#[test]
fn a_song_is_known_by_its_title() {
    let c = cat();
    assert_eq!(known_song(&c, &request("Song A", [None; 5])), Some(1));
    assert_eq!(known_song(&c, &request("Song B", [None; 5])), None);
}

#[test]
fn charts_are_inserted_updated_or_left() {
    let c = cat();
    let writes = chart_writes(&c, 1, &[Some(3), Some(6), None, Some(16), None]);
    assert_eq!(
        writes,
        vec![
            ChartWrite::Insert { song: 1, difficulty: 1, level: 6 },
            ChartWrite::Update { chart_id: 11, level: 16 },
        ]
    );
}

#[test]
fn a_new_song_gets_all_its_charts() {
    let c = cat();
    let writes = chart_writes(&c, 2, &[Some(1), Some(2), Some(3), Some(4), Some(5)]);
    assert_eq!(
        writes,
        vec![
            ChartWrite::Insert { song: 2, difficulty: 0, level: 1 },
            ChartWrite::Insert { song: 2, difficulty: 1, level: 2 },
            ChartWrite::Insert { song: 2, difficulty: 2, level: 3 },
            ChartWrite::Insert { song: 2, difficulty: 3, level: 4 },
            ChartWrite::Insert { song: 2, difficulty: 4, level: 5 },
        ]
    );
}

#[test]
fn nothing_to_write_for_an_unchanged_song() {
    let c = cat();
    assert!(chart_writes(&c, 1, &[Some(3), None, None, Some(15), Some(18)]).is_empty());
    assert!(chart_writes(&c, 1, &[None; 5]).is_empty());
}

#[test]
fn counts_add_up() {
    let counts = Counts::new();
    assert_eq!(counts, Counts { inserted_songs: 0, inserted_charts: 0, updated_charts: 0 });
    let writes = vec![
        ChartWrite::Insert { song: 1, difficulty: 1, level: 6 },
        ChartWrite::Update { chart_id: 11, level: 16 },
        ChartWrite::Insert { song: 1, difficulty: 2, level: 9 },
    ];
    let counts = counts.record(true, &writes).unwrap();
    assert_eq!(counts, Counts { inserted_songs: 1, inserted_charts: 2, updated_charts: 1 });
    let counts = counts.record(false, &vec![ChartWrite::Update { chart_id: 1, level: 1 }]).unwrap();
    assert_eq!(counts, Counts { inserted_songs: 1, inserted_charts: 2, updated_charts: 2 });
    let counts = counts.record(false, &vec![]).unwrap();
    assert_eq!(counts, Counts { inserted_songs: 1, inserted_charts: 2, updated_charts: 2 });
}

#[test]
fn counts_that_no_longer_fit() {
    let full = Counts { inserted_songs: usize::MAX, inserted_charts: 0, updated_charts: 0 };
    assert_eq!(full.record(true, &vec![]), None);
    assert_eq!(full.record(false, &vec![]), Some(full));
    let full = Counts { inserted_songs: 0, inserted_charts: usize::MAX, updated_charts: 0 };
    assert_eq!(full.record(false, &vec![ChartWrite::Insert { song: 1, difficulty: 0, level: 1 }]), None);
    let full = Counts { inserted_songs: 0, inserted_charts: 0, updated_charts: usize::MAX };
    assert_eq!(full.record(false, &vec![ChartWrite::Update { chart_id: 1, level: 1 }]), None);
}

#[test]
fn a_title_handed_in_twice_is_found() {
    let songs = vec![
        request("Song A", [None; 5]),
        request("Song B", [None; 5]),
        request("song a", [None; 5]),
        request("Song B", [Some(1); 5]),
        request("Song A", [None; 5]),
    ];
    assert_eq!(repeated_title(&songs), Some((1, 3)));
    assert_eq!(repeated_title(&songs[..3].to_vec()), None);
    assert_eq!(repeated_title(&vec![]), None);
}
