//! Keeping the catalog up to date: for each song handed in, whether it is
//! new, and for each of its five difficulties whether a chart is to be
//! created, its level corrected, or nothing done.

use vstd::hash_map::StringHashMap;
use vstd::prelude::*;
use crate::catalog::{Catalog, CatalogView, ChartEntry};
use crate::vocab::Difficulty;

verus! {

/// A song as an administrator hands it in: its title, the game version it
/// came with, and the level of each difficulty that has a chart.
#[derive(Debug, Clone)]
pub struct SongRequest {
    pub name: String,
    pub version: String,
    pub levels: [Option<i64>; 5],
}

/// One write to the chart table.
#[derive(Debug, Clone, Copy, PartialEq, Eq, Structural)]
pub enum ChartWrite {
    /// Set the level of an existing chart.
    Update { chart_id: i64, level: i64 },
    /// Create the chart of a song at a difficulty.
    Insert { song: i64, difficulty: i64, level: i64 },
}

/// The difficulty with ordinal `d`.
pub open spec fn difficulty_at(d: int) -> Difficulty {
    if d == 0 {
        Difficulty::Beginner
    } else if d == 1 {
        Difficulty::Basic
    } else if d == 2 {
        Difficulty::Difficult
    } else if d == 3 {
        Difficulty::Expert
    } else {
        Difficulty::Challenge
    }
}

/// The chart of a song at the difficulty with ordinal `d`, as cataloged.
pub open spec fn cataloged(cat: CatalogView, song: i64, d: int) -> Option<ChartEntry> {
    if cat.charts.contains_key((song, d)) {
        Some(cat.charts[(song, d)])
    } else {
        None
    }
}

/// What is to be written for one difficulty of a song. Nothing where the
/// song has no chart there, or where the chart is cataloged at that level
/// already; an update where its level differs; an insert where it is new.
pub open spec fn chart_write(current: Option<ChartEntry>, song: i64, d: int, level: Option<i64>) -> Option<
    ChartWrite,
> {
    match level {
        None => None,
        Some(l) => match current {
            Some(entry) => if entry.level == l {
                None
            } else {
                Some(ChartWrite::Update { chart_id: entry.id, level: l })
            },
            None => Some(ChartWrite::Insert { song, difficulty: d as i64, level: l }),
        },
    }
}

/// The writes for the first `n` difficulties of a song, easiest first.
pub open spec fn chart_writes_upto(cat: CatalogView, song: i64, levels: Seq<Option<i64>>, n: int) -> Seq<
    ChartWrite,
>
    decreases n,
{
    if n <= 0 {
        Seq::empty()
    } else {
        let before = chart_writes_upto(cat, song, levels, n - 1);
        match chart_write(cataloged(cat, song, n - 1), song, n - 1, levels[n - 1]) {
            Some(w) => before.push(w),
            None => before,
        }
    }
}

/// The difficulty with ordinal `d`.
pub fn difficulty_of(d: usize) -> (r: Difficulty)
    requires
        d < 5,
    ensures
        r == difficulty_at(d as int),
        r.spec_ordinal() == d,
{
    if d == 0 {
        Difficulty::Beginner
    } else if d == 1 {
        Difficulty::Basic
    } else if d == 2 {
        Difficulty::Difficult
    } else if d == 3 {
        Difficulty::Expert
    } else {
        Difficulty::Challenge
    }
}

/// The identifier of a song that the catalog knows by this title; `None`
/// says that the song is to be inserted.
pub fn known_song(cat: &Catalog, song: &SongRequest) -> (r: Option<i64>)
    ensures
        r == (if cat@.songs.contains_key(song.name@) {
            Some(cat@.songs[song.name@])
        } else {
            None
        }),
{
    cat.song_id(song.name.as_str())
}

/// The writes that bring the charts of one song up to date. `song` is the
/// song's identifier, cataloged or just created.
pub fn chart_writes(cat: &Catalog, song: i64, levels: &[Option<i64>; 5]) -> (out: Vec<ChartWrite>)
    ensures
        out@ == chart_writes_upto(cat@, song, levels@, 5),
        out.len() <= 5,
{
    let mut out: Vec<ChartWrite> = Vec::new();
    let mut d: usize = 0;
    while d < 5
        invariant
            d <= 5,
            out.len() <= d,
            out@ == chart_writes_upto(cat@, song, levels@, d as int),
        decreases 5 - d,
    {
        match levels[d] {
            None => {},
            Some(level) => match cat.chart_of(song, difficulty_of(d)) {
                Some(entry) => {
                    if entry.level != level {
                        out.push(ChartWrite::Update { chart_id: entry.id, level });
                    }
                },
                None => {
                    out.push(ChartWrite::Insert { song, difficulty: d as i64, level });
                },
            },
        }
        d = d + 1;
    }
    out
}

/// How much a catalog update has written so far.
#[derive(Debug, Clone, Copy, PartialEq, Eq, Structural)]
pub struct Counts {
    pub inserted_songs: usize,
    pub inserted_charts: usize,
    pub updated_charts: usize,
}

/// How many of the writes create a chart.
pub open spec fn inserts_in(writes: Seq<ChartWrite>) -> int
    decreases writes.len(),
{
    if writes.len() == 0 {
        0
    } else {
        inserts_in(writes.drop_last()) + (if writes.last() is Insert {
            1int
        } else {
            0int
        })
    }
}

/// How many of the writes correct a level.
pub open spec fn updates_in(writes: Seq<ChartWrite>) -> int {
    writes.len() - inserts_in(writes)
}

/// Every write is counted once: as an insert or as an update.
pub proof fn law_writes_counted_once(writes: Seq<ChartWrite>)
    ensures
        0 <= inserts_in(writes) <= writes.len(),
        0 <= updates_in(writes) <= writes.len(),
        inserts_in(writes) + updates_in(writes) == writes.len(),
    decreases writes.len(),
{
    if writes.len() > 0 {
        law_writes_counted_once(writes.drop_last());
    }
}

impl Counts {
    /// Nothing written yet.
    pub fn new() -> (c: Counts)
        ensures
            c == (Counts { inserted_songs: 0, inserted_charts: 0, updated_charts: 0 }),
    {
        Counts { inserted_songs: 0, inserted_charts: 0, updated_charts: 0 }
    }

    /// The counts after one more song: one more inserted song where it was
    /// new, and its writes added by kind.
    pub open spec fn after(self, new_song: bool, writes: Seq<ChartWrite>) -> (int, int, int) {
        (
            self.inserted_songs + (if new_song {
                1int
            } else {
                0int
            }),
            self.inserted_charts + inserts_in(writes),
            self.updated_charts + updates_in(writes),
        )
    }

    /// Adds the writes of one song to the counts. `None` where a count would
    /// no longer fit.
    pub fn record(self, new_song: bool, writes: &Vec<ChartWrite>) -> (r: Option<Counts>)
        ensures
            match r {
                Some(c) => (c.inserted_songs as int, c.inserted_charts as int, c.updated_charts as int)
                    == self.after(new_song, writes@),
                None => self.after(new_song, writes@).0 > usize::MAX || self.after(
                    new_song,
                    writes@,
                ).1 > usize::MAX || self.after(new_song, writes@).2 > usize::MAX,
            },
    {
        let mut inserts: usize = 0;
        let mut k: usize = 0;
        assert(writes@.take(0) =~= Seq::<ChartWrite>::empty());
        while k < writes.len()
            invariant
                k <= writes.len(),
                inserts == inserts_in(writes@.take(k as int)),
                inserts <= k,
            decreases writes.len() - k,
        {
            assert(writes@.take(k + 1).drop_last() =~= writes@.take(k as int));
            match writes[k] {
                ChartWrite::Insert { .. } => {
                    inserts = inserts + 1;
                },
                ChartWrite::Update { .. } => {},
            }
            k = k + 1;
        }
        assert(writes@.take(writes.len() as int) =~= writes@);
        let updates: usize = writes.len() - inserts;
        let songs = if new_song {
            self.inserted_songs.checked_add(1)
        } else {
            Some(self.inserted_songs)
        };
        match (
            songs,
            self.inserted_charts.checked_add(inserts),
            self.updated_charts.checked_add(updates),
        ) {
            (Some(s), Some(i), Some(u)) => Some(
                Counts { inserted_songs: s, inserted_charts: i, updated_charts: u },
            ),
            _ => None,
        }
    }
}

/// No title is handed in twice.
pub open spec fn titles_distinct(songs: Seq<SongRequest>) -> bool {
    forall|i: int, j: int|
        0 <= i < j < songs.len() ==> (#[trigger] songs[i]).name@ != (#[trigger] songs[j]).name@
}

/// Looks for a title that is handed in twice. Gives the place of the first
/// song whose title an earlier song has too, and before it the place of
/// that earlier song; `None` where no title repeats. Each song is decided
/// against the catalog as it stood when the update began, so a new title
/// handed in twice is inserted twice; the caller may want to make it known.
pub fn repeated_title(songs: &Vec<SongRequest>) -> (r: Option<(usize, usize)>)
    ensures
        match r {
            Some((i, j)) => i < j < songs.len() && songs[i as int].name@ == songs[j as int].name@
                && titles_distinct(songs@.take(j as int)),
            None => titles_distinct(songs@),
        },
{
    let mut seen: StringHashMap<usize> = StringHashMap::new();
    let mut k: usize = 0;
    while k < songs.len()
        invariant
            k <= songs.len(),
            forall|t: Seq<char>| #[trigger]
                seen@.contains_key(t) ==> seen@[t] < k && songs[seen@[t] as int].name@ == t,
            forall|i: int| 0 <= i < k ==> seen@.contains_key((#[trigger] songs[i]).name@),
            forall|i: int, j: int|
                0 <= i < j < k ==> (#[trigger] songs[i]).name@ != (#[trigger] songs[j]).name@,
        decreases songs.len() - k,
    {
        match seen.get(songs[k].name.as_str()) {
            Some(at) => {
                assert(titles_distinct(songs@.take(k as int)));
                return Some((*at, k));
            },
            None => {},
        }
        seen.insert(songs[k].name.clone(), k);
        k = k + 1;
    }
    None
}

} // verus!
