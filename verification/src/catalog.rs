//! The song and chart catalog as one request sees it: rows read once,
//! indexed by song title and by song and difficulty.

use std::collections::HashMap;
use vstd::hash_map::StringHashMap;
use vstd::prelude::*;
use vstd::std_specs::hash::*;
use crate::vocab::Difficulty;

verus! {

/// A song as stored: its identifier and its title.
#[derive(Debug, Clone)]
pub struct SongRow {
    pub id: i64,
    pub name: String,
}

/// A chart as stored: one difficulty of one song, with its level.
#[derive(Debug, Clone, Copy)]
pub struct ChartRow {
    pub id: i64,
    pub song: i64,
    pub difficulty: i64,
    pub level: i64,
}

/// What the catalog keeps of a chart.
#[derive(Debug, Clone, Copy, PartialEq, Eq, Structural)]
pub struct ChartEntry {
    pub id: i64,
    pub level: i64,
}

/// Song titles mapped to song identifiers, and pairs of a song and a
/// difficulty ordinal mapped to charts.
pub struct CatalogView {
    pub songs: Map<Seq<char>, i64>,
    pub charts: Map<(i64, int), ChartEntry>,
}

/// Whether `d` is the ordinal of one of the five difficulties.
pub open spec fn is_difficulty_ordinal(d: int) -> bool {
    0 <= d < 5
}

/// The titles of `rows` mapped to their identifiers. Where a title occurs
/// more than once, the last row with it counts.
pub open spec fn index_songs(rows: Seq<SongRow>) -> Map<Seq<char>, i64>
    decreases rows.len(),
{
    if rows.len() == 0 {
        Map::empty()
    } else {
        index_songs(rows.drop_last()).insert(rows.last().name@, rows.last().id)
    }
}

/// The charts of `rows` by song and difficulty. Rows whose difficulty is none
/// of the five are left out; of rows for the same song and difficulty the
/// last counts.
pub open spec fn index_charts(rows: Seq<ChartRow>) -> Map<(i64, int), ChartEntry>
    decreases rows.len(),
{
    if rows.len() == 0 {
        Map::empty()
    } else {
        let row = rows.last();
        let rest = index_charts(rows.drop_last());
        if is_difficulty_ordinal(row.difficulty as int) {
            rest.insert((row.song, row.difficulty as int), ChartEntry { id: row.id, level: row.level })
        } else {
            rest
        }
    }
}

/// The chart that a title and a difficulty name in a catalog, if both the
/// song and that difficulty of it are known.
pub open spec fn resolve_chart(cat: CatalogView, title: Seq<char>, dif: Difficulty) -> Option<
    ChartEntry,
> {
    if cat.songs.contains_key(title) && cat.charts.contains_key(
        (cat.songs[title], dif.spec_ordinal()),
    ) {
        Some(cat.charts[(cat.songs[title], dif.spec_ordinal())])
    } else {
        None
    }
}

/// The key under which the chart of a song and a difficulty is filed. What
/// a hash map does is known for integer keys, so the pair is folded into one
/// integer; with five difficulties no two pairs share a key.
pub open spec fn chart_key(song: i64, dif: int) -> int {
    song * 8 + dif
}

/// The catalog, indexed for lookup.
pub struct Catalog {
    songs: StringHashMap<i64>,
    charts: HashMap<i128, ChartEntry>,
}

impl View for Catalog {
    type V = CatalogView;

    closed spec fn view(&self) -> CatalogView {
        CatalogView {
            songs: self.songs@,
            charts: Map::new(
                |p: (i64, int)|
                    is_difficulty_ordinal(p.1) && self.charts@.contains_key(
                        chart_key(p.0, p.1) as i128,
                    ),
                |p: (i64, int)| self.charts@[chart_key(p.0, p.1) as i128],
            ),
        }
    }
}

impl Catalog {
    /// Indexes the rows of the song table and of the chart table.
    pub fn new(songs: &Vec<SongRow>, charts: &Vec<ChartRow>) -> (cat: Catalog)
        ensures
            cat@.songs == index_songs(songs@),
            cat@.charts == index_charts(charts@),
    {
        broadcast use group_hash_axioms;

        let mut cat = Catalog { songs: StringHashMap::new(), charts: HashMap::new() };
        assert(cat@.charts =~= index_charts(charts@.take(0)));
        assert(songs@.take(0) =~= Seq::<SongRow>::empty());
        let mut i: usize = 0;
        while i < songs.len()
            invariant
                i <= songs.len(),
                cat.songs@ == index_songs(songs@.take(i as int)),
                cat.charts@ == Map::<i128, ChartEntry>::empty(),
            decreases songs.len() - i,
        {
            cat.songs.insert(songs[i].name.clone(), songs[i].id);
            proof {
                let next = songs@.take(i + 1);
                assert(next.drop_last() =~= songs@.take(i as int));
                assert(next.last() == songs@[i as int]);
            }
            i = i + 1;
        }
        assert(songs@.take(songs.len() as int) =~= songs@);
        let mut j: usize = 0;
        while j < charts.len()
            invariant
                j <= charts.len(),
                cat@.songs == index_songs(songs@),
                cat@.charts == index_charts(charts@.take(j as int)),
                obeys_key_model::<i128>(),
                builds_valid_hashers::<std::collections::hash_map::RandomState>(),
            decreases charts.len() - j,
        {
            let row = charts[j];
            proof {
                let next = charts@.take(j + 1);
                assert(next.drop_last() =~= charts@.take(j as int));
                assert(next.last() == charts@[j as int]);
            }
            if 0 <= row.difficulty && row.difficulty < 5 {
                let key: i128 = (row.song as i128) * 8 + (row.difficulty as i128);
                let ghost before = cat@.charts;
                cat.charts.insert(key, ChartEntry { id: row.id, level: row.level });
                assert(cat@.charts =~= before.insert(
                    (row.song, row.difficulty as int),
                    ChartEntry { id: row.id, level: row.level },
                ));
            }
            j = j + 1;
        }
        assert(charts@.take(charts.len() as int) =~= charts@);
        cat
    }

    /// The identifier of the song with this title.
    pub fn song_id(&self, title: &str) -> (r: Option<i64>)
        ensures
            r == (if self@.songs.contains_key(title@) {
                Some(self@.songs[title@])
            } else {
                None
            }),
    {
        match self.songs.get(title) {
            Some(id) => Some(*id),
            None => None,
        }
    }

    /// The chart of a song at a difficulty.
    pub fn chart_of(&self, song: i64, dif: Difficulty) -> (r: Option<ChartEntry>)
        ensures
            r == (if self@.charts.contains_key((song, dif.spec_ordinal())) {
                Some(self@.charts[(song, dif.spec_ordinal())])
            } else {
                None
            }),
    {
        broadcast use group_hash_axioms;

        let key: i128 = (song as i128) * 8 + (dif.ordinal() as i128);
        match self.charts.get(&key) {
            Some(e) => Some(*e),
            None => None,
        }
    }

    /// The chart that a title and a difficulty name.
    pub fn resolve(&self, title: &str, dif: Difficulty) -> (r: Option<ChartEntry>)
        ensures
            r == resolve_chart(self@, title@, dif),
    {
        match self.song_id(title) {
            Some(song) => self.chart_of(song, dif),
            None => None,
        }
    }
}

} // verus!
