//! A player's data laid out for export: one table of the best result on
//! every chart, charts never played included, and one of the whole history
//! chart by chart. Both are written as tab-separated text and compressed.

use std::collections::HashMap;
use std::collections::HashSet;
use vstd::prelude::*;
use vstd::std_specs::hash::*;
use vstd::string::*;
use crate::normalize::texts;
use crate::text::{decimal, int_text};

verus! {

/// A chart with the title of its song.
#[derive(Debug, Clone)]
pub struct ChartInfo {
    pub id: i64,
    pub title: String,
    pub difficulty: i64,
    pub level: i64,
}

/// A player's best on a chart, with the chart it is on.
#[derive(Debug, Clone)]
pub struct BestRecord {
    pub chart: ChartInfo,
    pub score: Option<i64>,
    pub clear_rank: Option<String>,
    pub clear_kind: Option<String>,
    pub flare_rank: Option<i64>,
    pub flare_skill: Option<i64>,
}

/// A player's history on one chart. Each field lists the values of all
/// results in the order they were recorded, joined by the store.
#[derive(Debug, Clone)]
pub struct HistoryRecord {
    pub chart: i64,
    pub score: String,
    pub clear_rank: String,
    pub clear_kind: String,
    pub flare_rank: String,
    pub flare_skill: String,
    pub updated_at: String,
}

/// The text of an optional number: empty where it is missing.
pub open spec fn number_or_blank(v: Option<i64>) -> Seq<char> {
    match v {
        Some(x) => int_text(x as int),
        None => Seq::empty(),
    }
}

/// An optional text: empty where it is missing.
pub open spec fn text_or_blank(t: Option<String>) -> Seq<char> {
    match t {
        Some(s) => s@,
        None => Seq::empty(),
    }
}

/// The column names of the table of bests.
pub open spec fn bests_header() -> Seq<Seq<char>> {
    seq![
        "id"@,
        "title"@,
        "difficulty"@,
        "level"@,
        "score"@,
        "clear_rank"@,
        "clear_kind"@,
        "flare_rank"@,
        "flare_skill"@,
    ]
}

/// The column names of the table of history.
pub open spec fn history_header() -> Seq<Seq<char>> {
    bests_header().push("updated_at"@)
}

/// The four columns that say which chart a row is about.
pub open spec fn chart_columns(c: ChartInfo) -> Seq<Seq<char>> {
    seq![int_text(c.id as int), c.title@, int_text(c.difficulty as int), int_text(c.level as int)]
}

/// The row of a best.
pub open spec fn best_row(b: BestRecord) -> Seq<Seq<char>> {
    chart_columns(b.chart) + seq![
        number_or_blank(b.score),
        text_or_blank(b.clear_rank),
        text_or_blank(b.clear_kind),
        number_or_blank(b.flare_rank),
        number_or_blank(b.flare_skill),
    ]
}

/// The row of a chart that the player has no result on.
pub open spec fn locked_row(c: ChartInfo) -> Seq<Seq<char>> {
    chart_columns(c) + seq![
        Seq::<char>::empty(),
        Seq::<char>::empty(),
        "LOCKED"@,
        Seq::<char>::empty(),
        Seq::<char>::empty(),
    ]
}

/// The row of a chart's history.
pub open spec fn history_row(c: ChartInfo, h: HistoryRecord) -> Seq<Seq<char>> {
    seq![
        int_text(h.chart as int),
        c.title@,
        int_text(c.difficulty as int),
        int_text(c.level as int),
        h.score@,
        h.clear_rank@,
        h.clear_kind@,
        h.flare_rank@,
        h.flare_skill@,
        h.updated_at@,
    ]
}

/// The charts that the bests are on.
pub open spec fn played(bests: Seq<BestRecord>) -> Set<i64>
    decreases bests.len(),
{
    if bests.len() == 0 {
        Set::empty()
    } else {
        played(bests.drop_last()).insert(bests.last().chart.id)
    }
}

/// The rows of the first `n` bests.
pub open spec fn best_rows(bests: Seq<BestRecord>, n: int) -> Seq<Seq<Seq<char>>>
    decreases n,
{
    if n <= 0 {
        Seq::empty()
    } else {
        best_rows(bests, n - 1).push(best_row(bests[n - 1]))
    }
}

/// The rows for those of the first `n` charts that are not among `played`.
pub open spec fn locked_rows(played: Set<i64>, charts: Seq<ChartInfo>, n: int) -> Seq<
    Seq<Seq<char>>,
>
    decreases n,
{
    if n <= 0 {
        Seq::empty()
    } else {
        let before = locked_rows(played, charts, n - 1);
        if played.contains(charts[n - 1].id) {
            before
        } else {
            before.push(locked_row(charts[n - 1]))
        }
    }
}

/// The table of bests: the column names, a row for each best, then a row
/// for each chart of the catalog that the player has no best on.
pub open spec fn bests_table(bests: Seq<BestRecord>, charts: Seq<ChartInfo>) -> Seq<Seq<Seq<char>>> {
    seq![bests_header()] + best_rows(bests, bests.len() as int) + locked_rows(
        played(bests),
        charts,
        charts.len() as int,
    )
}

/// The charts by identifier. Where an identifier occurs more than once, the
/// last chart with it counts.
pub open spec fn chart_index(charts: Seq<ChartInfo>) -> Map<i64, ChartInfo>
    decreases charts.len(),
{
    if charts.len() == 0 {
        Map::empty()
    } else {
        chart_index(charts.drop_last()).insert(charts.last().id, charts.last())
    }
}

/// The rows for those of the first `n` histories whose chart is cataloged.
pub open spec fn history_rows(index: Map<i64, ChartInfo>, records: Seq<HistoryRecord>, n: int) -> Seq<
    Seq<Seq<char>>,
>
    decreases n,
{
    if n <= 0 {
        Seq::empty()
    } else {
        let before = history_rows(index, records, n - 1);
        let h = records[n - 1];
        if index.contains_key(h.chart) {
            before.push(history_row(index[h.chart], h))
        } else {
            before
        }
    }
}

/// The table of history: the column names, then a row for each chart that
/// has a history and is cataloged.
pub open spec fn history_table(records: Seq<HistoryRecord>, charts: Seq<ChartInfo>) -> Seq<
    Seq<Seq<char>>,
> {
    seq![history_header()] + history_rows(chart_index(charts), records, records.len() as int)
}

/// The text of each field of each row.
pub open spec fn table_text(rows: Seq<Vec<String>>) -> Seq<Seq<Seq<char>>> {
    Seq::new(rows.len(), |i: int| texts(rows[i]@))
}

/// Writes an optional number, leaving it blank where it is missing.
pub fn number_field(v: Option<i64>) -> (r: String)
    ensures
        r@ == number_or_blank(v),
{
    match v {
        Some(x) => decimal(x),
        None => String::new(),
    }
}

/// Copies an optional text, leaving it blank where it is missing.
pub fn text_field(t: &Option<String>) -> (r: String)
    ensures
        r@ == text_or_blank(*t),
{
    match t {
        Some(s) => s.clone(),
        None => String::new(),
    }
}

fn header_fields() -> (row: Vec<String>)
    ensures
        texts(row@) == bests_header(),
{
    let mut row: Vec<String> = Vec::new();
    row.push(String::from_str("id"));
    row.push(String::from_str("title"));
    row.push(String::from_str("difficulty"));
    row.push(String::from_str("level"));
    row.push(String::from_str("score"));
    row.push(String::from_str("clear_rank"));
    row.push(String::from_str("clear_kind"));
    row.push(String::from_str("flare_rank"));
    row.push(String::from_str("flare_skill"));
    assert(texts(row@) =~= bests_header());
    row
}

fn chart_fields(c: &ChartInfo) -> (row: Vec<String>)
    ensures
        texts(row@) == chart_columns(*c),
{
    let mut row: Vec<String> = Vec::new();
    row.push(decimal(c.id));
    row.push(c.title.clone());
    row.push(decimal(c.difficulty));
    row.push(decimal(c.level));
    assert(texts(row@) =~= chart_columns(*c));
    row
}

/// The fields of the row of a best.
pub fn best_fields(b: &BestRecord) -> (row: Vec<String>)
    ensures
        texts(row@) == best_row(*b),
{
    let mut row = chart_fields(&b.chart);
    row.push(number_field(b.score));
    row.push(text_field(&b.clear_rank));
    row.push(text_field(&b.clear_kind));
    row.push(number_field(b.flare_rank));
    row.push(number_field(b.flare_skill));
    assert(texts(row@) =~= best_row(*b));
    row
}

/// The fields of the row of a chart without a result.
pub fn locked_fields(c: &ChartInfo) -> (row: Vec<String>)
    ensures
        texts(row@) == locked_row(*c),
{
    let mut row = chart_fields(c);
    row.push(String::new());
    row.push(String::new());
    row.push(String::from_str("LOCKED"));
    row.push(String::new());
    row.push(String::new());
    assert(texts(row@) =~= locked_row(*c));
    row
}

/// The fields of the row of a chart's history.
pub fn history_fields(c: &ChartInfo, h: &HistoryRecord) -> (row: Vec<String>)
    ensures
        texts(row@) == history_row(*c, *h),
{
    let mut row: Vec<String> = Vec::new();
    row.push(decimal(h.chart));
    row.push(c.title.clone());
    row.push(decimal(c.difficulty));
    row.push(decimal(c.level));
    row.push(h.score.clone());
    row.push(h.clear_rank.clone());
    row.push(h.clear_kind.clone());
    row.push(h.flare_rank.clone());
    row.push(h.flare_skill.clone());
    row.push(h.updated_at.clone());
    assert(texts(row@) =~= history_row(*c, *h));
    row
}

/// Lays out the table of bests.
pub fn bests_rows(bests: &Vec<BestRecord>, charts: &Vec<ChartInfo>) -> (rows: Vec<Vec<String>>)
    ensures
        table_text(rows@) == bests_table(bests@, charts@),
{
    broadcast use group_hash_axioms;

    let mut rows: Vec<Vec<String>> = Vec::new();
    let mut unlocked: HashSet<i64> = HashSet::new();
    rows.push(header_fields());
    assert(table_text(rows@) =~= seq![bests_header()] + best_rows(bests@, 0));
    assert(bests@.take(0) =~= Seq::<BestRecord>::empty());
    let mut k: usize = 0;
    while k < bests.len()
        invariant
            k <= bests.len(),
            unlocked@ == played(bests@.take(k as int)),
            table_text(rows@) == seq![bests_header()] + best_rows(bests@, k as int),
            obeys_key_model::<i64>(),
            builds_valid_hashers::<std::collections::hash_map::RandomState>(),
        decreases bests.len() - k,
    {
        proof {
            let next = bests@.take(k + 1);
            assert(next.drop_last() =~= bests@.take(k as int));
            assert(next.last() == bests@[k as int]);
        }
        let ghost before = table_text(rows@);
        unlocked.insert(bests[k].chart.id);
        rows.push(best_fields(&bests[k]));
        assert(table_text(rows@) =~= before.push(best_row(bests@[k as int])));
        k = k + 1;
        assert(table_text(rows@) =~= seq![bests_header()] + best_rows(bests@, k as int));
    }
    assert(bests@.take(bests.len() as int) =~= bests@);
    let ghost top = table_text(rows@);
    assert(table_text(rows@) =~= top + locked_rows(played(bests@), charts@, 0));
    let mut c: usize = 0;
    while c < charts.len()
        invariant
            c <= charts.len(),
            unlocked@ == played(bests@),
            top == seq![bests_header()] + best_rows(bests@, bests.len() as int),
            table_text(rows@) == top + locked_rows(played(bests@), charts@, c as int),
            obeys_key_model::<i64>(),
            builds_valid_hashers::<std::collections::hash_map::RandomState>(),
        decreases charts.len() - c,
    {
        let ghost before = table_text(rows@);
        if !unlocked.contains(&charts[c].id) {
            rows.push(locked_fields(&charts[c]));
            assert(table_text(rows@) =~= before.push(locked_row(charts@[c as int])));
        }
        c = c + 1;
        assert(table_text(rows@) =~= top + locked_rows(played(bests@), charts@, c as int));
    }
    rows
}

/// Lays out the table of history.
pub fn history_rows_of(records: &Vec<HistoryRecord>, charts: &Vec<ChartInfo>) -> (rows: Vec<
    Vec<String>,
>)
    ensures
        table_text(rows@) == history_table(records@, charts@),
{
    broadcast use group_hash_axioms;

    let mut index: HashMap<i64, usize> = HashMap::new();
    let mut c: usize = 0;
    assert(charts@.take(0) =~= Seq::<ChartInfo>::empty());
    while c < charts.len()
        invariant
            c <= charts.len(),
            index@.dom() == chart_index(charts@.take(c as int)).dom(),
            forall|id: i64| #[trigger]
                index@.contains_key(id) ==> index@[id] < c && charts@[index@[id] as int]
                    == chart_index(charts@.take(c as int))[id],
            obeys_key_model::<i64>(),
            builds_valid_hashers::<std::collections::hash_map::RandomState>(),
        decreases charts.len() - c,
    {
        proof {
            let next = charts@.take(c + 1);
            assert(next.drop_last() =~= charts@.take(c as int));
            assert(next.last() == charts@[c as int]);
        }
        index.insert(charts[c].id, c);
        c = c + 1;
    }
    assert(charts@.take(charts.len() as int) =~= charts@);
    let mut rows: Vec<Vec<String>> = Vec::new();
    let mut head = header_fields();
    head.push(String::from_str("updated_at"));
    assert(texts(head@) =~= history_header());
    rows.push(head);
    assert(table_text(rows@) =~= seq![history_header()] + history_rows(
        chart_index(charts@),
        records@,
        0,
    ));
    let mut k: usize = 0;
    while k < records.len()
        invariant
            k <= records.len(),
            index@.dom() == chart_index(charts@).dom(),
            forall|id: i64| #[trigger]
                index@.contains_key(id) ==> index@[id] < charts.len() && charts@[index@[id] as int]
                    == chart_index(charts@)[id],
            table_text(rows@) == seq![history_header()] + history_rows(
                chart_index(charts@),
                records@,
                k as int,
            ),
            obeys_key_model::<i64>(),
            builds_valid_hashers::<std::collections::hash_map::RandomState>(),
        decreases records.len() - k,
    {
        let ghost before = table_text(rows@);
        let h = &records[k];
        match index.get(&h.chart) {
            Some(at) => {
                assert(index@.contains_key(h.chart));
                rows.push(history_fields(&charts[*at], h));
                assert(table_text(rows@) =~= before.push(
                    history_row(chart_index(charts@)[h.chart], *h),
                ));
            },
            None => {
                assert(!chart_index(charts@).dom().contains(h.chart));
            },
        }
        k = k + 1;
        assert(table_text(rows@) =~= seq![history_header()] + history_rows(
            chart_index(charts@),
            records@,
            k as int,
        ));
    }
    rows
}

} // verus!
