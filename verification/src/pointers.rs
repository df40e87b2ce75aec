//! Best pointers: filing the identifiers that the store hands back, the rows
//! for players who had no pointer on a chart, and the final repointing of
//! every winner's pointer at its new history row.

use std::collections::HashMap;
use vstd::prelude::*;
use vstd::std_specs::hash::*;
use crate::batch::{batch_count, batch_end, batch_start, rows_of, POINTER_BATCH_ROWS};
use crate::select::{charts_distinct, NewRecord};

verus! {

/// A row that the store created: its new identifier and the chart it is for.
#[derive(Debug, Clone, Copy, PartialEq, Eq, Structural)]
pub struct InsertedRow {
    pub id: i64,
    pub chart: i64,
}

/// Charts mapped to the identifiers created for them. Where a chart occurs
/// more than once, the last row for it counts.
pub open spec fn id_index(rows: Seq<InsertedRow>) -> Map<i64, i64>
    decreases rows.len(),
{
    if rows.len() == 0 {
        Map::empty()
    } else {
        id_index(rows.drop_last()).insert(rows.last().chart, rows.last().id)
    }
}

/// Files created rows by chart.
pub fn index_ids(rows: &Vec<InsertedRow>) -> (ids: HashMap<i64, i64>)
    ensures
        ids@ == id_index(rows@),
{
    broadcast use group_hash_axioms;

    let mut ids: HashMap<i64, i64> = HashMap::new();
    let mut k: usize = 0;
    assert(rows@.take(0) =~= Seq::<InsertedRow>::empty());
    while k < rows.len()
        invariant
            k <= rows.len(),
            ids@ == id_index(rows@.take(k as int)),
            obeys_key_model::<i64>(),
            builds_valid_hashers::<std::collections::hash_map::RandomState>(),
        decreases rows.len() - k,
    {
        proof {
            let next = rows@.take(k + 1);
            assert(next.drop_last() =~= rows@.take(k as int));
            assert(next.last() == rows@[k as int]);
        }
        ids.insert(rows[k].chart, rows[k].id);
        k = k + 1;
    }
    assert(rows@.take(rows.len() as int) =~= rows@);
    ids
}

/// A new best pointer as it is bound to the insert statement.
#[derive(Debug, Clone, Copy, PartialEq, Eq, Structural)]
pub struct PointerRow {
    pub user: i64,
    pub chart: i64,
    pub score: i64,
}

/// Every record that needs a new pointer has a history row to point at.
pub open spec fn ids_cover(records: Seq<NewRecord>, score_ids: Map<i64, i64>) -> bool {
    forall|k: int|
        0 <= k < records.len() && (#[trigger] records[k]).best_id is None
            ==> score_ids.contains_key(records[k].chart_id)
}

/// The new pointers for the records from `lo` up to `hi`: one for each
/// record without a pointer, aimed at the history row of its chart.
pub open spec fn pointer_rows(
    user: i64,
    records: Seq<NewRecord>,
    score_ids: Map<i64, i64>,
    lo: int,
    hi: int,
) -> Seq<PointerRow>
    decreases hi - lo,
{
    if hi <= lo {
        Seq::empty()
    } else {
        let before = pointer_rows(user, records, score_ids, lo, hi - 1);
        let r = records[hi - 1];
        if r.best_id is None {
            before.push(PointerRow { user, chart: r.chart_id, score: score_ids[r.chart_id] })
        } else {
            before
        }
    }
}

/// The insert statements for the first `w` windows of
/// [`POINTER_BATCH_ROWS`] records: each window gives the new pointers of its
/// records, and a window that needs none gives no statement.
pub open spec fn pointer_batches_upto(
    user: i64,
    records: Seq<NewRecord>,
    score_ids: Map<i64, i64>,
    w: int,
) -> Seq<Seq<PointerRow>>
    decreases w,
{
    if w <= 0 {
        Seq::empty()
    } else {
        let before = pointer_batches_upto(user, records, score_ids, w - 1);
        let rows = pointer_rows(
            user,
            records,
            score_ids,
            batch_start(w - 1, POINTER_BATCH_ROWS as int),
            batch_end(records.len() as int, w - 1, POINTER_BATCH_ROWS as int),
        );
        if rows.len() == 0 {
            before
        } else {
            before.push(rows)
        }
    }
}

/// All insert statements for the new pointers of a request.
pub open spec fn pointer_batches_of(
    user: i64,
    records: Seq<NewRecord>,
    score_ids: Map<i64, i64>,
) -> Seq<Seq<PointerRow>> {
    pointer_batches_upto(
        user,
        records,
        score_ids,
        batch_count(records.len() as int, POINTER_BATCH_ROWS as int),
    )
}

/// The new pointers of a request, cut into insert statements. `None` where a
/// record that needs a pointer has no history row in `score_ids`.
pub fn pointer_batches(user: i64, records: &Vec<NewRecord>, score_ids: &HashMap<i64, i64>) -> (r:
    Option<Vec<Vec<PointerRow>>>)
    ensures
        ids_cover(records@, score_ids@) ==> (r matches Some(out) && rows_of(out@)
            == pointer_batches_of(user, records@, score_ids@)),
        !ids_cover(records@, score_ids@) ==> r is None,
{
    broadcast use group_hash_axioms;

    let n = records.len();
    let mut out: Vec<Vec<PointerRow>> = Vec::new();
    let mut w: usize = 0;
    let mut start: usize = 0;
    assert(rows_of(out@) =~= pointer_batches_upto(user, records@, score_ids@, 0));
    while start < n
        invariant
            n == records.len(),
            start == w * POINTER_BATCH_ROWS || (start == n && w == batch_count(
                n as int,
                POINTER_BATCH_ROWS as int,
            )),
            w <= batch_count(n as int, POINTER_BATCH_ROWS as int),
            start < n ==> w < batch_count(n as int, POINTER_BATCH_ROWS as int),
            start <= n,
            rows_of(out@) == pointer_batches_upto(user, records@, score_ids@, w as int),
            forall|k: int|
                0 <= k < start && (#[trigger] records[k]).best_id is None
                    ==> score_ids@.contains_key(records[k].chart_id),
            obeys_key_model::<i64>(),
            builds_valid_hashers::<std::collections::hash_map::RandomState>(),
        decreases n - start,
    {
        let end: usize = if n - start > POINTER_BATCH_ROWS {
            start + POINTER_BATCH_ROWS
        } else {
            n
        };
        assert(end == batch_end(n as int, w as int, POINTER_BATCH_ROWS as int));
        let mut cur: Vec<PointerRow> = Vec::new();
        let mut k: usize = start;
        while k < end
            invariant
                start <= k <= end <= n,
                n == records.len(),
                cur@ == pointer_rows(user, records@, score_ids@, start as int, k as int),
                forall|j: int|
                    0 <= j < k && (#[trigger] records[j]).best_id is None
                        ==> score_ids@.contains_key(records[j].chart_id),
                obeys_key_model::<i64>(),
                builds_valid_hashers::<std::collections::hash_map::RandomState>(),
            decreases end - k,
        {
            let r = records[k];
            if r.best_id.is_none() {
                match score_ids.get(&r.chart_id) {
                    Some(score) => {
                        cur.push(PointerRow { user, chart: r.chart_id, score: *score });
                    },
                    None => {
                        return None;
                    },
                }
            }
            k = k + 1;
        }
        let ghost before = rows_of(out@);
        if cur.len() > 0 {
            out.push(cur);
            assert(rows_of(out@) =~= before.push(cur@));
        }
        start = end;
        w = w + 1;
    }
    Some(out)
}

/// One pointer to aim at one history row.
#[derive(Debug, Clone, Copy, PartialEq, Eq, Structural)]
pub struct Repoint {
    pub best_id: i64,
    pub score_id: i64,
}

/// The pointer of a record: the one the player had, else the one created
/// for the record's chart.
pub open spec fn pointer_of(r: NewRecord, best_ids: Map<i64, i64>) -> Option<i64> {
    match r.best_id {
        Some(id) => Some(id),
        None => if best_ids.contains_key(r.chart_id) {
            Some(best_ids[r.chart_id])
        } else {
            None
        },
    }
}

/// The repointing that a record asks for, where both its pointer and the
/// history row of its chart are known.
pub open spec fn repoint_of(r: NewRecord, score_ids: Map<i64, i64>, best_ids: Map<i64, i64>) -> Option<
    Repoint,
> {
    match pointer_of(r, best_ids) {
        Some(best_id) => if score_ids.contains_key(r.chart_id) {
            Some(Repoint { best_id, score_id: score_ids[r.chart_id] })
        } else {
            None
        },
        None => None,
    }
}

/// The repointings for the first `n` records, in their order.
pub open spec fn repoints_upto(
    records: Seq<NewRecord>,
    score_ids: Map<i64, i64>,
    best_ids: Map<i64, i64>,
    n: int,
) -> Seq<Repoint>
    decreases n,
{
    if n <= 0 {
        Seq::empty()
    } else {
        let before = repoints_upto(records, score_ids, best_ids, n - 1);
        match repoint_of(records[n - 1], score_ids, best_ids) {
            Some(p) => before.push(p),
            None => before,
        }
    }
}

/// The repointings of a request: each record's pointer is aimed at the
/// history row created for the record's chart. A record whose pointer or
/// history row is unknown is passed over.
pub fn repoints(
    records: &Vec<NewRecord>,
    score_ids: &HashMap<i64, i64>,
    best_ids: &HashMap<i64, i64>,
) -> (out: Vec<Repoint>)
    ensures
        out@ == repoints_upto(records@, score_ids@, best_ids@, records.len() as int),
{
    broadcast use group_hash_axioms;

    let mut out: Vec<Repoint> = Vec::new();
    let mut k: usize = 0;
    while k < records.len()
        invariant
            k <= records.len(),
            out@ == repoints_upto(records@, score_ids@, best_ids@, k as int),
            obeys_key_model::<i64>(),
            builds_valid_hashers::<std::collections::hash_map::RandomState>(),
        decreases records.len() - k,
    {
        let r = records[k];
        let pointer: Option<i64> = match r.best_id {
            Some(id) => Some(id),
            None => match best_ids.get(&r.chart_id) {
                Some(id) => Some(*id),
                None => None,
            },
        };
        match pointer {
            Some(best_id) => match score_ids.get(&r.chart_id) {
                Some(score_id) => {
                    out.push(Repoint { best_id, score_id: *score_id });
                },
                None => {},
            },
            None => {},
        }
        k = k + 1;
    }
    out
}

/// No chart occurs in two rows.
pub open spec fn distinct_charts(rows: Seq<InsertedRow>) -> bool {
    forall|i: int, j: int|
        0 <= i < j < rows.len() ==> (#[trigger] rows[i]).chart != (#[trigger] rows[j]).chart
}

/// The index holds the charts of the rows and no others, and there are
/// finitely many of them.
pub proof fn law_index_keys(rows: Seq<InsertedRow>)
    ensures
        id_index(rows).dom().finite(),
        id_index(rows).dom().len() <= rows.len(),
        forall|k: int| 0 <= k < rows.len() ==> id_index(rows).contains_key((#[trigger] rows[k]).chart),
        forall|c: i64|
            #[trigger] id_index(rows).contains_key(c) ==> exists|k: int|
                0 <= k < rows.len() && (#[trigger] rows[k]).chart == c,
    decreases rows.len(),
{
    if rows.len() > 0 {
        let front = rows.drop_last();
        law_index_keys(front);
        assert forall|k: int| 0 <= k < rows.len() implies id_index(rows).contains_key(
            (#[trigger] rows[k]).chart,
        ) by {
            if k < rows.len() - 1 {
                assert(front[k] == rows[k]);
            }
        }
        assert forall|c: i64| #[trigger] id_index(rows).contains_key(c) implies exists|k: int|
            0 <= k < rows.len() && (#[trigger] rows[k]).chart == c by {
            if c == rows.last().chart {
                assert(rows[rows.len() - 1].chart == c);
            } else {
                assert(id_index(front).contains_key(c));
                let k = choose|k: int| 0 <= k < front.len() && (#[trigger] front[k]).chart == c;
                assert(rows[k].chart == c);
            }
        }
    }
}

/// Of several rows for one chart the last decides: a row after which its
/// chart does not occur again is the one the index gives for that chart.
pub proof fn law_index_last_wins(rows: Seq<InsertedRow>, k: int)
    requires
        0 <= k < rows.len(),
        forall|j: int| k < j < rows.len() ==> (#[trigger] rows[j]).chart != rows[k].chart,
    ensures
        id_index(rows).contains_key(rows[k].chart),
        id_index(rows)[rows[k].chart] == rows[k].id,
    decreases rows.len(),
{
    if k < rows.len() - 1 {
        let front = rows.drop_last();
        assert(front[k] == rows[k]);
        assert forall|j: int| k < j < front.len() implies (#[trigger] front[j]).chart
            != front[k].chart by {
            assert(front[j] == rows[j]);
        }
        law_index_last_wins(front, k);
        assert(rows[rows.len() - 1].chart != rows[k].chart);
    }
}

/// Rows for distinct charts are all found again: the index has exactly as
/// many entries as there are rows, one under each row's chart and holding
/// that row's identifier.
pub proof fn law_index_of_distinct_charts(rows: Seq<InsertedRow>)
    requires
        distinct_charts(rows),
    ensures
        id_index(rows).dom().finite(),
        id_index(rows).dom().len() == rows.len(),
        forall|k: int|
            0 <= k < rows.len() ==> id_index(rows).contains_key((#[trigger] rows[k]).chart)
                && id_index(rows)[rows[k].chart] == rows[k].id,
    decreases rows.len(),
{
    law_index_keys(rows);
    assert forall|k: int| 0 <= k < rows.len() implies id_index(rows).contains_key(
        (#[trigger] rows[k]).chart,
    ) && id_index(rows)[rows[k].chart] == rows[k].id by {
        law_index_last_wins(rows, k);
    }
    if rows.len() > 0 {
        let front = rows.drop_last();
        assert forall|i: int, j: int| 0 <= i < j < front.len() implies (#[trigger] front[i]).chart
            != (#[trigger] front[j]).chart by {
            assert(front[i] == rows[i]);
            assert(front[j] == rows[j]);
        }
        law_index_of_distinct_charts(front);
        law_index_keys(front);
        assert(!id_index(front).contains_key(rows.last().chart)) by {
            if id_index(front).contains_key(rows.last().chart) {
                let k = choose|k: int|
                    0 <= k < front.len() && (#[trigger] front[k]).chart == rows.last().chart;
                assert(front[k] == rows[k]);
                assert(rows[k].chart != rows[rows.len() - 1].chart);
            }
        }
    }
}

/// Each new pointer belongs to the player of the request, stands for a
/// record that had no pointer, and aims at the history row filed under that
/// record's own chart.
pub proof fn law_new_pointers_aim_at_own_chart(
    user: i64,
    records: Seq<NewRecord>,
    score_ids: Map<i64, i64>,
    lo: int,
    hi: int,
)
    requires
        0 <= lo <= hi <= records.len(),
    ensures
        forall|p: PointerRow| #[trigger]
            pointer_rows(user, records, score_ids, lo, hi).contains(p) ==> p.user == user
                && p.score == score_ids[p.chart] && exists|k: int|
                lo <= k < hi && (#[trigger] records[k]).best_id is None && records[k].chart_id
                    == p.chart,
    decreases hi - lo,
{
    if lo < hi {
        law_new_pointers_aim_at_own_chart(user, records, score_ids, lo, hi - 1);
        let before = pointer_rows(user, records, score_ids, lo, hi - 1);
        let all = pointer_rows(user, records, score_ids, lo, hi);
        assert forall|p: PointerRow| #[trigger] all.contains(p) implies p.user == user && p.score
            == score_ids[p.chart] && exists|k: int|
            lo <= k < hi && (#[trigger] records[k]).best_id is None && records[k].chart_id
                == p.chart by {
            let j = choose|j: int| 0 <= j < all.len() && all[j] == p;
            if j < before.len() {
                assert(before[j] == p);
                assert(before.contains(p));
                let k = choose|k: int|
                    lo <= k < hi - 1 && (#[trigger] records[k]).best_id is None
                        && records[k].chart_id == p.chart;
                assert(lo <= k < hi && records[k].best_id is None && records[k].chart_id
                    == p.chart);
            } else {
                assert(records[hi - 1].best_id is None && records[hi - 1].chart_id == p.chart);
            }
        }
    }
}

/// Every repointing comes from a record: it moves that record's pointer to
/// the history row filed under that record's chart, and to no other.
pub proof fn law_repoints_aim_at_own_chart(
    records: Seq<NewRecord>,
    score_ids: Map<i64, i64>,
    best_ids: Map<i64, i64>,
    n: int,
)
    requires
        0 <= n <= records.len(),
    ensures
        forall|p: Repoint| #[trigger]
            repoints_upto(records, score_ids, best_ids, n).contains(p) ==> exists|k: int|
                0 <= k < n && score_ids.contains_key((#[trigger] records[k]).chart_id)
                    && p.score_id == score_ids[records[k].chart_id] && pointer_of(
                    records[k],
                    best_ids,
                ) == Some(p.best_id),
    decreases n,
{
    if n > 0 {
        law_repoints_aim_at_own_chart(records, score_ids, best_ids, n - 1);
        let before = repoints_upto(records, score_ids, best_ids, n - 1);
        let all = repoints_upto(records, score_ids, best_ids, n);
        assert forall|p: Repoint| #[trigger] all.contains(p) implies exists|k: int|
            0 <= k < n && score_ids.contains_key((#[trigger] records[k]).chart_id) && p.score_id
                == score_ids[records[k].chart_id] && pointer_of(records[k], best_ids) == Some(
                p.best_id,
            ) by {
            let j = choose|j: int| 0 <= j < all.len() && all[j] == p;
            if j < before.len() {
                assert(before[j] == p);
                assert(before.contains(p));
                let k = choose|k: int|
                    0 <= k < n - 1 && score_ids.contains_key((#[trigger] records[k]).chart_id)
                        && p.score_id == score_ids[records[k].chart_id] && pointer_of(
                        records[k],
                        best_ids,
                    ) == Some(p.best_id);
                assert(0 <= k < n && score_ids.contains_key(records[k].chart_id) && p.score_id
                    == score_ids[records[k].chart_id] && pointer_of(records[k], best_ids)
                    == Some(p.best_id));
            } else {
                assert(repoint_of(records[n - 1], score_ids, best_ids) == Some(p));
                assert(score_ids.contains_key(records[n - 1].chart_id) && p.score_id
                    == score_ids[records[n - 1].chart_id] && pointer_of(
                    records[n - 1],
                    best_ids,
                ) == Some(p.best_id));
            }
        }
    }
}

/// Where the store handed back a history row for every record's chart and a
/// pointer for every record that had none, every record is repointed: there
/// is one repointing for each record, in their order.
pub proof fn law_every_winner_repointed(
    records: Seq<NewRecord>,
    score_ids: Map<i64, i64>,
    best_ids: Map<i64, i64>,
    n: int,
)
    requires
        0 <= n <= records.len(),
        forall|k: int| 0 <= k < n ==> score_ids.contains_key((#[trigger] records[k]).chart_id),
        forall|k: int|
            0 <= k < n && (#[trigger] records[k]).best_id is None ==> best_ids.contains_key(
                records[k].chart_id,
            ),
    ensures
        repoints_upto(records, score_ids, best_ids, n).len() == n,
        forall|k: int|
            0 <= k < n ==> Some(#[trigger] repoints_upto(records, score_ids, best_ids, n)[k])
                == repoint_of(records[k], score_ids, best_ids),
    decreases n,
{
    if n > 0 {
        law_every_winner_repointed(records, score_ids, best_ids, n - 1);
        assert(score_ids.contains_key(records[n - 1].chart_id));
    }
}

/// The first `n` batches laid end to end.
pub open spec fn joined<T>(batches: Seq<Seq<T>>, n: int) -> Seq<T>
    decreases n,
{
    if n <= 0 {
        Seq::empty()
    } else {
        joined(batches, n - 1) + batches[n - 1]
    }
}

/// The new pointers of two adjoining runs of records are those of the whole
/// run.
pub proof fn lemma_pointer_rows_split(
    user: i64,
    records: Seq<NewRecord>,
    score_ids: Map<i64, i64>,
    lo: int,
    mid: int,
    hi: int,
)
    requires
        lo <= mid <= hi,
    ensures
        pointer_rows(user, records, score_ids, lo, mid) + pointer_rows(
            user,
            records,
            score_ids,
            mid,
            hi,
        ) == pointer_rows(user, records, score_ids, lo, hi),
    decreases hi - mid,
{
    let left = pointer_rows(user, records, score_ids, lo, mid);
    if mid < hi {
        lemma_pointer_rows_split(user, records, score_ids, lo, mid, hi - 1);
        let right = pointer_rows(user, records, score_ids, mid, hi - 1);
        if records[hi - 1].best_id is None {
            let row = PointerRow {
                user,
                chart: records[hi - 1].chart_id,
                score: score_ids[records[hi - 1].chart_id],
            };
            assert(left + right.push(row) =~= (left + right).push(row));
        }
    } else {
        assert(left + Seq::<PointerRow>::empty() =~= left);
    }
}

/// Cutting into statements loses no pointer, repeats none and keeps their
/// order: laid end to end, the statements hold the new pointer of every
/// record without one.
pub proof fn law_pointer_batches_hold_every_pointer(
    user: i64,
    records: Seq<NewRecord>,
    score_ids: Map<i64, i64>,
)
    ensures
        joined(
            pointer_batches_of(user, records, score_ids),
            pointer_batches_of(user, records, score_ids).len() as int,
        ) == pointer_rows(user, records, score_ids, 0, records.len() as int),
        forall|b: int|
            0 <= b < pointer_batches_of(user, records, score_ids).len() ==> 0 < (
            #[trigger] pointer_batches_of(user, records, score_ids)[b]).len()
                <= POINTER_BATCH_ROWS,
{
    let count = batch_count(records.len() as int, POINTER_BATCH_ROWS as int);
    lemma_pointer_batches_upto(user, records, score_ids, count);
    if count > 0 {
        crate::batch::lemma_batch_bounds(
            records.len() as int,
            POINTER_BATCH_ROWS as int,
            count - 1,
        );
    }
}

/// The first `w` windows, laid end to end, hold the new pointers of the
/// records up to the end of window `w - 1`; no statement is empty or longer
/// than a window.
pub proof fn lemma_pointer_batches_upto(
    user: i64,
    records: Seq<NewRecord>,
    score_ids: Map<i64, i64>,
    w: int,
)
    requires
        0 <= w <= batch_count(records.len() as int, POINTER_BATCH_ROWS as int),
    ensures
        joined(
            pointer_batches_upto(user, records, score_ids, w),
            pointer_batches_upto(user, records, score_ids, w).len() as int,
        ) == pointer_rows(
            user,
            records,
            score_ids,
            0,
            if w == 0 {
                0
            } else {
                batch_end(records.len() as int, w - 1, POINTER_BATCH_ROWS as int)
            },
        ),
        forall|b: int|
            0 <= b < pointer_batches_upto(user, records, score_ids, w).len() ==> 0 < (
            #[trigger] pointer_batches_upto(user, records, score_ids, w)[b]).len()
                <= POINTER_BATCH_ROWS,
    decreases w,
{
    if w > 0 {
        let n = records.len() as int;
        let size = POINTER_BATCH_ROWS as int;
        lemma_pointer_batches_upto(user, records, score_ids, w - 1);
        crate::batch::lemma_batch_bounds(n, size, w - 1);
        if w > 1 {
            crate::batch::lemma_batch_bounds(n, size, w - 2);
        }
        let lo = batch_start(w - 1, size);
        let hi = batch_end(n, w - 1, size);
        let before = pointer_batches_upto(user, records, score_ids, w - 1);
        let all = pointer_batches_upto(user, records, score_ids, w);
        let rows = pointer_rows(user, records, score_ids, lo, hi);
        lemma_pointer_rows_split(user, records, score_ids, 0, lo, hi);
        lemma_pointer_rows_len(user, records, score_ids, lo, hi);
        if rows.len() == 0 {
            assert(pointer_rows(user, records, score_ids, 0, lo) + rows =~= pointer_rows(
                user,
                records,
                score_ids,
                0,
                lo,
            ));
        } else {
            assert(all == before.push(rows));
            lemma_joined_prefix(all, before, before.len() as int);
        }
    }
}

/// Laying batches end to end looks only at the batches it lays.
pub proof fn lemma_joined_prefix<T>(a: Seq<Seq<T>>, b: Seq<Seq<T>>, n: int)
    requires
        n <= a.len(),
        n <= b.len(),
        forall|i: int| 0 <= i < n ==> a[i] == b[i],
    ensures
        joined(a, n) == joined(b, n),
    decreases n,
{
    if n > 0 {
        lemma_joined_prefix(a, b, n - 1);
    }
}

/// A run of records needs at most one new pointer for each record.
pub proof fn lemma_pointer_rows_len(
    user: i64,
    records: Seq<NewRecord>,
    score_ids: Map<i64, i64>,
    lo: int,
    hi: int,
)
    ensures
        pointer_rows(user, records, score_ids, lo, hi).len() <= (if hi <= lo {
            0
        } else {
            hi - lo
        }),
    decreases hi - lo,
{
    if lo < hi {
        lemma_pointer_rows_len(user, records, score_ids, lo, hi - 1);
    }
}

/// A request that writes no chart twice makes at most one pointer for each
/// chart.
pub proof fn law_one_new_pointer_per_chart(
    user: i64,
    records: Seq<NewRecord>,
    score_ids: Map<i64, i64>,
    lo: int,
    hi: int,
)
    requires
        0 <= lo <= hi <= records.len(),
        charts_distinct(records),
    ensures
        forall|i: int, j: int|
            0 <= i < j < pointer_rows(user, records, score_ids, lo, hi).len() ==> (
            #[trigger] pointer_rows(user, records, score_ids, lo, hi)[i]).chart != (
            #[trigger] pointer_rows(user, records, score_ids, lo, hi)[j]).chart,
    decreases hi - lo,
{
    if lo < hi {
        law_one_new_pointer_per_chart(user, records, score_ids, lo, hi - 1);
        law_new_pointers_aim_at_own_chart(user, records, score_ids, lo, hi - 1);
        let before = pointer_rows(user, records, score_ids, lo, hi - 1);
        let all = pointer_rows(user, records, score_ids, lo, hi);
        assert forall|i: int, j: int| 0 <= i < j < all.len() implies (#[trigger] all[i]).chart != (
        #[trigger] all[j]).chart by {
            if j < before.len() {
                assert(before[i] == all[i] && before[j] == all[j]);
            } else {
                assert(before[i] == all[i]);
                assert(before.contains(before[i]));
                let k = choose|k: int|
                    lo <= k < hi - 1 && (#[trigger] records[k]).best_id is None
                        && records[k].chart_id == before[i].chart;
                assert(records[k].chart_id != records[hi - 1].chart_id);
            }
        }
    }
}

} // verus!
