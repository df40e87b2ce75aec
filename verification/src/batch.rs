//! Cutting the rows of one request into statements that stay under the
//! store's limit on bound parameters.

use vstd::prelude::*;
use crate::compare::Submission;
use crate::select::{records_in_request, NewRecord};

verus! {

/// The most parameters that one statement may bind.
pub const BIND_LIMIT: usize = 32766;

/// Parameters bound for each row of score history.
pub const SCORE_FIELDS: usize = 8;

/// Parameters bound for each new best pointer.
pub const POINTER_FIELDS: usize = 3;

/// Rows of score history that fit in one statement.
pub const SCORE_BATCH_ROWS: usize = 4095;

/// New best pointers that fit in one statement.
pub const POINTER_BATCH_ROWS: usize = 10922;

/// The batch sizes are the largest that keep a statement within the limit.
pub proof fn law_batch_sizes()
    ensures
        SCORE_BATCH_ROWS == BIND_LIMIT / SCORE_FIELDS,
        POINTER_BATCH_ROWS == BIND_LIMIT / POINTER_FIELDS,
        SCORE_BATCH_ROWS * SCORE_FIELDS <= BIND_LIMIT < (SCORE_BATCH_ROWS + 1) * SCORE_FIELDS,
        POINTER_BATCH_ROWS * POINTER_FIELDS <= BIND_LIMIT < (POINTER_BATCH_ROWS + 1)
            * POINTER_FIELDS,
{
}

/// How many batches of at most `size` rows hold `n` rows.
pub open spec fn batch_count(n: int, size: int) -> int {
    if n <= 0 {
        0
    } else {
        (n - 1) / size + 1
    }
}

/// Where batch `b` starts.
pub open spec fn batch_start(b: int, size: int) -> int {
    b * size
}

/// Where batch `b` ends among `n` rows.
pub open spec fn batch_end(n: int, b: int, size: int) -> int {
    if (b + 1) * size < n {
        (b + 1) * size
    } else {
        n
    }
}

/// Batch `b` of `rows`: a run of `size` rows, or what is left for the last.
pub open spec fn batch<T>(rows: Seq<T>, size: int, b: int) -> Seq<T> {
    rows.subrange(batch_start(b, size), batch_end(rows.len() as int, b, size))
}

/// `rows` cut into consecutive batches of `size`, the last one shorter where
/// the rows do not divide evenly; no batch is empty.
pub open spec fn batches<T>(rows: Seq<T>, size: int) -> Seq<Seq<T>> {
    Seq::new(batch_count(rows.len() as int, size) as nat, |b: int| batch(rows, size, b))
}

/// One row of score history as it is bound to the insert statement.
#[derive(Debug, Clone)]
pub struct ScoreRow {
    pub user: i64,
    pub chart: i64,
    pub score: Option<i64>,
    pub clear_rank: Option<String>,
    pub clear_kind: Option<String>,
    pub flare_rank: Option<i64>,
    pub flare_skill: Option<i64>,
    pub created_at: String,
}

/// The history row for one record: the fields of the submission it came
/// from, under the player, the chart and the time of the request.
pub open spec fn score_row(user: i64, now: String, sub: Submission, chart: i64) -> ScoreRow {
    ScoreRow {
        user,
        chart,
        score: sub.score,
        clear_rank: sub.rank,
        clear_kind: sub.clear_kind,
        flare_rank: sub.flare_rank,
        flare_skill: sub.flare_skill,
        created_at: now,
    }
}

/// The history rows of a request, one for each record and in their order.
pub open spec fn score_rows(
    user: i64,
    now: String,
    subs: Seq<Submission>,
    records: Seq<NewRecord>,
) -> Seq<ScoreRow> {
    Seq::new(
        records.len(),
        |k: int| score_row(user, now, subs[records[k].req_index as int], records[k].chart_id),
    )
}

/// The rows of each batch.
pub open spec fn rows_of<T>(out: Seq<Vec<T>>) -> Seq<Seq<T>> {
    Seq::new(out.len(), |b: int| out[b]@)
}

/// A copy of an optional text.
pub fn copy_text(t: &Option<String>) -> (r: Option<String>)
    ensures
        r == *t,
{
    match t {
        Some(s) => Some(s.clone()),
        None => None,
    }
}

/// The history rows of a request, cut into insert statements of at most
/// [`SCORE_BATCH_ROWS`] rows. All rows carry the same time.
pub fn score_batches(
    user: i64,
    now: &String,
    subs: &Vec<Submission>,
    records: &Vec<NewRecord>,
) -> (out: Vec<Vec<ScoreRow>>)
    requires
        records_in_request(records@, subs.len() as int),
    ensures
        rows_of(out@) == batches(
            score_rows(user, *now, subs@, records@),
            SCORE_BATCH_ROWS as int,
        ),
{
    let ghost rows = score_rows(user, *now, subs@, records@);
    let mut out: Vec<Vec<ScoreRow>> = Vec::new();
    let mut cur: Vec<ScoreRow> = Vec::new();
    let mut k: usize = 0;
    while k < records.len()
        invariant
            k <= records.len(),
            records_in_request(records@, subs.len() as int),
            rows == score_rows(user, *now, subs@, records@),
            cur.len() < SCORE_BATCH_ROWS,
            k == out.len() * SCORE_BATCH_ROWS + cur.len(),
            cur@ == rows.subrange(k - cur.len(), k as int),
            forall|b: int| 0 <= b < out.len() ==> (#[trigger] out[b])@ == batch(
                rows,
                SCORE_BATCH_ROWS as int,
                b,
            ),
        decreases records.len() - k,
    {
        let r = records[k];
        let sub = &subs[r.req_index];
        let row = ScoreRow {
            user,
            chart: r.chart_id,
            score: sub.score,
            clear_rank: copy_text(&sub.rank),
            clear_kind: copy_text(&sub.clear_kind),
            flare_rank: sub.flare_rank,
            flare_skill: sub.flare_skill,
            created_at: now.clone(),
        };
        assert(row == rows[k as int]);
        cur.push(row);
        k = k + 1;
        assert(cur@ =~= rows.subrange(k - cur.len(), k as int));
        if cur.len() == SCORE_BATCH_ROWS {
            out.push(cur);
            cur = Vec::new();
            assert(cur@ =~= rows.subrange(k as int, k as int));
        }
    }
    if cur.len() > 0 {
        out.push(cur);
    }
    assert(rows_of(out@) =~= batches(rows, SCORE_BATCH_ROWS as int));
    out
}

/// Where the batches of `n` rows begin and end: each batch is a run of at
/// least one and at most `size` rows, and each begins where the one before
/// it ended.
pub proof fn lemma_batch_bounds(n: int, size: int, b: int)
    requires
        size > 0,
        0 <= b < batch_count(n, size),
    ensures
        0 <= batch_start(b, size) < batch_end(n, b, size) <= n,
        batch_end(n, b, size) - batch_start(b, size) <= size,
        b + 1 < batch_count(n, size) ==> batch_end(n, b, size) == batch_start(b + 1, size),
        b + 1 == batch_count(n, size) ==> batch_end(n, b, size) == n,
{
    let q = (n - 1) / size;
    vstd::arithmetic::div_mod::lemma_fundamental_div_mod(n - 1, size);
    vstd::arithmetic::div_mod::lemma_mod_bound(n - 1, size);
    assert(b * size <= q * size && 0 <= b * size && (b + 1) * size == b * size + size) by (nonlinear_arith)
        requires
            0 <= b <= q,
            size > 0,
    ;
    assert(size * q == q * size) by (nonlinear_arith);
    if b < q {
        assert((b + 1) * size <= q * size) by (nonlinear_arith)
            requires
                b + 1 <= q,
                size > 0,
        ;
    }
}

/// The batch that row `k` goes out in.
pub open spec fn batch_of(k: int, size: int) -> int {
    k / size
}

/// The place of row `k` within its batch.
pub open spec fn place_of(k: int, size: int) -> int {
    k % size
}

/// Batching loses nothing, repeats nothing and keeps the order: row `k` is
/// row `k % size` of batch `k / size`. No batch is empty and none is longer
/// than `size`.
pub proof fn law_batches_partition<T>(rows: Seq<T>, size: int)
    requires
        size > 0,
    ensures
        batches(rows, size).len() == batch_count(rows.len() as int, size),
        forall|b: int|
            0 <= b < batches(rows, size).len() ==> 0 < (#[trigger] batches(rows, size)[b]).len()
                <= size,
        forall|k: int|
            0 <= k < rows.len() ==> {
                let b = #[trigger] batch_of(k, size);
                let p = place_of(k, size);
                &&& 0 <= b < batches(rows, size).len()
                &&& 0 <= p < batches(rows, size)[b].len()
                &&& batches(rows, size)[b][p] == rows[k]
            },
{
    let n = rows.len() as int;
    assert forall|b: int| 0 <= b < batches(rows, size).len() implies 0 < (#[trigger] batches(
        rows,
        size,
    )[b]).len() <= size by {
        lemma_batch_bounds(n, size, b);
    }
    assert forall|k: int| 0 <= k < rows.len() implies {
        let b = #[trigger] batch_of(k, size);
        let p = place_of(k, size);
        &&& 0 <= b < batches(rows, size).len()
        &&& 0 <= p < batches(rows, size)[b].len()
        &&& batches(rows, size)[b][p] == rows[k]
    } by {
        let b = k / size;
        vstd::arithmetic::div_mod::lemma_fundamental_div_mod(k, size);
        vstd::arithmetic::div_mod::lemma_mod_bound(k, size);
        vstd::arithmetic::div_mod::lemma_div_pos_is_pos(k, size);
        vstd::arithmetic::div_mod::lemma_div_is_ordered(k, n - 1, size);
        assert(size * b == b * size) by (nonlinear_arith);
        lemma_batch_bounds(n, size, b);
        assert((b + 1) * size == b * size + size) by (nonlinear_arith);
        assert(batches(rows, size)[b] == batch(rows, size, b));
    }
}

/// Rows that need more parameters than one statement may bind go out in at
/// least two statements, and no statement of score history binds more than
/// the limit.
pub proof fn law_score_batches_respect_limit<T>(rows: Seq<T>)
    ensures
        rows.len() * SCORE_FIELDS > BIND_LIMIT ==> batches(rows, SCORE_BATCH_ROWS as int).len()
            >= 2,
        forall|b: int|
            0 <= b < batches(rows, SCORE_BATCH_ROWS as int).len() ==> (#[trigger] batches(
                rows,
                SCORE_BATCH_ROWS as int,
            )[b]).len() * SCORE_FIELDS <= BIND_LIMIT,
{
    law_batches_partition(rows, SCORE_BATCH_ROWS as int);
}

} // verus!
