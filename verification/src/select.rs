//! Choosing, among the candidates of a request, the results that replace
//! the player's recorded bests.

use std::collections::HashMap;
use vstd::prelude::*;
use vstd::std_specs::hash::*;
use crate::catalog::{Catalog, CatalogView};
use crate::compare::{is_superseding, supersedes, Best, BestView, Submission};
use crate::normalize::{
    candidates_of, errors_of, normalize, resolution, texts, Candidate, Resolution,
};

verus! {

/// A result that is to be written: its chart, its place in the request, and
/// the pointer row of the best it replaces, if the player had one.
#[derive(Debug, Clone, Copy, PartialEq, Eq, Structural)]
pub struct NewRecord {
    pub chart_id: i64,
    pub req_index: usize,
    pub best_id: Option<i64>,
}

/// The player's recorded best on a chart.
pub open spec fn best_on(bests: Map<i64, Best>, chart_id: i64) -> Option<BestView> {
    if bests.contains_key(chart_id) {
        Some(bests[chart_id]@)
    } else {
        None
    }
}

/// Whether a candidate replaces the best recorded on its chart.
pub open spec fn wins(subs: Seq<Submission>, bests: Map<i64, Best>, c: Candidate) -> bool {
    supersedes(best_on(bests, c.chart_id), subs[c.index as int]@)
}

/// The record to write for a winning candidate.
pub open spec fn record_of(bests: Map<i64, Best>, c: Candidate) -> NewRecord {
    NewRecord {
        chart_id: c.chart_id,
        req_index: c.index,
        best_id: match best_on(bests, c.chart_id) {
            Some(b) => Some(b.id),
            None => None,
        },
    }
}

/// The records for the winners among the first `n` candidates, in order.
pub open spec fn selected(
    subs: Seq<Submission>,
    bests: Map<i64, Best>,
    cands: Seq<Candidate>,
    n: int,
) -> Seq<NewRecord>
    decreases n,
{
    if n <= 0 {
        Seq::empty()
    } else {
        let before = selected(subs, bests, cands, n - 1);
        if wins(subs, bests, cands[n - 1]) {
            before.push(record_of(bests, cands[n - 1]))
        } else {
            before
        }
    }
}

/// Every candidate points at an entry of the request.
pub open spec fn in_request(cands: Seq<Candidate>, len: int) -> bool {
    forall|k: int| 0 <= k < cands.len() ==> (#[trigger] cands[k]).index < len
}

/// Keeps the candidates that replace the recorded best of their chart, or
/// that open a record where the player has none.
pub fn select(subs: &Vec<Submission>, bests: &HashMap<i64, Best>, cands: &Vec<Candidate>) -> (records:
    Vec<NewRecord>)
    requires
        in_request(cands@, subs.len() as int),
    ensures
        records@ == selected(subs@, bests@, cands@, cands.len() as int),
{
    broadcast use group_hash_axioms;

    let mut records: Vec<NewRecord> = Vec::new();
    let mut k: usize = 0;
    while k < cands.len()
        invariant
            k <= cands.len(),
            in_request(cands@, subs.len() as int),
            records@ == selected(subs@, bests@, cands@, k as int),
            obeys_key_model::<i64>(),
            builds_valid_hashers::<std::collections::hash_map::RandomState>(),
        decreases cands.len() - k,
    {
        let c = cands[k];
        let best = bests.get(&c.chart_id);
        if is_superseding(best, &subs[c.index]) {
            let best_id = match best {
                Some(b) => Some(b.id),
                None => None,
            };
            records.push(NewRecord { chart_id: c.chart_id, req_index: c.index, best_id });
        }
        k = k + 1;
    }
    records
}

/// The candidates of a request point at its entries, in rising order.
pub proof fn lemma_candidates_in_request(cat: CatalogView, subs: Seq<Submission>, n: int)
    requires
        n <= subs.len() <= usize::MAX,
    ensures
        candidates_of(cat, subs, n).len() <= (if n < 0 { 0 } else { n }),
        forall|k: int|
            0 <= k < candidates_of(cat, subs, n).len() ==> (#[trigger] candidates_of(
                cat,
                subs,
                n,
            )[k]).index < n,
        forall|j: int, k: int|
            0 <= j < k < candidates_of(cat, subs, n).len() ==> (#[trigger] candidates_of(
                cat,
                subs,
                n,
            )[j]).index < (#[trigger] candidates_of(cat, subs, n)[k]).index,
    decreases n,
{
    if n > 0 {
        lemma_candidates_in_request(cat, subs, n - 1);
    }
}

/// Every record points at an entry of the request.
pub open spec fn records_in_request(records: Seq<NewRecord>, len: int) -> bool {
    forall|k: int| 0 <= k < records.len() ==> (#[trigger] records[k]).req_index < len
}

/// What a request comes to before anything is written.
pub struct Decision {
    pub records: Vec<NewRecord>,
    pub errors: Vec<String>,
}

/// The records that a request leads to.
pub open spec fn decided_records(cat: CatalogView, bests: Map<i64, Best>, subs: Seq<Submission>) -> Seq<
    NewRecord,
> {
    let cands = candidates_of(cat, subs, subs.len() as int);
    selected(subs, bests, cands, cands.len() as int)
}

/// The reports that a request leads to.
pub open spec fn decided_errors(cat: CatalogView, subs: Seq<Submission>) -> Seq<Seq<char>> {
    errors_of(cat, subs, subs.len() as int)
}

/// The records selected among candidates of a request point at its entries.
pub proof fn lemma_selected_in_request(
    subs: Seq<Submission>,
    bests: Map<i64, Best>,
    cands: Seq<Candidate>,
    n: int,
)
    requires
        n <= cands.len(),
        in_request(cands, subs.len() as int),
    ensures
        records_in_request(selected(subs, bests, cands, n), subs.len() as int),
        selected(subs, bests, cands, n).len() <= (if n < 0 { 0 } else { n }),
    decreases n,
{
    if n > 0 {
        lemma_selected_in_request(subs, bests, cands, n - 1);
    }
}

/// The records of a request point at its entries.
pub proof fn lemma_decided_in_request(cat: CatalogView, bests: Map<i64, Best>, subs: Seq<Submission>)
    requires
        subs.len() <= usize::MAX,
    ensures
        records_in_request(decided_records(cat, bests, subs), subs.len() as int),
        decided_records(cat, bests, subs).len() <= subs.len(),
{
    let cands = candidates_of(cat, subs, subs.len() as int);
    lemma_candidates_in_request(cat, subs, subs.len() as int);
    lemma_selected_in_request(subs, bests, cands, cands.len() as int);
}

/// Normalises a request and keeps the results that are to be written.
pub fn decide(subs: &Vec<Submission>, cat: &Catalog, bests: &HashMap<i64, Best>) -> (d: Decision)
    ensures
        d.records@ == decided_records(cat@, bests@, subs@),
        texts(d.errors@) == decided_errors(cat@, subs@),
        records_in_request(d.records@, subs.len() as int),
{
    let norm = normalize(subs, cat);
    proof {
        lemma_candidates_in_request(cat@, subs@, subs.len() as int);
        lemma_decided_in_request(cat@, bests@, subs@);
    }
    let records = select(subs, bests, &norm.candidates);
    Decision { records, errors: norm.errors }
}

/// Entry `i` of a request resolves to a chart.
pub open spec fn resolves(cat: CatalogView, subs: Seq<Submission>, i: int) -> bool {
    resolution(cat, subs[i]@) is Chart
}

/// The chart that entry `i` resolves to.
pub open spec fn chart_of_entry(cat: CatalogView, subs: Seq<Submission>, i: int) -> i64 {
    match resolution(cat, subs[i]@) {
        Resolution::Chart(c) => c,
        _ => 0,
    }
}

/// Every entry of a request becomes a candidate or leaves a report, never
/// both and never neither.
pub proof fn law_every_entry_accounted(cat: CatalogView, subs: Seq<Submission>, n: int)
    requires
        0 <= n <= subs.len(),
    ensures
        candidates_of(cat, subs, n).len() + errors_of(cat, subs, n).len() == n,
    decreases n,
{
    if n > 0 {
        law_every_entry_accounted(cat, subs, n - 1);
    }
}

/// The candidates are exactly the entries that resolve, each with the chart
/// it resolves to.
pub proof fn law_candidates_are_the_resolved(cat: CatalogView, subs: Seq<Submission>, n: int)
    requires
        0 <= n <= subs.len() <= usize::MAX,
    ensures
        forall|c: Candidate| #[trigger]
            candidates_of(cat, subs, n).contains(c) <==> (0 <= c.index < n && resolves(
                cat,
                subs,
                c.index as int,
            ) && c.chart_id == chart_of_entry(cat, subs, c.index as int)),
    decreases n,
{
    if n > 0 {
        law_candidates_are_the_resolved(cat, subs, n - 1);
        let before = candidates_of(cat, subs, n - 1);
        let all = candidates_of(cat, subs, n);
        assert forall|c: Candidate| #[trigger]
            all.contains(c) <==> (0 <= c.index < n && resolves(cat, subs, c.index as int)
                && c.chart_id == chart_of_entry(cat, subs, c.index as int)) by {
            if resolves(cat, subs, n - 1) {
                let last = Candidate {
                    index: (n - 1) as usize,
                    chart_id: chart_of_entry(cat, subs, n - 1),
                };
                assert(all == before.push(last));
                if all.contains(c) {
                    let k = choose|k: int| 0 <= k < all.len() && all[k] == c;
                    if k < before.len() {
                        assert(before[k] == c);
                        assert(before.contains(c));
                    }
                }
                if before.contains(c) {
                    let k = choose|k: int| 0 <= k < before.len() && before[k] == c;
                    assert(all[k] == c);
                }
                if c == last {
                    assert(all[all.len() - 1] == c);
                }
            } else {
                assert(all == before);
            }
        }
    }
}

/// The records are exactly the winning candidates, each as [`record_of`]
/// writes it.
pub proof fn law_records_are_the_winners(
    subs: Seq<Submission>,
    bests: Map<i64, Best>,
    cands: Seq<Candidate>,
    n: int,
)
    requires
        0 <= n <= cands.len(),
    ensures
        forall|r: NewRecord| #[trigger]
            selected(subs, bests, cands, n).contains(r) <==> exists|k: int|
                0 <= k < n && wins(subs, bests, #[trigger] cands[k]) && r == record_of(
                    bests,
                    cands[k],
                ),
    decreases n,
{
    if n > 0 {
        law_records_are_the_winners(subs, bests, cands, n - 1);
        let before = selected(subs, bests, cands, n - 1);
        let all = selected(subs, bests, cands, n);
        let last = record_of(bests, cands[n - 1]);
        assert forall|r: NewRecord| #[trigger]
            all.contains(r) <==> exists|k: int|
                0 <= k < n && wins(subs, bests, #[trigger] cands[k]) && r == record_of(
                    bests,
                    cands[k],
                ) by {
            if all.contains(r) {
                let j = choose|j: int| 0 <= j < all.len() && all[j] == r;
                if j < before.len() {
                    assert(before[j] == r);
                    assert(before.contains(r));
                    let k = choose|k: int|
                        0 <= k < n - 1 && wins(subs, bests, #[trigger] cands[k]) && r
                            == record_of(bests, cands[k]);
                    assert(0 <= k < n && wins(subs, bests, cands[k]) && r == record_of(
                        bests,
                        cands[k],
                    ));
                } else {
                    assert(wins(subs, bests, cands[n - 1]) && r == last);
                }
            }
            if exists|k: int|
                0 <= k < n && wins(subs, bests, #[trigger] cands[k]) && r == record_of(
                    bests,
                    cands[k],
                ) {
                let k = choose|k: int|
                    0 <= k < n && wins(subs, bests, #[trigger] cands[k]) && r == record_of(
                        bests,
                        cands[k],
                    );
                if k < n - 1 {
                    assert(before.contains(r));
                    let j = choose|j: int| 0 <= j < before.len() && before[j] == r;
                    assert(all[j] == r);
                } else {
                    assert(all == before.push(last));
                    assert(all[all.len() - 1] == r);
                }
            }
        }
    }
}

/// An entry of a request is written exactly when it resolves to a chart and
/// replaces the best recorded there, or opens a record where there is none.
pub proof fn law_written_iff_resolved_and_better(
    cat: CatalogView,
    bests: Map<i64, Best>,
    subs: Seq<Submission>,
    i: int,
)
    requires
        0 <= i < subs.len() <= usize::MAX,
    ensures
        (exists|k: int|
            0 <= k < decided_records(cat, bests, subs).len() && (#[trigger] decided_records(
                cat,
                bests,
                subs,
            )[k]).req_index == i) <==> (resolves(cat, subs, i) && supersedes(
            best_on(bests, chart_of_entry(cat, subs, i)),
            subs[i]@,
        )),
{
    let n = subs.len() as int;
    let cands = candidates_of(cat, subs, n);
    let recs = decided_records(cat, bests, subs);
    law_candidates_are_the_resolved(cat, subs, n);
    law_records_are_the_winners(subs, bests, cands, cands.len() as int);
    let c = Candidate { index: i as usize, chart_id: chart_of_entry(cat, subs, i) };
    if exists|k: int| 0 <= k < recs.len() && (#[trigger] recs[k]).req_index == i {
        let k = choose|k: int| 0 <= k < recs.len() && (#[trigger] recs[k]).req_index == i;
        assert(recs.contains(recs[k]));
        let j = choose|j: int|
            0 <= j < cands.len() && wins(subs, bests, #[trigger] cands[j]) && recs[k]
                == record_of(bests, cands[j]);
        assert(cands.contains(cands[j]));
        assert(cands[j] == c);
    }
    if resolves(cat, subs, i) && supersedes(
        best_on(bests, chart_of_entry(cat, subs, i)),
        subs[i]@,
    ) {
        assert(cands.contains(c));
        let j = choose|j: int| 0 <= j < cands.len() && cands[j] == c;
        assert(wins(subs, bests, cands[j]));
        let r = record_of(bests, c);
        assert(recs.contains(r));
        let k = choose|k: int| 0 <= k < recs.len() && recs[k] == r;
        assert(recs[k].req_index == i);
    }
}

/// No chart has two records.
pub open spec fn charts_distinct(records: Seq<NewRecord>) -> bool {
    forall|i: int, j: int|
        0 <= i < j < records.len() ==> (#[trigger] records[i]).chart_id != (
        #[trigger] records[j]).chart_id
}

/// Looks for a chart that a request writes twice. Gives the place of the
/// first record whose chart an earlier record has too, and before it the
/// place of that earlier record; `None` where no chart has two records. A
/// request without one keeps every pointer it makes the only one for its
/// chart; with one, only the last history row for the chart is pointed at.
pub fn repeated_chart(records: &Vec<NewRecord>) -> (r: Option<(usize, usize)>)
    ensures
        match r {
            Some((i, j)) => i < j < records.len() && records[i as int].chart_id
                == records[j as int].chart_id && charts_distinct(records@.take(j as int)),
            None => charts_distinct(records@),
        },
{
    broadcast use group_hash_axioms;

    let mut seen: HashMap<i64, usize> = HashMap::new();
    let mut k: usize = 0;
    while k < records.len()
        invariant
            k <= records.len(),
            forall|c: i64| #[trigger]
                seen@.contains_key(c) ==> seen@[c] < k && records[seen@[c] as int].chart_id == c,
            forall|i: int| 0 <= i < k ==> seen@.contains_key((#[trigger] records[i]).chart_id),
            forall|i: int, j: int|
                0 <= i < j < k ==> (#[trigger] records[i]).chart_id != (
                #[trigger] records[j]).chart_id,
            obeys_key_model::<i64>(),
            builds_valid_hashers::<std::collections::hash_map::RandomState>(),
        decreases records.len() - k,
    {
        let chart = records[k].chart_id;
        match seen.get(&chart) {
            Some(at) => {
                assert(charts_distinct(records@.take(k as int)));
                return Some((*at, k));
            },
            None => {},
        }
        seen.insert(chart, k);
        k = k + 1;
    }
    None
}

/// The records keep the order of the candidates they were chosen from, and
/// no candidate gives two of them.
pub proof fn law_records_in_order(
    subs: Seq<Submission>,
    bests: Map<i64, Best>,
    cands: Seq<Candidate>,
    n: int,
)
    requires
        0 <= n <= cands.len(),
        forall|j: int, k: int|
            0 <= j < k < cands.len() ==> (#[trigger] cands[j]).index < (#[trigger] cands[k]).index,
    ensures
        forall|j: int, k: int|
            0 <= j < k < selected(subs, bests, cands, n).len() ==> (#[trigger] selected(
                subs,
                bests,
                cands,
                n,
            )[j]).req_index < (#[trigger] selected(subs, bests, cands, n)[k]).req_index,
        forall|k: int|
            0 <= k < selected(subs, bests, cands, n).len() ==> n > 0 && (#[trigger] selected(
                subs,
                bests,
                cands,
                n,
            )[k]).req_index <= cands[n - 1].index,
    decreases n,
{
    if n > 0 {
        law_records_in_order(subs, bests, cands, n - 1);
        if n > 1 {
            assert(cands[n - 2].index < cands[n - 1].index);
        }
    }
}

/// No entry of a request is written twice: the records of a request point
/// at entries in rising order.
pub proof fn law_one_record_per_entry(cat: CatalogView, bests: Map<i64, Best>, subs: Seq<Submission>)
    requires
        subs.len() <= usize::MAX,
    ensures
        forall|j: int, k: int|
            0 <= j < k < decided_records(cat, bests, subs).len() ==> (#[trigger] decided_records(
                cat,
                bests,
                subs,
            )[j]).req_index < (#[trigger] decided_records(cat, bests, subs)[k]).req_index,
{
    let cands = candidates_of(cat, subs, subs.len() as int);
    lemma_candidates_in_request(cat, subs, subs.len() as int);
    law_records_in_order(subs, bests, cands, cands.len() as int);
}

} // verus!
