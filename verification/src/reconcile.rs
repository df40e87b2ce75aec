//! One request from start to finish, as a sequence of decisions. The caller
//! owns the store: it carries out each [`Action`] and reports what happened
//! as an [`Event`]; the [`Reconciler`] decides what comes next.
//!
//! A request writes in three phases. The rows of score history go in first,
//! and the store hands back their identifiers. Players who had no pointer on
//! a chart then get one, in the same transaction, which is committed. Last,
//! in a transaction of its own and with the store's durability relaxed for
//! its duration, every winner's pointer is aimed at its new history row.

use std::collections::HashMap;
use vstd::prelude::*;
use crate::batch::{batches, rows_of, score_batches, score_rows, ScoreRow, SCORE_BATCH_ROWS};
use crate::catalog::{Catalog, CatalogView};
use crate::compare::{Best, Submission};
use crate::normalize::texts;
use crate::pointers::{
    id_index, ids_cover, index_ids, pointer_batches, pointer_batches_of, repoints, repoints_upto,
    InsertedRow, PointerRow, Repoint,
};
use crate::select::{
    charts_distinct, decide, decided_errors, decided_records, repeated_chart, NewRecord,
};

verus! {

/// Where a request stands.
#[derive(Debug, Clone, Copy, PartialEq, Eq, Structural)]
pub enum Phase {
    /// The score history is being inserted.
    Scores,
    /// The new pointers are being inserted.
    Pointers,
    /// The pointers are being aimed at the new history rows.
    Repointing,
    /// The summary has been handed out.
    Done,
    /// The request has failed.
    Failed,
}

/// Why a request failed.
#[derive(Debug, Clone, Copy, PartialEq, Eq, Structural)]
pub enum Failure {
    /// The store reported an error.
    Store,
    /// The store handed back no history row for a chart that needs a pointer.
    MissingScoreId,
    /// An event arrived that the current phase does not wait for.
    OutOfTurn,
}

/// What the caller reports back.
pub enum Event {
    /// The score history was inserted; these are the rows created.
    ScoresInserted(Vec<InsertedRow>),
    /// The new pointers were inserted and the transaction committed; these
    /// are the pointers created.
    PointersInserted(Vec<InsertedRow>),
    /// The pointers were updated and durability is strict again.
    Repointed,
    /// The store failed while carrying out the last action.
    StoreFailed,
}

/// The answer to a request that went through.
#[derive(Debug)]
pub struct Summary {
    /// How many results were written, first records included.
    pub updated: usize,
    /// The reports for the entries that could not be resolved.
    pub errors: Vec<String>,
}

/// What the caller is to do next.
pub enum Action {
    /// Open a transaction and run one insert into the score history for
    /// each batch, collecting the identifier and chart of every row created.
    InsertScores(Vec<Vec<ScoreRow>>),
    /// In the same transaction run one insert of best pointers for each
    /// batch, collecting the identifier and chart of every pointer created;
    /// then commit.
    InsertPointers(Vec<Vec<PointerRow>>),
    /// Relax the store's durability, apply the updates in one transaction,
    /// commit, and make durability strict again whether or not that worked.
    Repoint(Vec<Repoint>),
    /// Answer the request.
    Respond(Summary),
    /// Abandon any open transaction and fail the request.
    Fail(Failure),
}

/// An [`Action`] as plain values.
pub enum ActionView {
    InsertScores(Seq<Seq<ScoreRow>>),
    InsertPointers(Seq<Seq<PointerRow>>),
    Repoint(Seq<Repoint>),
    Respond { updated: int, errors: Seq<Seq<char>> },
    Fail(Failure),
}

impl View for Action {
    type V = ActionView;

    open spec fn view(&self) -> ActionView {
        match *self {
            Action::InsertScores(b) => ActionView::InsertScores(rows_of(b@)),
            Action::InsertPointers(b) => ActionView::InsertPointers(rows_of(b@)),
            Action::Repoint(p) => ActionView::Repoint(p@),
            Action::Respond(s) => ActionView::Respond {
                updated: s.updated as int,
                errors: texts(s.errors@),
            },
            Action::Fail(f) => ActionView::Fail(f),
        }
    }
}

/// The state of a request as plain values.
pub struct ReconcilerView {
    pub user: i64,
    pub records: Seq<NewRecord>,
    pub errors: Seq<Seq<char>>,
    pub score_ids: Map<i64, i64>,
    pub phase: Phase,
}

/// The state of one request between two actions.
pub struct Reconciler {
    user: i64,
    records: Vec<NewRecord>,
    errors: Vec<String>,
    score_ids: HashMap<i64, i64>,
    phase: Phase,
}

impl View for Reconciler {
    type V = ReconcilerView;

    closed spec fn view(&self) -> ReconcilerView {
        ReconcilerView {
            user: self.user,
            records: self.records@,
            errors: texts(self.errors@),
            score_ids: self.score_ids@,
            phase: self.phase,
        }
    }
}

/// The state in which a request starts: decided, nothing written yet.
pub open spec fn initial_state(
    user: i64,
    subs: Seq<Submission>,
    cat: CatalogView,
    bests: Map<i64, Best>,
) -> ReconcilerView {
    ReconcilerView {
        user,
        records: decided_records(cat, bests, subs),
        errors: decided_errors(cat, subs),
        score_ids: Map::empty(),
        phase: Phase::Scores,
    }
}

/// The first action of a request: the history rows of all its records.
pub open spec fn initial_action(
    user: i64,
    now: String,
    subs: Seq<Submission>,
    cat: CatalogView,
    bests: Map<i64, Best>,
) -> ActionView {
    ActionView::InsertScores(
        batches(
            score_rows(user, now, subs, decided_records(cat, bests, subs)),
            SCORE_BATCH_ROWS as int,
        ),
    )
}

/// The same request, failed.
pub open spec fn failed(s: ReconcilerView) -> ReconcilerView {
    ReconcilerView { phase: Phase::Failed, ..s }
}

/// The state after `e` arrives in state `s`.
pub open spec fn next_state(s: ReconcilerView, e: Event) -> ReconcilerView {
    match (s.phase, e) {
        (Phase::Scores, Event::ScoresInserted(rows)) => if ids_cover(
            s.records,
            id_index(rows@),
        ) {
            ReconcilerView { score_ids: id_index(rows@), phase: Phase::Pointers, ..s }
        } else {
            failed(s)
        },
        (Phase::Pointers, Event::PointersInserted(_)) => ReconcilerView {
            phase: Phase::Repointing,
            ..s
        },
        (Phase::Repointing, Event::Repointed) => ReconcilerView {
            errors: Seq::empty(),
            phase: Phase::Done,
            ..s
        },
        (Phase::Done, _) => s,
        _ => failed(s),
    }
}

/// What the caller is to do after `e` arrives in state `s`.
pub open spec fn next_action(s: ReconcilerView, e: Event) -> ActionView {
    match (s.phase, e) {
        (Phase::Scores, Event::ScoresInserted(rows)) => if ids_cover(
            s.records,
            id_index(rows@),
        ) {
            ActionView::InsertPointers(pointer_batches_of(s.user, s.records, id_index(rows@)))
        } else {
            ActionView::Fail(Failure::MissingScoreId)
        },
        (Phase::Pointers, Event::PointersInserted(rows)) => ActionView::Repoint(
            repoints_upto(s.records, s.score_ids, id_index(rows@), s.records.len() as int),
        ),
        (Phase::Repointing, Event::Repointed) => ActionView::Respond {
            updated: s.records.len() as int,
            errors: s.errors,
        },
        (Phase::Scores, Event::StoreFailed) => ActionView::Fail(Failure::Store),
        (Phase::Pointers, Event::StoreFailed) => ActionView::Fail(Failure::Store),
        (Phase::Repointing, Event::StoreFailed) => ActionView::Fail(Failure::Store),
        _ => ActionView::Fail(Failure::OutOfTurn),
    }
}

impl Reconciler {
    /// Where the request stands.
    pub fn phase(&self) -> (p: Phase)
        ensures
            p == self@.phase,
    {
        self.phase
    }

    /// Says whether the request writes a chart twice, and if so which two
    /// entries of the request do: the first entry whose chart an earlier
    /// written entry has too, and before it that earlier entry. Such a
    /// request is carried out all the same, with the last history row for
    /// the chart as the one pointed at; the caller may want to make it known.
    pub fn repeated_chart(&self) -> (r: Option<(usize, usize)>)
        ensures
            match r {
                Some((i, j)) => exists|a: int, b: int|
                    0 <= a < b < self@.records.len() && #[trigger] self@.records[a].req_index == i
                        && #[trigger] self@.records[b].req_index == j && self@.records[a].chart_id
                        == self@.records[b].chart_id && charts_distinct(self@.records.take(b)),
                None => charts_distinct(self@.records),
            },
    {
        match repeated_chart(&self.records) {
            Some((a, b)) => {
                assert(self@.records[a as int].req_index == self.records[a as int].req_index);
                assert(self@.records[b as int].req_index == self.records[b as int].req_index);
                Some((self.records[a].req_index, self.records[b].req_index))
            },
            None => None,
        }
    }

    /// Decides a request and asks for its score history to be inserted.
    /// `now` is the time that every row of the request carries.
    pub fn begin(
        user: i64,
        now: &String,
        subs: &Vec<Submission>,
        cat: &Catalog,
        bests: &HashMap<i64, Best>,
    ) -> (r: (Reconciler, Action))
        ensures
            r.0@ == initial_state(user, subs@, cat@, bests@),
            r.1@ == initial_action(user, *now, subs@, cat@, bests@),
    {
        let d = decide(subs, cat, bests);
        let out = score_batches(user, now, subs, &d.records);
        let state = Reconciler {
            user,
            records: d.records,
            errors: d.errors,
            score_ids: HashMap::new(),
            phase: Phase::Scores,
        };
        (state, Action::InsertScores(out))
    }

    /// Takes in what the caller reports and says what to do next.
    pub fn step(self, event: Event) -> (r: (Reconciler, Action))
        ensures
            r.0@ == next_state(self@, event),
            r.1@ == next_action(self@, event),
    {
        let Reconciler { user, records, errors, score_ids, phase } = self;
        match (phase, event) {
            (Phase::Scores, Event::ScoresInserted(rows)) => {
                let ids = index_ids(&rows);
                match pointer_batches(user, &records, &ids) {
                    Some(out) => (
                        Reconciler { user, records, errors, score_ids: ids, phase: Phase::Pointers },
                        Action::InsertPointers(out),
                    ),
                    None => (
                        Reconciler { user, records, errors, score_ids, phase: Phase::Failed },
                        Action::Fail(Failure::MissingScoreId),
                    ),
                }
            },
            (Phase::Pointers, Event::PointersInserted(rows)) => {
                let best_ids = index_ids(&rows);
                let out = repoints(&records, &score_ids, &best_ids);
                (
                    Reconciler { user, records, errors, score_ids, phase: Phase::Repointing },
                    Action::Repoint(out),
                )
            },
            (Phase::Repointing, Event::Repointed) => {
                let updated = records.len();
                let handed_out: Vec<String> = Vec::new();
                assert(texts(handed_out@) =~= Seq::<Seq<char>>::empty());
                (
                    Reconciler { user, records, errors: handed_out, score_ids, phase: Phase::Done },
                    Action::Respond(Summary { updated, errors }),
                )
            },
            (Phase::Scores, Event::StoreFailed) => (
                Reconciler { user, records, errors, score_ids, phase: Phase::Failed },
                Action::Fail(Failure::Store),
            ),
            (Phase::Pointers, Event::StoreFailed) => (
                Reconciler { user, records, errors, score_ids, phase: Phase::Failed },
                Action::Fail(Failure::Store),
            ),
            (Phase::Repointing, Event::StoreFailed) => (
                Reconciler { user, records, errors, score_ids, phase: Phase::Failed },
                Action::Fail(Failure::Store),
            ),
            (Phase::Done, _) => (
                Reconciler { user, records, errors, score_ids, phase: Phase::Done },
                Action::Fail(Failure::OutOfTurn),
            ),
            _ => (
                Reconciler { user, records, errors, score_ids, phase: Phase::Failed },
                Action::Fail(Failure::OutOfTurn),
            ),
        }
    }
}

/// A request whose writes all go through, and for which the store hands
/// back a history row for every chart that needs a pointer, ends with a
/// summary: as many results updated as the request has records, and the
/// reports of the entries that did not resolve. On the way every record is
/// asked to be repointed with the identifiers that the store handed back.
pub proof fn law_run_ends_in_summary(
    user: i64,
    subs: Seq<Submission>,
    cat: CatalogView,
    bests: Map<i64, Best>,
    scores: Vec<InsertedRow>,
    pointers: Vec<InsertedRow>,
)
    requires
        ids_cover(decided_records(cat, bests, subs), id_index(scores@)),
    ensures
        ({
            let records = decided_records(cat, bests, subs);
            let s0 = initial_state(user, subs, cat, bests);
            let s1 = next_state(s0, Event::ScoresInserted(scores));
            let s2 = next_state(s1, Event::PointersInserted(pointers));
            let s3 = next_state(s2, Event::Repointed);
            &&& next_action(s0, Event::ScoresInserted(scores)) == ActionView::InsertPointers(
                pointer_batches_of(user, records, id_index(scores@)),
            )
            &&& next_action(s1, Event::PointersInserted(pointers)) == ActionView::Repoint(
                repoints_upto(
                    records,
                    id_index(scores@),
                    id_index(pointers@),
                    records.len() as int,
                ),
            )
            &&& next_action(s2, Event::Repointed) == (ActionView::Respond {
                updated: records.len() as int,
                errors: decided_errors(cat, subs),
            })
            &&& s3.phase == Phase::Done
        }),
{
}

/// A summary is handed out only when the repointing has gone through, and
/// so only after all three phases: no request is answered half written.
pub proof fn law_summary_only_after_repointing(s: ReconcilerView, e: Event)
    ensures
        next_action(s, e) is Respond ==> s.phase == Phase::Repointing && e is Repointed
            && next_state(s, e).phase == Phase::Done,
        next_state(s, e).phase == Phase::Done ==> s.phase == Phase::Done || (s.phase
            == Phase::Repointing && e is Repointed),
{
}

/// A store failure while writing fails the request, and a failed request
/// stays failed whatever is reported to it.
pub proof fn law_failure_is_final(s: ReconcilerView, e: Event)
    ensures
        e is StoreFailed && s.phase != Phase::Done ==> next_state(s, e).phase == Phase::Failed
            && next_action(s, e) is Fail,
        s.phase == Phase::Failed ==> next_state(s, e).phase == Phase::Failed && next_action(s, e)
            == ActionView::Fail(Failure::OutOfTurn),
{
}

/// What a request is to write is settled when it begins: no event changes
/// its player or its records.
pub proof fn law_records_are_settled(s: ReconcilerView, e: Event)
    ensures
        next_state(s, e).user == s.user,
        next_state(s, e).records == s.records,
{
}

} // verus!
