//! Deciding whether a submitted result replaces a player's recorded best.
//!
//! A result is judged on four independent axes: the score, the clear rank,
//! the clear kind and the flare rank. It replaces the recorded best as soon
//! as it is strictly better on any one of them, whatever the others say.

use vstd::prelude::*;
use crate::vocab::{ClearKind, ClearRank};

verus! {

/// One play result as a client hands it in.
#[derive(Debug, Clone)]
pub struct Submission {
    pub title: String,
    pub difficulty: String,
    pub score: Option<i64>,
    pub rank: Option<String>,
    pub clear_kind: Option<String>,
    pub flare_skill: Option<i64>,
    pub flare_rank: Option<i64>,
}

/// What a [`Submission`] holds, as plain values.
pub struct SubmissionView {
    pub title: Seq<char>,
    pub difficulty: Seq<char>,
    pub score: Option<i64>,
    pub rank: Option<Seq<char>>,
    pub clear_kind: Option<Seq<char>>,
    pub flare_skill: Option<i64>,
    pub flare_rank: Option<i64>,
}

/// The view of an optional text.
pub open spec fn text_view(t: Option<String>) -> Option<Seq<char>> {
    match t {
        Some(s) => Some(s@),
        None => None,
    }
}

impl View for Submission {
    type V = SubmissionView;

    open spec fn view(&self) -> SubmissionView {
        SubmissionView {
            title: self.title@,
            difficulty: self.difficulty@,
            score: self.score,
            rank: text_view(self.rank),
            clear_kind: text_view(self.clear_kind),
            flare_skill: self.flare_skill,
            flare_rank: self.flare_rank,
        }
    }
}

/// A player's recorded best on one chart: the pointer row and the values of
/// the result it points at.
#[derive(Debug, Clone)]
pub struct Best {
    pub id: i64,
    pub score: Option<i64>,
    pub rank: Option<String>,
    pub kind: Option<String>,
    pub flare: Option<i64>,
}

/// What a [`Best`] holds, as plain values.
pub struct BestView {
    pub id: i64,
    pub score: Option<i64>,
    pub rank: Option<Seq<char>>,
    pub kind: Option<Seq<char>>,
    pub flare: Option<i64>,
}

impl View for Best {
    type V = BestView;

    open spec fn view(&self) -> BestView {
        BestView {
            id: self.id,
            score: self.score,
            rank: text_view(self.rank),
            kind: text_view(self.kind),
            flare: self.flare,
        }
    }
}

/// The ordinal that stands for a rank or kind that is missing or is no word
/// of its vocabulary: larger than every real ordinal, so worse than all.
pub open spec fn worst_ordinal() -> int {
    i64::MAX as int
}

/// A numeric axis with a missing value counted as -1.
pub open spec fn value_or_floor(v: Option<i64>) -> int {
    match v {
        Some(x) => x as int,
        None => -1,
    }
}

/// The ordinal of an optional rank text; [`worst_ordinal`] where the text is
/// missing or names no rank.
pub open spec fn rank_value(rank: Option<Seq<char>>) -> int {
    match rank {
        Some(t) => match ClearRank::parse(t) {
            Some(r) => r.spec_ordinal(),
            None => worst_ordinal(),
        },
        None => worst_ordinal(),
    }
}

/// The ordinal of an optional kind text; [`worst_ordinal`] where the text is
/// missing or names no kind.
pub open spec fn kind_value(kind: Option<Seq<char>>) -> int {
    match kind {
        Some(t) => match ClearKind::parse(t) {
            Some(k) => k.spec_ordinal(),
            None => worst_ordinal(),
        },
        None => worst_ordinal(),
    }
}

/// The candidate's score is strictly higher than the recorded one.
pub open spec fn better_score(best: BestView, cand: SubmissionView) -> bool {
    value_or_floor(best.score) < value_or_floor(cand.score)
}

/// The candidate's rank is strictly better (a smaller ordinal) than the
/// recorded one.
pub open spec fn better_rank(best: BestView, cand: SubmissionView) -> bool {
    rank_value(best.rank) > rank_value(cand.rank)
}

/// The candidate's kind is strictly better (a smaller ordinal) than the
/// recorded one.
pub open spec fn better_kind(best: BestView, cand: SubmissionView) -> bool {
    kind_value(best.kind) > kind_value(cand.clear_kind)
}

/// The candidate's flare rank is strictly higher than the recorded one.
pub open spec fn better_flare(best: BestView, cand: SubmissionView) -> bool {
    value_or_floor(best.flare) < value_or_floor(cand.flare_rank)
}

/// The candidate beats the recorded best on at least one axis.
pub open spec fn improves(best: BestView, cand: SubmissionView) -> bool {
    better_score(best, cand) || better_rank(best, cand) || better_kind(best, cand)
        || better_flare(best, cand)
}

/// The candidate carries something worth a first record: a score, a rank, a
/// kind or a flare skill.
pub open spec fn has_result(cand: SubmissionView) -> bool {
    cand.score is Some || cand.rank is Some || cand.clear_kind is Some
        || cand.flare_skill is Some
}

/// The decision: against a recorded best, [`improves`]; with none recorded,
/// [`has_result`].
pub open spec fn supersedes(best: Option<BestView>, cand: SubmissionView) -> bool {
    match best {
        Some(b) => improves(b, cand),
        None => has_result(cand),
    }
}

/// The ordinal of an optional rank text, or `i64::MAX`.
pub fn rank_ordinal(rank: &Option<String>) -> (r: i64)
    ensures
        r == rank_value(text_view(*rank)),
{
    match rank {
        Some(t) => match ClearRank::from_str(t.as_str()) {
            Ok(k) => k.ordinal(),
            Err(_) => i64::MAX,
        },
        None => i64::MAX,
    }
}

/// The ordinal of an optional kind text, or `i64::MAX`.
pub fn kind_ordinal(kind: &Option<String>) -> (r: i64)
    ensures
        r == kind_value(text_view(*kind)),
{
    match kind {
        Some(t) => match ClearKind::from_str(t.as_str()) {
            Ok(k) => k.ordinal(),
            Err(_) => i64::MAX,
        },
        None => i64::MAX,
    }
}

/// A numeric axis with a missing value counted as -1.
pub fn or_floor(v: Option<i64>) -> (r: i64)
    ensures
        r == value_or_floor(v),
{
    match v {
        Some(x) => x,
        None => -1,
    }
}

/// Whether `cand` replaces `best` as the player's record on its chart.
pub fn is_superseding(best: Option<&Best>, cand: &Submission) -> (r: bool)
    ensures
        r == supersedes(
            match best {
                Some(b) => Some(b@),
                None => None,
            },
            cand@,
        ),
        best is None ==> (r <==> cand.score is Some || cand.rank is Some || cand.clear_kind
            is Some || cand.flare_skill is Some),
{
    match best {
        Some(b) => {
            or_floor(b.score) < or_floor(cand.score) || rank_ordinal(&b.rank) > rank_ordinal(
                &cand.rank,
            ) || kind_ordinal(&b.kind) > kind_ordinal(&cand.clear_kind) || or_floor(b.flare)
                < or_floor(cand.flare_rank)
        },
        None => {
            cand.score.is_some() || cand.rank.is_some() || cand.clear_kind.is_some()
                || cand.flare_skill.is_some()
        },
    }
}

/// With no best recorded, a result is kept exactly when it carries a score,
/// a rank, a kind or a flare skill; a flare rank alone does not count.
pub proof fn law_first_record(cand: SubmissionView)
    ensures
        supersedes(None, cand) <==> (cand.score is Some || cand.rank is Some || cand.clear_kind
            is Some || cand.flare_skill is Some),
{
}

/// Raising the score and leaving every other field alone never turns a
/// result that replaced the best into one that does not.
pub proof fn law_score_monotone(best: BestView, low: SubmissionView, high: SubmissionView)
    requires
        value_or_floor(low.score) <= value_or_floor(high.score),
        high == (SubmissionView { score: high.score, ..low }),
    ensures
        improves(best, low) ==> improves(best, high),
{
}

/// Raising the flare rank and leaving every other field alone never turns a
/// result that replaced the best into one that does not.
pub proof fn law_flare_monotone(best: BestView, low: SubmissionView, high: SubmissionView)
    requires
        value_or_floor(low.flare_rank) <= value_or_floor(high.flare_rank),
        high == (SubmissionView { flare_rank: high.flare_rank, ..low }),
    ensures
        improves(best, low) ==> improves(best, high),
{
}

/// Bettering the rank (a smaller or equal ordinal) and leaving every other
/// field alone never turns a result that replaced the best into one that does
/// not.
pub proof fn law_rank_monotone(best: BestView, low: SubmissionView, high: SubmissionView)
    requires
        rank_value(high.rank) <= rank_value(low.rank),
        high == (SubmissionView { rank: high.rank, ..low }),
    ensures
        improves(best, low) ==> improves(best, high),
{
}

/// Bettering the kind (a smaller or equal ordinal) and leaving every other
/// field alone never turns a result that replaced the best into one that does
/// not.
pub proof fn law_kind_monotone(best: BestView, low: SubmissionView, high: SubmissionView)
    requires
        kind_value(high.clear_kind) <= kind_value(low.clear_kind),
        high == (SubmissionView { clear_kind: high.clear_kind, ..low }),
    ensures
        improves(best, low) ==> improves(best, high),
{
}

/// With no best recorded the same holds of the score, as long as the raised
/// result still states a score.
pub proof fn law_score_monotone_first(low: SubmissionView, high: SubmissionView)
    requires
        value_or_floor(low.score) <= value_or_floor(high.score),
        high.score is Some,
        high == (SubmissionView { score: high.score, ..low }),
    ensures
        supersedes(None, low) ==> supersedes(None, high),
{
}

/// Every real rank and kind has an ordinal below the one that stands for a
/// missing or unknown word.
pub proof fn law_real_ordinals_below_worst(rank: ClearRank, kind: ClearKind)
    ensures
        0 <= rank.spec_ordinal() <= 15 < worst_ordinal(),
        0 <= kind.spec_ordinal() <= 8 < worst_ordinal(),
{
}

/// A rank text that names no rank is never better on the rank axis than the
/// recorded best, whatever rank that best holds.
pub proof fn law_unknown_rank_never_better(best: BestView, cand: SubmissionView)
    requires
        cand.rank matches Some(t) && ClearRank::parse(t) is None,
    ensures
        !better_rank(best, cand),
        rank_value(cand.rank) == worst_ordinal(),
{
    match best.rank {
        Some(t) => match ClearRank::parse(t) {
            Some(r) => {
                law_real_ordinals_below_worst(r, ClearKind::MFC);
            },
            None => {},
        },
        None => {},
    }
}

/// A kind text that names no kind is never better on the kind axis than the
/// recorded best, whatever kind that best holds.
pub proof fn law_unknown_kind_never_better(best: BestView, cand: SubmissionView)
    requires
        cand.clear_kind matches Some(t) && ClearKind::parse(t) is None,
    ensures
        !better_kind(best, cand),
        kind_value(cand.clear_kind) == worst_ordinal(),
{
    match best.kind {
        Some(t) => match ClearKind::parse(t) {
            Some(k) => {
                law_real_ordinals_below_worst(ClearRank::AAA, k);
            },
            None => {},
        },
        None => {},
    }
}

/// The best as it stands once `cand` has been recorded under the pointer
/// row `id`: the four compared values are the candidate's own.
pub open spec fn recorded(id: i64, cand: SubmissionView) -> BestView {
    BestView {
        id,
        score: cand.score,
        rank: cand.rank,
        kind: cand.clear_kind,
        flare: cand.flare_rank,
    }
}

/// A result handed in again after it became the best changes nothing: it
/// equals the record on every axis, and only a strictly better value counts.
pub proof fn law_resubmission_is_not_better(id: i64, cand: SubmissionView)
    ensures
        !improves(recorded(id, cand), cand),
        !supersedes(Some(recorded(id, cand)), cand),
{
}

} // verus!
