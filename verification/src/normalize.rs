//! Turning raw submissions into candidates: each entry's difficulty word is
//! read, its chart looked up, and what cannot be resolved is reported and
//! skipped without stopping the rest.

use vstd::prelude::*;
use vstd::string::*;
use crate::catalog::{resolve_chart, Catalog, CatalogView};
use crate::compare::{Submission, SubmissionView};
use crate::vocab::Difficulty;

verus! {

/// A submission whose chart is known: its place in the request and the chart.
#[derive(Debug, Clone, Copy, PartialEq, Eq, Structural)]
pub struct Candidate {
    pub index: usize,
    pub chart_id: i64,
}

/// What became of one entry.
pub enum Resolution {
    /// The entry names this chart.
    Chart(i64),
    /// Its difficulty is no word of the vocabulary.
    UnknownDifficulty,
    /// The difficulty was read, but the catalog has no such song or no chart
    /// of it at that difficulty.
    UnknownChart(Difficulty),
}

/// How one entry resolves against a catalog.
pub open spec fn resolution(cat: CatalogView, sub: SubmissionView) -> Resolution {
    match Difficulty::parse(sub.difficulty) {
        None => Resolution::UnknownDifficulty,
        Some(dif) => match resolve_chart(cat, sub.title, dif) {
            Some(entry) => Resolution::Chart(entry.id),
            None => Resolution::UnknownChart(dif),
        },
    }
}

/// The report for an entry whose difficulty word is unknown.
pub open spec fn difficulty_error(sub: SubmissionView) -> Seq<char> {
    "["@ + sub.title + "] Unknown difficulty: "@ + sub.difficulty
}

/// The report for an entry whose chart is unknown.
pub open spec fn chart_error(sub: SubmissionView, dif: Difficulty) -> Seq<char> {
    "Unknown song/chart: "@ + sub.title + " ("@ + dif.name() + ")"@
}

/// The candidates among the first `n` entries, in the order of the request.
pub open spec fn candidates_of(cat: CatalogView, subs: Seq<Submission>, n: int) -> Seq<Candidate>
    decreases n,
{
    if n <= 0 {
        Seq::empty()
    } else {
        let before = candidates_of(cat, subs, n - 1);
        match resolution(cat, subs[n - 1]@) {
            Resolution::Chart(chart_id) => before.push(
                Candidate { index: (n - 1) as usize, chart_id },
            ),
            _ => before,
        }
    }
}

/// The reports for the first `n` entries, in the order of the request.
pub open spec fn errors_of(cat: CatalogView, subs: Seq<Submission>, n: int) -> Seq<Seq<char>>
    decreases n,
{
    if n <= 0 {
        Seq::empty()
    } else {
        let before = errors_of(cat, subs, n - 1);
        match resolution(cat, subs[n - 1]@) {
            Resolution::Chart(_) => before,
            Resolution::UnknownDifficulty => before.push(difficulty_error(subs[n - 1]@)),
            Resolution::UnknownChart(dif) => before.push(chart_error(subs[n - 1]@, dif)),
        }
    }
}

/// The texts of a list of strings.
pub open spec fn texts(v: Seq<String>) -> Seq<Seq<char>> {
    Seq::new(v.len(), |i: int| v[i]@)
}

/// The outcome of normalising a request.
pub struct Normalized {
    pub candidates: Vec<Candidate>,
    pub errors: Vec<String>,
}

/// Resolves one entry, writing the report where it fails.
pub fn resolve_entry(cat: &Catalog, sub: &Submission) -> (r: Result<i64, String>)
    ensures
        match resolution(cat@, sub@) {
            Resolution::Chart(chart_id) => r == Ok::<i64, String>(chart_id),
            Resolution::UnknownDifficulty => r matches Err(e) && e@ == difficulty_error(sub@),
            Resolution::UnknownChart(dif) => r matches Err(e) && e@ == chart_error(sub@, dif),
        },
{
    match Difficulty::from_str(sub.difficulty.as_str()) {
        Err(_) => {
            let e = String::from_str("[").concat(sub.title.as_str()).concat(
                "] Unknown difficulty: ",
            ).concat(sub.difficulty.as_str());
            Err(e)
        },
        Ok(dif) => match cat.resolve(sub.title.as_str(), dif) {
            Some(entry) => Ok(entry.id),
            None => {
                let e = String::from_str("Unknown song/chart: ").concat(
                    sub.title.as_str(),
                ).concat(" (").concat(dif.to_string().as_str()).concat(")");
                Err(e)
            },
        },
    }
}

/// Resolves every entry of a request. Entries that resolve become
/// candidates, each with its index in `subs`; the others leave a report.
/// Both lists keep the order of the request.
pub fn normalize(subs: &Vec<Submission>, cat: &Catalog) -> (out: Normalized)
    ensures
        out.candidates@ == candidates_of(cat@, subs@, subs.len() as int),
        texts(out.errors@) == errors_of(cat@, subs@, subs.len() as int),
{
    let mut candidates: Vec<Candidate> = Vec::new();
    let mut errors: Vec<String> = Vec::new();
    let mut i: usize = 0;
    assert(texts(errors@) =~= errors_of(cat@, subs@, 0));
    while i < subs.len()
        invariant
            i <= subs.len(),
            candidates@ == candidates_of(cat@, subs@, i as int),
            texts(errors@) == errors_of(cat@, subs@, i as int),
        decreases subs.len() - i,
    {
        let ghost before = texts(errors@);
        match resolve_entry(cat, &subs[i]) {
            Ok(chart_id) => {
                candidates.push(Candidate { index: i, chart_id });
            },
            Err(e) => {
                errors.push(e);
                assert(texts(errors@) =~= before.push(e@));
            },
        }
        i = i + 1;
    }
    Normalized { candidates, errors }
}

} // verus!
