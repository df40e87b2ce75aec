//! The closed vocabularies of a play result: chart difficulty, clear rank
//! and clear kind. Each word is recognised without regard to ASCII case and
//! carries an ordinal; for ranks and kinds a smaller ordinal is a better
//! result.

use vstd::prelude::*;
use vstd::string::*;
use crate::text::{matches_upper, upper_seq};

verus! {

/// A word that belongs to none of the vocabularies, kept as it was given.
#[derive(Debug)]
pub enum VocabError {
    UnknownDifficulty(String),
    UnknownClearRank(String),
    UnknownClearKind(String),
}

impl VocabError {
    /// The word that was not recognised.
    pub open spec fn word(self) -> Seq<char> {
        match self {
            VocabError::UnknownDifficulty(w) => w@,
            VocabError::UnknownClearRank(w) => w@,
            VocabError::UnknownClearKind(w) => w@,
        }
    }

    /// The fixed opening of the message for each kind of failure.
    pub open spec fn prefix(self) -> Seq<char> {
        match self {
            VocabError::UnknownDifficulty(_) => "Unknown difficulty "@,
            VocabError::UnknownClearRank(_) => "Unknown clear rank "@,
            VocabError::UnknownClearKind(_) => "Unknown clear kind "@,
        }
    }

    /// The message: the opening for the kind of failure, then the word.
    pub fn message(&self) -> (r: String)
        ensures
            r@ == self.prefix() + self.word(),
    {
        match self {
            VocabError::UnknownDifficulty(w) => String::from_str("Unknown difficulty ").concat(
                w.as_str(),
            ),
            VocabError::UnknownClearRank(w) => String::from_str("Unknown clear rank ").concat(
                w.as_str(),
            ),
            VocabError::UnknownClearKind(w) => String::from_str("Unknown clear kind ").concat(
                w.as_str(),
            ),
        }
    }
}

/// The five difficulties of a chart, easiest first.
#[derive(Debug, Clone, Copy, PartialEq, Eq, Structural)]
pub enum Difficulty {
    Beginner,
    Basic,
    Difficult,
    Expert,
    Challenge,
}

impl Difficulty {
    /// Position in the vocabulary: 0 for `Beginner` up to 4 for `Challenge`.
    pub open spec fn spec_ordinal(self) -> int {
        match self {
            Difficulty::Beginner => 0,
            Difficulty::Basic => 1,
            Difficulty::Difficult => 2,
            Difficulty::Expert => 3,
            Difficulty::Challenge => 4,
        }
    }

    /// The upper-case name under which the difficulty is shown.
    pub open spec fn name(self) -> Seq<char> {
        match self {
            Difficulty::Beginner => "BEGINNER"@,
            Difficulty::Basic => "BASIC"@,
            Difficulty::Difficult => "DIFFICULT"@,
            Difficulty::Expert => "EXPERT"@,
            Difficulty::Challenge => "CHALLENGE"@,
        }
    }

    /// The difficulty that a text names once folded to upper case, if any.
    pub open spec fn parse(s: Seq<char>) -> Option<Difficulty> {
        let u = upper_seq(s);
        if u == "BEGINNER"@ {
            Some(Difficulty::Beginner)
        } else if u == "BASIC"@ {
            Some(Difficulty::Basic)
        } else if u == "DIFFICULT"@ {
            Some(Difficulty::Difficult)
        } else if u == "EXPERT"@ {
            Some(Difficulty::Expert)
        } else if u == "CHALLENGE"@ {
            Some(Difficulty::Challenge)
        } else {
            None
        }
    }

    pub fn ordinal(self) -> (r: i64)
        ensures
            r == self.spec_ordinal(),
            0 <= r <= 4,
    {
        match self {
            Difficulty::Beginner => 0,
            Difficulty::Basic => 1,
            Difficulty::Difficult => 2,
            Difficulty::Expert => 3,
            Difficulty::Challenge => 4,
        }
    }

    /// Reads a difficulty, ignoring ASCII case; any other text is handed
    /// back in the error.
    pub fn from_str(s: &str) -> (r: Result<Difficulty, VocabError>)
        ensures
            match Difficulty::parse(s@) {
                Some(d) => r == Ok::<Difficulty, VocabError>(d),
                None => r matches Err(VocabError::UnknownDifficulty(w)) && w@ == s@,
            },
    {
        if matches_upper(s, "BEGINNER") {
            Ok(Difficulty::Beginner)
        } else if matches_upper(s, "BASIC") {
            Ok(Difficulty::Basic)
        } else if matches_upper(s, "DIFFICULT") {
            Ok(Difficulty::Difficult)
        } else if matches_upper(s, "EXPERT") {
            Ok(Difficulty::Expert)
        } else if matches_upper(s, "CHALLENGE") {
            Ok(Difficulty::Challenge)
        } else {
            Err(VocabError::UnknownDifficulty(String::from_str(s)))
        }
    }

    /// The name of the difficulty in upper case.
    pub fn to_string(&self) -> (r: String)
        ensures
            r@ == self.name(),
    {
        match self {
            Difficulty::Beginner => String::from_str("BEGINNER"),
            Difficulty::Basic => String::from_str("BASIC"),
            Difficulty::Difficult => String::from_str("DIFFICULT"),
            Difficulty::Expert => String::from_str("EXPERT"),
            Difficulty::Challenge => String::from_str("CHALLENGE"),
        }
    }
}

/// The letter grade of a play, best first.
#[derive(Debug, Clone, Copy, PartialEq, Eq, Structural)]
pub enum ClearRank {
    AAA,
    AAPlus,
    AA,
    AAMinus,
    APlus,
    A,
    AMinus,
    BPlus,
    B,
    BMinus,
    CPlus,
    C,
    CMinus,
    DPlus,
    D,
    E,
}

impl ClearRank {
    /// Position in the vocabulary: 0 for `AAA`, the best, up to 15 for `E`.
    pub open spec fn spec_ordinal(self) -> int {
        match self {
            ClearRank::AAA => 0,
            ClearRank::AAPlus => 1,
            ClearRank::AA => 2,
            ClearRank::AAMinus => 3,
            ClearRank::APlus => 4,
            ClearRank::A => 5,
            ClearRank::AMinus => 6,
            ClearRank::BPlus => 7,
            ClearRank::B => 8,
            ClearRank::BMinus => 9,
            ClearRank::CPlus => 10,
            ClearRank::C => 11,
            ClearRank::CMinus => 12,
            ClearRank::DPlus => 13,
            ClearRank::D => 14,
            ClearRank::E => 15,
        }
    }

    /// The rank that a text names once folded to upper case, if any.
    pub open spec fn parse(s: Seq<char>) -> Option<ClearRank> {
        let u = upper_seq(s);
        if u == "AAA"@ {
            Some(ClearRank::AAA)
        } else if u == "AA+"@ {
            Some(ClearRank::AAPlus)
        } else if u == "AA"@ {
            Some(ClearRank::AA)
        } else if u == "AA-"@ {
            Some(ClearRank::AAMinus)
        } else if u == "A+"@ {
            Some(ClearRank::APlus)
        } else if u == "A"@ {
            Some(ClearRank::A)
        } else if u == "A-"@ {
            Some(ClearRank::AMinus)
        } else if u == "B+"@ {
            Some(ClearRank::BPlus)
        } else if u == "B"@ {
            Some(ClearRank::B)
        } else if u == "B-"@ {
            Some(ClearRank::BMinus)
        } else if u == "C+"@ {
            Some(ClearRank::CPlus)
        } else if u == "C"@ {
            Some(ClearRank::C)
        } else if u == "C-"@ {
            Some(ClearRank::CMinus)
        } else if u == "D+"@ {
            Some(ClearRank::DPlus)
        } else if u == "D"@ {
            Some(ClearRank::D)
        } else if u == "E"@ {
            Some(ClearRank::E)
        } else {
            None
        }
    }

    pub fn ordinal(self) -> (r: i64)
        ensures
            r == self.spec_ordinal(),
            0 <= r <= 15,
    {
        match self {
            ClearRank::AAA => 0,
            ClearRank::AAPlus => 1,
            ClearRank::AA => 2,
            ClearRank::AAMinus => 3,
            ClearRank::APlus => 4,
            ClearRank::A => 5,
            ClearRank::AMinus => 6,
            ClearRank::BPlus => 7,
            ClearRank::B => 8,
            ClearRank::BMinus => 9,
            ClearRank::CPlus => 10,
            ClearRank::C => 11,
            ClearRank::CMinus => 12,
            ClearRank::DPlus => 13,
            ClearRank::D => 14,
            ClearRank::E => 15,
        }
    }

    /// Reads a clear rank, ignoring ASCII case; any other text is handed
    /// back in the error.
    pub fn from_str(s: &str) -> (r: Result<ClearRank, VocabError>)
        ensures
            match ClearRank::parse(s@) {
                Some(k) => r == Ok::<ClearRank, VocabError>(k),
                None => r matches Err(VocabError::UnknownClearRank(w)) && w@ == s@,
            },
    {
        if matches_upper(s, "AAA") {
            Ok(ClearRank::AAA)
        } else if matches_upper(s, "AA+") {
            Ok(ClearRank::AAPlus)
        } else if matches_upper(s, "AA") {
            Ok(ClearRank::AA)
        } else if matches_upper(s, "AA-") {
            Ok(ClearRank::AAMinus)
        } else if matches_upper(s, "A+") {
            Ok(ClearRank::APlus)
        } else if matches_upper(s, "A") {
            Ok(ClearRank::A)
        } else if matches_upper(s, "A-") {
            Ok(ClearRank::AMinus)
        } else if matches_upper(s, "B+") {
            Ok(ClearRank::BPlus)
        } else if matches_upper(s, "B") {
            Ok(ClearRank::B)
        } else if matches_upper(s, "B-") {
            Ok(ClearRank::BMinus)
        } else if matches_upper(s, "C+") {
            Ok(ClearRank::CPlus)
        } else if matches_upper(s, "C") {
            Ok(ClearRank::C)
        } else if matches_upper(s, "C-") {
            Ok(ClearRank::CMinus)
        } else if matches_upper(s, "D+") {
            Ok(ClearRank::DPlus)
        } else if matches_upper(s, "D") {
            Ok(ClearRank::D)
        } else if matches_upper(s, "E") {
            Ok(ClearRank::E)
        } else {
            Err(VocabError::UnknownClearRank(String::from_str(s)))
        }
    }
}

/// How a chart was cleared, best first.
#[derive(Debug, Clone, Copy, PartialEq, Eq, Structural)]
pub enum ClearKind {
    MFC,
    PFC,
    GFC,
    FC,
    Life4,
    Clear,
    Assisted,
    Failed,
    NoPlay,
}

impl ClearKind {
    /// Position in the vocabulary: 0 for `MFC`, the best, up to 8 for `NoPlay`.
    pub open spec fn spec_ordinal(self) -> int {
        match self {
            ClearKind::MFC => 0,
            ClearKind::PFC => 1,
            ClearKind::GFC => 2,
            ClearKind::FC => 3,
            ClearKind::Life4 => 4,
            ClearKind::Clear => 5,
            ClearKind::Assisted => 6,
            ClearKind::Failed => 7,
            ClearKind::NoPlay => 8,
        }
    }

    /// The kind that a text names once folded to upper case, if any.
    pub open spec fn parse(s: Seq<char>) -> Option<ClearKind> {
        let u = upper_seq(s);
        if u == "MFC"@ {
            Some(ClearKind::MFC)
        } else if u == "PFC"@ {
            Some(ClearKind::PFC)
        } else if u == "GFC"@ {
            Some(ClearKind::GFC)
        } else if u == "FC"@ {
            Some(ClearKind::FC)
        } else if u == "LIFE4"@ {
            Some(ClearKind::Life4)
        } else if u == "CLEAR"@ {
            Some(ClearKind::Clear)
        } else if u == "ASSISTED"@ {
            Some(ClearKind::Assisted)
        } else if u == "FAILED"@ {
            Some(ClearKind::Failed)
        } else if u == "NO PLAY"@ {
            Some(ClearKind::NoPlay)
        } else {
            None
        }
    }

    pub fn ordinal(self) -> (r: i64)
        ensures
            r == self.spec_ordinal(),
            0 <= r <= 8,
    {
        match self {
            ClearKind::MFC => 0,
            ClearKind::PFC => 1,
            ClearKind::GFC => 2,
            ClearKind::FC => 3,
            ClearKind::Life4 => 4,
            ClearKind::Clear => 5,
            ClearKind::Assisted => 6,
            ClearKind::Failed => 7,
            ClearKind::NoPlay => 8,
        }
    }

    /// Reads a clear kind, ignoring ASCII case; any other text is handed
    /// back in the error.
    pub fn from_str(s: &str) -> (r: Result<ClearKind, VocabError>)
        ensures
            match ClearKind::parse(s@) {
                Some(k) => r == Ok::<ClearKind, VocabError>(k),
                None => r matches Err(VocabError::UnknownClearKind(w)) && w@ == s@,
            },
    {
        if matches_upper(s, "MFC") {
            Ok(ClearKind::MFC)
        } else if matches_upper(s, "PFC") {
            Ok(ClearKind::PFC)
        } else if matches_upper(s, "GFC") {
            Ok(ClearKind::GFC)
        } else if matches_upper(s, "FC") {
            Ok(ClearKind::FC)
        } else if matches_upper(s, "LIFE4") {
            Ok(ClearKind::Life4)
        } else if matches_upper(s, "CLEAR") {
            Ok(ClearKind::Clear)
        } else if matches_upper(s, "ASSISTED") {
            Ok(ClearKind::Assisted)
        } else if matches_upper(s, "FAILED") {
            Ok(ClearKind::Failed)
        } else if matches_upper(s, "NO PLAY") {
            Ok(ClearKind::NoPlay)
        } else {
            Err(VocabError::UnknownClearKind(String::from_str(s)))
        }
    }
}

/// The name under which a difficulty is shown reads back as that
/// difficulty.
pub proof fn law_difficulty_name_reads_back(d: Difficulty)
    ensures
        Difficulty::parse(d.name()) == Some(d),
{
    reveal_strlit("BEGINNER");
    reveal_strlit("BASIC");
    reveal_strlit("DIFFICULT");
    reveal_strlit("EXPERT");
    reveal_strlit("CHALLENGE");
    assert(upper_seq("BEGINNER"@) =~= "BEGINNER"@);
    assert(upper_seq("BASIC"@) =~= "BASIC"@);
    assert(upper_seq("DIFFICULT"@) =~= "DIFFICULT"@);
    assert(upper_seq("EXPERT"@) =~= "EXPERT"@);
    assert(upper_seq("CHALLENGE"@) =~= "CHALLENGE"@);
    assert("DIFFICULT"@[0] != "CHALLENGE"@[0]);
}

} // verus!
