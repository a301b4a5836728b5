//! Values shared by the request and the storage side.

use vstd::prelude::*;
use crate::text::str_equal;

verus! {

/// How hard a finished game was.
#[derive(Clone, Copy, Debug, PartialEq, Eq)]
pub enum Difficulty {
    Easy,
    Normal,
    Hard,
}

impl Difficulty {
    /// The text that stands for this difficulty on the wire.
    pub open spec fn spec_name(self) -> Seq<char> {
        match self {
            Difficulty::Easy => "Easy"@,
            Difficulty::Normal => "Normal"@,
            Difficulty::Hard => "Hard"@,
        }
    }

    /// The difficulty that a wire text stands for; the match is exact and
    /// case-sensitive.
    pub open spec fn spec_from_name(name: Seq<char>) -> Option<Difficulty> {
        if name == "Easy"@ {
            Some(Difficulty::Easy)
        } else if name == "Normal"@ {
            Some(Difficulty::Normal)
        } else if name == "Hard"@ {
            Some(Difficulty::Hard)
        } else {
            None
        }
    }

    /// The wire text of this difficulty.
    pub fn name(&self) -> (r: &'static str)
        ensures
            r@ == self.spec_name(),
    {
        match self {
            Difficulty::Easy => "Easy",
            Difficulty::Normal => "Normal",
            Difficulty::Hard => "Hard",
        }
    }

    /// Reads a difficulty from its wire text.
    pub fn from_name(name: &str) -> (r: Option<Difficulty>)
        ensures
            r == Self::spec_from_name(name@),
    {
        if str_equal(name, "Easy") {
            Some(Difficulty::Easy)
        } else if str_equal(name, "Normal") {
            Some(Difficulty::Normal)
        } else if str_equal(name, "Hard") {
            Some(Difficulty::Hard)
        } else {
            None
        }
    }

    /// Reading back the name of a difficulty gives that difficulty.
    pub proof fn lemma_name_round_trip(d: Difficulty)
        ensures
            Self::spec_from_name(d.spec_name()) == Some(d),
    {
        reveal_strlit("Easy");
        reveal_strlit("Normal");
        reveal_strlit("Hard");
        assert("Easy"@.len() == 4 && "Normal"@.len() == 6 && "Hard"@.len() == 4);
        assert("Easy"@[0] == 'E' && "Hard"@[0] == 'H');
    }
}

} // verus!
