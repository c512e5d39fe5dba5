//! The texts that a frame shows: the running score, and the notice that
//! appears once the round has ended.

use vstd::prelude::*;
use vstd::string::StringExecFns;
use crate::world::{Mode, World, WorldView};

verus! {

/// The character for one decimal digit.
pub open spec fn digit(d: nat) -> char {
    if d == 0 {
        '0'
    } else if d == 1 {
        '1'
    } else if d == 2 {
        '2'
    } else if d == 3 {
        '3'
    } else if d == 4 {
        '4'
    } else if d == 5 {
        '5'
    } else if d == 6 {
        '6'
    } else if d == 7 {
        '7'
    } else if d == 8 {
        '8'
    } else {
        '9'
    }
}

/// A number written in decimal, without leading zeros.
pub open spec fn decimal(n: nat) -> Seq<char>
    decreases n,
{
    if n < 10 {
        seq![digit(n)]
    } else {
        decimal(n / 10).push(digit(n % 10))
    }
}

/// The line that shows the score.
pub open spec fn score_text(score: nat) -> Seq<char> {
    "Score: "@ + decimal(score)
}

/// The notice shown when the round has ended.
pub open spec fn game_over_text(score: nat) -> Seq<char> {
    "You panic! Final score: "@ + decimal(score) + "\nPress <space> to restart!"@
}

/// What a frame shows besides the sprites.
#[derive(Clone, Debug, PartialEq, Eq)]
pub struct Hud {
    /// The score line; it is always shown.
    pub score_line: String,
    /// The notice of the end of the round; present when the round has ended
    /// and absent, so not to be shown, while it runs.
    pub game_over: Option<String>,
}

/// The mathematical value of a [`Hud`]: its texts as sequences of
/// characters.
pub struct HudView {
    pub score_line: Seq<char>,
    pub game_over: Option<Seq<char>>,
}

impl View for Hud {
    type V = HudView;

    open spec fn view(&self) -> HudView {
        HudView {
            score_line: self.score_line@,
            game_over: match self.game_over {
                Some(notice) => Some(notice@),
                None => None,
            },
        }
    }
}

impl WorldView {
    /// The texts that go with a world: the score line always, the notice
    /// once the round has ended and only then.
    pub open spec fn hud(self) -> HudView {
        HudView {
            score_line: score_text(self.score as nat),
            game_over: if self.mode == Mode::Stop {
                Some(game_over_text(self.score as nat))
            } else {
                None
            },
        }
    }
}

/// The text of one decimal digit.
fn digit_str(d: u32) -> (s: &'static str)
    requires
        d < 10,
    ensures
        s@ == seq![digit(d as nat)],
{
    proof {
        reveal_strlit("0");
        reveal_strlit("1");
        reveal_strlit("2");
        reveal_strlit("3");
        reveal_strlit("4");
        reveal_strlit("5");
        reveal_strlit("6");
        reveal_strlit("7");
        reveal_strlit("8");
        reveal_strlit("9");
    }
    let s = if d == 0 {
        "0"
    } else if d == 1 {
        "1"
    } else if d == 2 {
        "2"
    } else if d == 3 {
        "3"
    } else if d == 4 {
        "4"
    } else if d == 5 {
        "5"
    } else if d == 6 {
        "6"
    } else if d == 7 {
        "7"
    } else if d == 8 {
        "8"
    } else {
        "9"
    };
    assert(s@ =~= seq![digit(d as nat)]);
    s
}

/// Writes a number in decimal.
pub fn decimal_string(n: u32) -> (s: String)
    ensures
        s@ == decimal(n as nat),
    decreases n,
{
    if n < 10 {
        String::from_str(digit_str(n))
    } else {
        let mut s = decimal_string(n / 10);
        s.append(digit_str(n % 10));
        assert(s@ =~= decimal(n as nat));
        s
    }
}

impl World {
    /// Derives the texts to show from the score and the mode. The world is
    /// only read.
    pub fn hud(&self) -> (hud: Hud)
        ensures
            hud@ == self@.hud(),
    {
        let digits = decimal_string(self.score);
        let mut score_line = String::from_str("Score: ");
        score_line.append(digits.as_str());
        let game_over = if self.mode == Mode::Stop {
            let mut notice = String::from_str("You panic! Final score: ");
            notice.append(digits.as_str());
            notice.append("\nPress <space> to restart!");
            Some(notice)
        } else {
            None
        };
        Hud { score_line, game_over }
    }
}

} // verus!
