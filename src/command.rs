//! What the command line asks for.
use vstd::prelude::*;
use crate::text::same_text;

verus! {

/// The operating mode of the heating.
#[derive(Debug, Clone, Copy, PartialEq, Eq, Structural)]
pub enum Mode {
    Off,
    Manual,
    Schedule,
}

impl Mode {
    /// The mode as the server writes it.
    pub open spec fn spec_literal(self) -> Seq<char> {
        match self {
            Mode::Off => seq!['O', 'F', 'F'],
            Mode::Manual => seq!['M', 'A', 'N', 'U', 'A', 'L'],
            Mode::Schedule => seq!['S', 'C', 'H', 'E', 'D', 'U', 'L', 'E'],
        }
    }

    /// The mode as the server writes it: `OFF`, `MANUAL` or `SCHEDULE`.
    pub fn literal(&self) -> (r: &'static str)
        ensures
            r@ == self.spec_literal(),
    {
        match self {
            Mode::Off => {
                proof {
                    reveal_strlit("OFF");
                    assert("OFF"@ =~= Mode::Off.spec_literal());
                }
                "OFF"
            },
            Mode::Manual => {
                proof {
                    reveal_strlit("MANUAL");
                    assert("MANUAL"@ =~= Mode::Manual.spec_literal());
                }
                "MANUAL"
            },
            Mode::Schedule => {
                proof {
                    reveal_strlit("SCHEDULE");
                    assert("SCHEDULE"@ =~= Mode::Schedule.spec_literal());
                }
                "SCHEDULE"
            },
        }
    }
}

/// The mode that a command-line word names: `off`, `manual` or `schedule`,
/// matched exactly.
pub open spec fn mode_word(w: Seq<char>) -> Option<Mode> {
    if w == seq!['o', 'f', 'f'] {
        Some(Mode::Off)
    } else if w == seq!['m', 'a', 'n', 'u', 'a', 'l'] {
        Some(Mode::Manual)
    } else if w == seq!['s', 'c', 'h', 'e', 'd', 'u', 'l', 'e'] {
        Some(Mode::Schedule)
    } else {
        None
    }
}

/// One run's command.
#[derive(Debug, Clone, PartialEq, Eq)]
pub enum Command {
    /// Print the heating status.
    ShowStatus,
    /// Switch the heating to a mode.
    SetMode(Mode),
    /// Set the target temperature to the number that the text spells; the
    /// text is yet to be read as a number.
    SetTarget(String),
}

/// The command for the argument that follows the program name, if any: none
/// shows the status, a mode word sets that mode, and anything else is a
/// target temperature.
pub fn parse_command(arg: Option<&str>) -> (r: Command)
    ensures
        arg is None ==> r is ShowStatus,
        arg matches Some(a) ==> match mode_word(a@) {
            Some(m) => r == Command::SetMode(m),
            None => r matches Command::SetTarget(t) && t@ == a@,
        },
{
    match arg {
        None => Command::ShowStatus,
        Some(a) => {
            proof {
                reveal_strlit("off");
                reveal_strlit("manual");
                reveal_strlit("schedule");
                assert("off"@ =~= seq!['o', 'f', 'f']);
                assert("manual"@ =~= seq!['m', 'a', 'n', 'u', 'a', 'l']);
                assert("schedule"@ =~= seq!['s', 'c', 'h', 'e', 'd', 'u', 'l', 'e']);
            }
            if same_text(a, "off") {
                Command::SetMode(Mode::Off)
            } else if same_text(a, "manual") {
                Command::SetMode(Mode::Manual)
            } else if same_text(a, "schedule") {
                Command::SetMode(Mode::Schedule)
            } else {
                Command::SetTarget(a.to_owned())
            }
        },
    }
}

} // verus!
