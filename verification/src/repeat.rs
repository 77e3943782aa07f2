//! Repeat modes and their fixed cycle.

use crate::text::chars_of;
use vstd::prelude::*;

verus! {

/// What happens when a track ends.
#[derive(Clone, Copy, Debug, PartialEq, Eq, Structural)]
pub enum Repeat {
    /// Play on to the last track, then stop.
    Off,
    /// Play the current track again.
    Single,
    /// Play on, and start over after the last track.
    All,
}

impl Default for Repeat {
    fn default() -> (r: Repeat)
        ensures
            r == Repeat::Off,
    {
        Repeat::Off
    }
}

impl Repeat {
    /// The mode that follows `self` in the ring Off, Single, All, Off.
    pub open spec fn successor(self) -> Repeat {
        match self {
            Repeat::Off => Repeat::Single,
            Repeat::Single => Repeat::All,
            Repeat::All => Repeat::Off,
        }
    }

    /// The name shown for the mode.
    pub open spec fn label_text(self) -> Seq<char> {
        match self {
            Repeat::Off => seq!['N', 'o', 'n', 'e'],
            Repeat::Single => seq!['S', 'i', 'n', 'g', 'l', 'e'],
            Repeat::All => seq!['A', 'l', 'l'],
        }
    }

    /// Steps once round the ring.
    pub fn next(self) -> (r: Repeat)
        ensures
            r == self.successor(),
    {
        match self {
            Repeat::Off => Repeat::Single,
            Repeat::Single => Repeat::All,
            Repeat::All => Repeat::Off,
        }
    }

    /// The mode's name as shown on screen.
    pub fn label(self) -> (s: &'static str)
        ensures
            s@ == self.label_text(),
    {
        match self {
            Repeat::Off => {
                proof {
                    reveal_strlit("None");
                }
                assert("None"@ =~= self.label_text());
                "None"
            },
            Repeat::Single => {
                proof {
                    reveal_strlit("Single");
                }
                assert("Single"@ =~= self.label_text());
                "Single"
            },
            Repeat::All => {
                proof {
                    reveal_strlit("All");
                }
                assert("All"@ =~= self.label_text());
                "All"
            },
        }
    }
}

/// Three steps round the ring lead back to the start, and no fewer do.
pub proof fn lemma_repeat_ring(r: Repeat)
    ensures
        r.successor() != r,
        r.successor().successor() != r,
        r.successor().successor().successor() == r,
        Repeat::Off.successor() == Repeat::Single,
        Repeat::Single.successor() == Repeat::All,
        Repeat::All.successor() == Repeat::Off,
{
}

/// The repeat mode that the letter `s` stands for on the command line: `n` for Off,
/// `s` for Single, `a` for All. Any other text stands for none.
pub open spec fn repeat_of(s: Seq<char>) -> Option<Repeat> {
    if s == seq!['n'] {
        Some(Repeat::Off)
    } else if s == seq!['s'] {
        Some(Repeat::Single)
    } else if s == seq!['a'] {
        Some(Repeat::All)
    } else {
        None
    }
}

/// Reads a repeat mode as it is given on the command line.
pub fn match_repeat(string: &str) -> (mode: Option<Repeat>)
    ensures
        mode == repeat_of(string@),
{
    let chars = chars_of(string);
    if chars.len() != 1 {
        return None;
    }
    let c = chars[0];
    assert(chars@ =~= seq![c]);
    if c == 'n' {
        Some(Repeat::Off)
    } else if c == 's' {
        Some(Repeat::Single)
    } else if c == 'a' {
        Some(Repeat::All)
    } else {
        assert(seq!['n'][0] == 'n' && seq!['s'][0] == 's' && seq!['a'][0] == 'a');
        None
    }
}

} // verus!
