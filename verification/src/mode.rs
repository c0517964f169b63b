//! The editing modes.

use vstd::prelude::*;

verus! {

/// How keys are read: as commands on single items, as commands on a
/// selection, or as text typed into an item.
#[derive(Debug, Copy, Clone, PartialEq, Eq, Structural)]
pub enum Mode {
    Normal,
    Visual,
    Insert,
}

impl Mode {
    /// The mode's name as the status line shows it.
    pub open spec fn name(self) -> Seq<char> {
        match self {
            Mode::Normal => "NORMAL"@,
            Mode::Visual => "VISUAL"@,
            Mode::Insert => "INSERT"@,
        }
    }

    /// The mode's name as the status line shows it.
    pub fn to_string(&self) -> (s: String)
        ensures
            s@ == self.name(),
    {
        match self {
            Mode::Normal => "NORMAL".to_owned(),
            Mode::Visual => "VISUAL".to_owned(),
            Mode::Insert => "INSERT".to_owned(),
        }
    }
}

} // verus!
