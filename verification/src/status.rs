//! The two categories that items are sorted into.

use vstd::prelude::*;

verus! {

/// The category that has the focus: items still to do, or items done.
#[derive(Debug, Copy, Clone, PartialEq, Eq, Structural)]
pub enum Status {
    Todo,
    Done,
}

impl Status {
    /// The other category.
    pub open spec fn other(self) -> Status {
        match self {
            Status::Todo => Status::Done,
            Status::Done => Status::Todo,
        }
    }

    /// The other category.
    pub fn toggle(&self) -> (s: Self)
        ensures
            s == self.other(),
    {
        match self {
            Status::Todo => Status::Done,
            Status::Done => Status::Todo,
        }
    }
}

} // verus!
