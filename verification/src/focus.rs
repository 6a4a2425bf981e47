//! The focus cycle: which of the seven input slots currently receives input.

use vstd::prelude::*;

verus! {

/// The seven focus positions, in their cyclic order. `advance` is the only
/// forward-navigation primitive and wraps from `Send` back to `Url`.
#[derive(Clone, Copy, PartialEq, Eq, Debug, Structural)]
pub enum Focus {
    Url,
    Params,
    AuthType,
    AuthInput,
    Headers,
    Body,
    Send,
}

impl Focus {
    /// Position of this focus target in the cyclic order, 0 through 6.
    pub open spec fn index(self) -> int {
        match self {
            Focus::Url => 0,
            Focus::Params => 1,
            Focus::AuthType => 2,
            Focus::AuthInput => 3,
            Focus::Headers => 4,
            Focus::Body => 5,
            Focus::Send => 6,
        }
    }

    /// The next focus target in the cyclic order.
    pub open spec fn next(self) -> Focus {
        match self {
            Focus::Url => Focus::Params,
            Focus::Params => Focus::AuthType,
            Focus::AuthType => Focus::AuthInput,
            Focus::AuthInput => Focus::Headers,
            Focus::Headers => Focus::Body,
            Focus::Body => Focus::Send,
            Focus::Send => Focus::Url,
        }
    }

    /// Step focus forward one slot, wrapping after the last.
    pub fn advance(self) -> (r: Focus)
        ensures
            r == self.next(),
            r.index() == (self.index() + 1) % 7,
    {
        match self {
            Focus::Url => Focus::Params,
            Focus::Params => Focus::AuthType,
            Focus::AuthType => Focus::AuthInput,
            Focus::AuthInput => Focus::Headers,
            Focus::Headers => Focus::Body,
            Focus::Body => Focus::Send,
            Focus::Send => Focus::Url,
        }
    }
}

/// Cyclic closure: advancing the focus seven times returns it to where it
/// started, whichever of the seven slots that was.
pub proof fn lemma_focus_cycle(f: Focus)
    ensures
        f.next().next().next().next().next().next().next() == f,
{
}

} // verus!
