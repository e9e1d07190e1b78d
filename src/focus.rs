//! Which pane currently receives keystrokes, and how Tab and Shift-Tab move it.

use vstd::prelude::*;

verus! {

/// The pane that owns keyboard input; `Unfocused` means no pane is focused and
/// only the global bindings apply.
#[derive(Debug, Clone, Copy, PartialEq, Eq, Structural)]
pub enum FocusBlock {
    Input,
    Output,
    Error,
    Unfocused,
}

impl FocusBlock {
    /// The forward cycle: Input, Output, Error, Unfocused, and back to Input.
    pub open spec fn spec_next(self) -> FocusBlock {
        match self {
            FocusBlock::Input => FocusBlock::Output,
            FocusBlock::Output => FocusBlock::Error,
            FocusBlock::Error => FocusBlock::Unfocused,
            FocusBlock::Unfocused => FocusBlock::Input,
        }
    }

    /// The backward cycle, the forward one read in reverse.
    pub open spec fn spec_prev(self) -> FocusBlock {
        match self {
            FocusBlock::Input => FocusBlock::Unfocused,
            FocusBlock::Output => FocusBlock::Input,
            FocusBlock::Error => FocusBlock::Output,
            FocusBlock::Unfocused => FocusBlock::Error,
        }
    }

    pub fn next(&self) -> (r: FocusBlock)
        ensures
            r == self.spec_next(),
    {
        match self {
            FocusBlock::Input => FocusBlock::Output,
            FocusBlock::Output => FocusBlock::Error,
            FocusBlock::Error => FocusBlock::Unfocused,
            FocusBlock::Unfocused => FocusBlock::Input,
        }
    }

    pub fn prev(&self) -> (r: FocusBlock)
        ensures
            r == self.spec_prev(),
    {
        match self {
            FocusBlock::Input => FocusBlock::Unfocused,
            FocusBlock::Output => FocusBlock::Input,
            FocusBlock::Error => FocusBlock::Output,
            FocusBlock::Unfocused => FocusBlock::Error,
        }
    }
}

/// Moving forward then backward, or backward then forward, returns to the
/// state one started from.
pub proof fn lemma_next_prev_inverse(s: FocusBlock)
    ensures
        s.spec_next().spec_prev() == s,
        s.spec_prev().spec_next() == s,
{
}

/// Four steps forward from any state come back to it, and no fewer do.
pub proof fn lemma_cycle_length_four(s: FocusBlock)
    ensures
        s.spec_next().spec_next().spec_next().spec_next() == s,
        s.spec_next() != s,
        s.spec_next().spec_next() != s,
        s.spec_next().spec_next().spec_next() != s,
{
}

} // verus!
