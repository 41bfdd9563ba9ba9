//! The two-state input mode machine: keystrokes either move the cursor
//! (`Key`) or accumulate into the command buffer (`Cmd`).

use vstd::prelude::*;

verus! {

/// Which of the two input modes is active. Exactly one is active at any
/// time; the only transition is the symmetric toggle `next`.
#[derive(Clone, Copy, Debug, PartialEq, Eq, Structural)]
pub enum InputMode {
    Cmd,
    Key,
}

impl InputMode {
    /// The three-letter tag shown at the start of the input line.
    pub fn name(&self) -> (r: &str)
        ensures
            self is Cmd ==> r@ == "cmd"@,
            self is Key ==> r@ == "mov"@,
    {
        match self {
            Self::Cmd => "cmd",
            Self::Key => "mov",
        }
    }

    /// The other mode: toggling is symmetric, so `next` is its own inverse.
    pub fn next(&self) -> (r: Self)
        ensures
            r == self.spec_next(),
    {
        match self {
            Self::Cmd => Self::Key,
            Self::Key => Self::Cmd,
        }
    }

    /// The mode reached by one toggle.
    pub open spec fn spec_next(self) -> Self {
        match self {
            Self::Cmd => Self::Key,
            Self::Key => Self::Cmd,
        }
    }
}

/// Toggling the mode twice returns to the original mode.
pub proof fn lemma_toggle_twice(m: InputMode)
    ensures
        m.spec_next().spec_next() == m,
{
}

} // verus!
