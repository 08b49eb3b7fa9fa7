use vstd::prelude::*;

verus! {

/// How an external process ended.
#[derive(Clone, Copy, Debug, PartialEq, Eq, Structural)]
pub enum ExitOutcome {
    /// The process exited on its own with this code.
    Exited(u32),
    /// The process was killed by this signal.
    Signaled(u8),
    /// Any other way of ending.
    Other,
}

impl ExitOutcome {
    /// Only a clean exit with code zero counts as success.
    pub open spec fn is_success_spec(self) -> bool {
        self == ExitOutcome::Exited(0)
    }

    pub fn is_success(&self) -> (r: bool)
        ensures
            r == self.is_success_spec(),
    {
        match self {
            ExitOutcome::Exited(code) => *code == 0,
            _ => false,
        }
    }
}

/// A tool ended with anything but a clean exit; carries the raw outcome.
#[derive(Clone, Copy, Debug, PartialEq, Eq, Structural)]
pub struct ExitError(pub ExitOutcome);

} // verus!
