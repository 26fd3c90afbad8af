//! The error taxonomy of the tool.

use vstd::prelude::*;

verus! {

/// Every way a run can fail, from configuration to output emission.
#[derive(Clone, Copy, Debug, PartialEq, Eq, Structural)]
pub enum PeekError {
    /// Contradictory or missing program specification; nothing was started.
    Configuration,
    /// The target executable could not be launched.
    Spawn,
    /// The attach target does not exist, or the process disappeared mid-loop.
    NoSuchProcess,
    /// The interrupt handler could not be installed; fatal at startup.
    SignalSetup,
    /// The sink failed to persist or emit the finished run.
    Output,
    /// An accepted but unimplemented output format was selected.
    NotImplemented,
}

impl PeekError {
    /// A short human-readable description of the error.
    pub fn describe(&self) -> (r: &'static str)
        ensures
            *self == PeekError::Configuration ==> r@ == "missing or contradictory program specification"@,
            *self == PeekError::Spawn ==> r@ == "target executable could not be launched"@,
            *self == PeekError::NoSuchProcess ==> r@ == "no such process is running"@,
            *self == PeekError::SignalSetup ==> r@ == "could not install the interrupt handler"@,
            *self == PeekError::Output ==> r@ == "could not write the collected samples"@,
            *self == PeekError::NotImplemented ==> r@ == "output format is not implemented"@,
    {
        match self {
            PeekError::Configuration => "missing or contradictory program specification",
            PeekError::Spawn => "target executable could not be launched",
            PeekError::NoSuchProcess => "no such process is running",
            PeekError::SignalSetup => "could not install the interrupt handler",
            PeekError::Output => "could not write the collected samples",
            PeekError::NotImplemented => "output format is not implemented",
        }
    }
}

} // verus!
