//! Blame attribution for invocation errors.
//!
//! When an invocation resolves with an error, the embedding program marks
//! the active trace span with the rendered message and, optionally, with
//! which side of the sandbox boundary most likely caused the failure.

use vstd::prelude::*;

verus! {

/// Whether an error is more likely caused by the guest or by the host.
///
/// Useful to filter errors in telemetry or logging systems.
#[derive(Clone, Copy, Debug, PartialEq, Eq, Structural)]
pub enum Blame {
    /// The error is most likely caused by the guest.
    Guest,
    /// The error might have been caused by the host.
    Host,
}

impl Blame {
    /// The value this blame renders to.
    pub open spec fn spec_str(self) -> Seq<char> {
        match self {
            Blame::Guest => "guest"@,
            Blame::Host => "host"@,
        }
    }

    /// The attribute value recorded on the trace span.
    pub fn as_str(&self) -> (s: &'static str)
        ensures
            s@ == self.spec_str(),
    {
        match self {
            Blame::Guest => "guest",
            Blame::Host => "host",
        }
    }
}

} // verus!
