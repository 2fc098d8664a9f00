//! The process-wide lifecycle state and its names.

use vstd::prelude::*;

verus! {

/// Where the proxy service is in its life.
#[derive(Clone, Copy, PartialEq, Eq, Debug, Structural)]
pub enum ArtiState {
    Uninitialized,
    Initialized,
    Starting,
    Running,
    Stopping,
    Stopped,
}

impl ArtiState {
    /// The name under which a state is reported.
    pub open spec fn label(self) -> Seq<char> {
        match self {
            ArtiState::Uninitialized => "Uninitialized"@,
            ArtiState::Initialized => "Initialized"@,
            ArtiState::Starting => "Starting"@,
            ArtiState::Running => "Running"@,
            ArtiState::Stopping => "Stopping"@,
            ArtiState::Stopped => "Stopped"@,
        }
    }

    /// A start request is taken up from these states only.
    pub open spec fn accepts_start(self) -> bool {
        self == ArtiState::Initialized || self == ArtiState::Stopped
    }

    /// The state's name.
    pub fn name(&self) -> (s: &'static str)
        ensures
            s@ == self.label(),
    {
        match self {
            ArtiState::Uninitialized => "Uninitialized",
            ArtiState::Initialized => "Initialized",
            ArtiState::Starting => "Starting",
            ArtiState::Running => "Running",
            ArtiState::Stopping => "Stopping",
            ArtiState::Stopped => "Stopped",
        }
    }

    /// The state's name as an owned string.
    pub fn to_string(&self) -> (s: String)
        ensures
            s@ == self.label(),
    {
        String::from_str(self.name())
    }
}

} // verus!
