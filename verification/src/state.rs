//! The daemon's externally observable lifecycle state.

use vstd::prelude::*;

verus! {

/// Lifecycle state of the daemon. Persistable as a small positive integer
/// (1 through 5); any other integer normalizes to `Unknown`.
#[derive(Debug, Clone, Copy, PartialEq, Eq, Structural)]
pub enum DaemonState {
    Init,
    Running,
    Upgrading,
    Interrupted,
    Stopped,
    Unknown,
}

impl DaemonState {
    /// The integer form used for persisted and exported state.
    pub fn to_int(&self) -> (r: i32)
        ensures
            r == self.spec_int(),
    {
        match self {
            DaemonState::Init => 1,
            DaemonState::Running => 2,
            DaemonState::Upgrading => 3,
            DaemonState::Interrupted => 4,
            DaemonState::Stopped => 5,
            DaemonState::Unknown => 6,
        }
    }

    /// Reads a state back from its integer form; integers outside 1 through 5
    /// normalize to `Unknown`.
    pub fn from_int(i: i32) -> (r: DaemonState)
        ensures
            r == DaemonState::spec_from_int(i),
    {
        match i {
            1 => DaemonState::Init,
            2 => DaemonState::Running,
            3 => DaemonState::Upgrading,
            4 => DaemonState::Interrupted,
            5 => DaemonState::Stopped,
            _ => DaemonState::Unknown,
        }
    }

    pub open spec fn spec_int(self) -> i32 {
        match self {
            DaemonState::Init => 1,
            DaemonState::Running => 2,
            DaemonState::Upgrading => 3,
            DaemonState::Interrupted => 4,
            DaemonState::Stopped => 5,
            DaemonState::Unknown => 6,
        }
    }

    pub open spec fn spec_from_int(i: i32) -> DaemonState {
        if i == 1 {
            DaemonState::Init
        } else if i == 2 {
            DaemonState::Running
        } else if i == 3 {
            DaemonState::Upgrading
        } else if i == 4 {
            DaemonState::Interrupted
        } else if i == 5 {
            DaemonState::Stopped
        } else {
            DaemonState::Unknown
        }
    }

    /// The symbolic name, as it appears in exported daemon information.
    pub fn name(&self) -> (r: &'static str)
        ensures
            r@ == self.spec_name(),
    {
        match self {
            DaemonState::Init => "Init",
            DaemonState::Running => "Running",
            DaemonState::Upgrading => "Upgrading",
            DaemonState::Interrupted => "Interrupted",
            DaemonState::Stopped => "Stopped",
            DaemonState::Unknown => "Unknown",
        }
    }

    pub open spec fn spec_name(self) -> Seq<char> {
        match self {
            DaemonState::Init => "Init"@,
            DaemonState::Running => "Running"@,
            DaemonState::Upgrading => "Upgrading"@,
            DaemonState::Interrupted => "Interrupted"@,
            DaemonState::Stopped => "Stopped"@,
            DaemonState::Unknown => "Unknown"@,
        }
    }
}

/// Round trip through the integer form: every defined state survives
/// `from_int(to_int(s))`, and every integer outside 1 through 5 reads back
/// as `Unknown`.
pub proof fn lemma_state_int_round_trip(s: DaemonState, n: i32)
    ensures
        DaemonState::spec_from_int(s.spec_int()) == s,
        !(1 <= n <= 5) ==> DaemonState::spec_from_int(n) == DaemonState::Unknown,
{
}

} // verus!
