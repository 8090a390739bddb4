//! The lifecycle states of a mission.

use vstd::prelude::*;
use vstd::string::*;

verus! {

/// Where a mission stands in its lifecycle.
#[derive(Clone, Copy, Debug, PartialEq, Eq, Structural)]
pub enum MissionStatuses {
    Open,
    InProgress,
    Completed,
    Failed,
}

impl MissionStatuses {
    /// The name under which the status is stored and published.
    pub open spec fn name(self) -> Seq<char> {
        match self {
            MissionStatuses::Open => "Open"@,
            MissionStatuses::InProgress => "InProgress"@,
            MissionStatuses::Completed => "Completed"@,
            MissionStatuses::Failed => "Failed"@,
        }
    }

    /// A mission still takes crew while it is open, or after it failed and
    /// may be tried again.
    pub open spec fn recruitable(self) -> bool {
        self == MissionStatuses::Open || self == MissionStatuses::Failed
    }

    /// A mission that was completed or failed has run its course.
    pub open spec fn terminal(self) -> bool {
        self == MissionStatuses::Completed || self == MissionStatuses::Failed
    }

    /// The edges of the lifecycle: a recruitable mission can be started, and
    /// a mission in progress can be completed or failed. There are no others.
    pub open spec fn allows(self, next: MissionStatuses) -> bool {
        match next {
            MissionStatuses::Open => false,
            MissionStatuses::InProgress => self.recruitable(),
            MissionStatuses::Completed => self == MissionStatuses::InProgress,
            MissionStatuses::Failed => self == MissionStatuses::InProgress,
        }
    }

    pub fn is_recruitable(&self) -> (r: bool)
        ensures
            r == self.recruitable(),
    {
        match self {
            MissionStatuses::Open => true,
            MissionStatuses::Failed => true,
            _ => false,
        }
    }

    pub fn is_terminal(&self) -> (r: bool)
        ensures
            r == self.terminal(),
    {
        match self {
            MissionStatuses::Completed => true,
            MissionStatuses::Failed => true,
            _ => false,
        }
    }

    pub fn can_become(&self, next: MissionStatuses) -> (r: bool)
        ensures
            r == self.allows(next),
    {
        match next {
            MissionStatuses::Open => false,
            MissionStatuses::InProgress => self.is_recruitable(),
            MissionStatuses::Completed => matches!(self, MissionStatuses::InProgress),
            MissionStatuses::Failed => matches!(self, MissionStatuses::InProgress),
        }
    }

    /// The status written out by name.
    pub fn to_string(&self) -> (s: String)
        ensures
            s@ == self.name(),
    {
        match self {
            MissionStatuses::Open => String::from_str("Open"),
            MissionStatuses::InProgress => String::from_str("InProgress"),
            MissionStatuses::Completed => String::from_str("Completed"),
            MissionStatuses::Failed => String::from_str("Failed"),
        }
    }

    /// Reads a status back from its name; any other text is no status.
    pub fn parse(text: &str) -> (r: Option<MissionStatuses>)
        ensures
            match r {
                Some(status) => text@ == status.name(),
                None => forall|status: MissionStatuses| text@ != status.name(),
            },
    {
        let owned = String::from_str(text);
        if owned == String::from_str("Open") {
            Some(MissionStatuses::Open)
        } else if owned == String::from_str("InProgress") {
            Some(MissionStatuses::InProgress)
        } else if owned == String::from_str("Completed") {
            Some(MissionStatuses::Completed)
        } else if owned == String::from_str("Failed") {
            Some(MissionStatuses::Failed)
        } else {
            None
        }
    }
}

/// No two statuses share a name, so a name identifies its status.
pub proof fn status_names_differ(a: MissionStatuses, b: MissionStatuses)
    ensures
        a.name() == b.name() <==> a == b,
{
    reveal_strlit("Open");
    reveal_strlit("InProgress");
    reveal_strlit("Completed");
    reveal_strlit("Failed");
    if a != b {
        assert(a.name().len() != b.name().len() || a.name()[0] != b.name()[0]);
    }
}

} // verus!
