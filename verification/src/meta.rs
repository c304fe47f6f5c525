//! Process health reporting.

use vstd::prelude::*;

verus! {

/// The health of the running process, as the health endpoint reports it.
#[derive(Debug, Clone, Copy, PartialEq, Eq, Structural)]
pub enum Status {
    /// The process is healthy.
    Pass,
    /// The process is degraded but serving.
    Warn,
    /// The process is failing.
    Fail,
}

/// The body of a health report.
#[derive(Debug, Clone, Copy, PartialEq, Eq, Structural)]
pub struct HealthInfo {
    status: Status,
}

impl HealthInfo {
    /// The reported status.
    pub closed spec fn spec_status(&self) -> Status {
        self.status
    }

    /// A health report with the given status.
    pub fn new(status: Status) -> (r: HealthInfo)
        ensures
            r.spec_status() == status,
    {
        HealthInfo { status }
    }

    /// The reported status.
    pub fn status(&self) -> (r: Status)
        ensures
            r == self.spec_status(),
    {
        self.status
    }
}

} // verus!
