//! Whether the optional outside tools (Docker, the GitHub CLI) are there
//! and working. The caller runs the probes; these functions read them.
use vstd::prelude::*;

verus! {

/// State of a tool.
#[derive(Debug, Clone, Copy, PartialEq, Eq, Structural)]
pub enum PrereqStatus {
    /// Not checked yet.
    Unknown,
    /// Installed and working (`Ok` in the tool's own words).
    Ready,
    /// Installed, not fully working (daemon down, not logged in).
    Degraded,
    /// Not installed.
    Missing,
}

/// The state of each tool.
#[derive(Debug, Clone, Copy)]
pub struct PrereqResults {
    pub docker: PrereqStatus,
    pub gh: PrereqStatus,
}

impl Default for PrereqResults {
    /// Nothing checked yet.
    fn default() -> (r: Self)
        ensures
            r.docker == PrereqStatus::Unknown,
            r.gh == PrereqStatus::Unknown,
    {
        PrereqResults { docker: PrereqStatus::Unknown, gh: PrereqStatus::Unknown }
    }
}

/// Docker from its probes: missing unless `docker --version` succeeded;
/// then working when `docker info` reached the daemon, degraded otherwise.
pub fn docker_status(version_succeeded: bool, info_succeeded: bool) -> (r: PrereqStatus)
    ensures
        r == (if !version_succeeded {
            PrereqStatus::Missing
        } else if info_succeeded {
            PrereqStatus::Ready
        } else {
            PrereqStatus::Degraded
        }),
{
    if !version_succeeded {
        PrereqStatus::Missing
    } else if info_succeeded {
        PrereqStatus::Ready
    } else {
        PrereqStatus::Degraded
    }
}

/// The GitHub CLI from `gh auth status`: `None` when it could not be run
/// (missing), else whether it succeeded (logged in) or not (degraded).
pub fn gh_status(auth_status: Option<bool>) -> (r: PrereqStatus)
    ensures
        r == match auth_status {
            None => PrereqStatus::Missing,
            Some(true) => PrereqStatus::Ready,
            Some(false) => PrereqStatus::Degraded,
        },
{
    match auth_status {
        None => PrereqStatus::Missing,
        Some(true) => PrereqStatus::Ready,
        Some(false) => PrereqStatus::Degraded,
    }
}

} // verus!
