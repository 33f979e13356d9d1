//! The description of one monitored site: its display name, its URL, and its
//! remediation policy (an optional service unit to restart and an optional
//! shell command to run when the site is found unhealthy).

use vstd::prelude::*;

verus! {

/// One monitored endpoint together with its remediation policy.
///
/// A descriptor with neither `unit` nor `cmd` is valid: such a site receives
/// no remediation on failure, though the failure is still reported.
pub struct SiteDescriptor {
    /// Human-readable display name; non-empty for a well-formed descriptor.
    pub name: String,
    /// The URL to probe. Its parseability is checked when a pass is planned.
    pub url: String,
    /// Service unit to restart when the site is unhealthy, if configured.
    pub unit: Option<String>,
    /// Shell command to run when the site is unhealthy, if configured.
    pub cmd: Option<String>,
}

impl SiteDescriptor {
    /// A well-formed descriptor carries a non-empty display name.
    pub open spec fn wf(self) -> bool {
        self.name@.len() > 0
    }
}

} // verus!
