//! Remediation policy: which corrective actions run for an unhealthy site,
//! in which order, and how the executor's per-action results are recorded.
//!
//! Executing an action (restarting a service unit, spawning a shell command)
//! is the caller's job; this module fixes the plan and records the results.

use vstd::prelude::*;
use crate::site::SiteDescriptor;

verus! {

/// One remediation action together with its target.
pub enum RemediationAction {
    /// Restart the named service unit.
    UnitRestart(String),
    /// Run the given shell command.
    Command(String),
}

impl Clone for RemediationAction {
    fn clone(&self) -> (res: Self)
        ensures
            res == *self,
    {
        match self {
            RemediationAction::UnitRestart(u) => RemediationAction::UnitRestart(u.clone()),
            RemediationAction::Command(c) => RemediationAction::Command(c.clone()),
        }
    }
}

/// What the executor reports for one attempted action: success, or failure
/// (a spawn error or a non-zero exit) with a description.
pub enum ActionStatus {
    Success,
    Failure(String),
}

/// The recorded result of one remediation action.
pub struct RemediationResult {
    pub action: RemediationAction,
    pub succeeded: bool,
    /// Present exactly when the action failed.
    pub error_detail: Option<String>,
}

impl RemediationResult {
    /// The error detail is present exactly when the action failed.
    pub open spec fn wf(self) -> bool {
        self.succeeded <==> self.error_detail is None
    }
}

/// The actions configured for a site, in the fixed execution order: the unit
/// restart first (when a unit is configured), then the command (when one is
/// configured). A site with neither configured gets an empty plan.
pub open spec fn spec_remediation_plan(site: SiteDescriptor) -> Seq<RemediationAction> {
    let units: Seq<RemediationAction> = match site.unit {
        Some(u) => seq![RemediationAction::UnitRestart(u)],
        None => seq![],
    };
    let cmds: Seq<RemediationAction> = match site.cmd {
        Some(c) => seq![RemediationAction::Command(c)],
        None => seq![],
    };
    units + cmds
}

/// Builds the remediation plan for a site found unhealthy.
pub fn plan_remediation(site: &SiteDescriptor) -> (plan: Vec<RemediationAction>)
    ensures
        plan@ == spec_remediation_plan(*site),
{
    let mut plan: Vec<RemediationAction> = Vec::new();
    match &site.unit {
        Some(u) => {
            plan.push(RemediationAction::UnitRestart(u.clone()));
        },
        None => {},
    }
    match &site.cmd {
        Some(c) => {
            plan.push(RemediationAction::Command(c.clone()));
        },
        None => {},
    }
    proof {
        assert(plan@ =~= spec_remediation_plan(*site));
    }
    plan
}

/// Pairs each planned action with the status the executor reported for it.
/// Each result keeps its action, records success exactly when the executor
/// reported success, and carries the failure description exactly when the
/// action failed — independently of how any other action fared.
pub fn record_results(plan: &Vec<RemediationAction>, statuses: &Vec<ActionStatus>) -> (rs: Vec<
    RemediationResult,
>)
    requires
        plan@.len() == statuses@.len(),
    ensures
        rs@.len() == plan@.len(),
        forall|i: int|
            0 <= i < rs@.len() ==> {
                &&& (#[trigger] rs@[i]).action == plan@[i]
                &&& rs@[i].succeeded == (statuses@[i] is Success)
                &&& rs@[i].wf()
                &&& (statuses@[i] matches ActionStatus::Failure(m) ==> rs@[i].error_detail
                    == Some(m))
            },
{
    let mut rs: Vec<RemediationResult> = Vec::new();
    let mut i: usize = 0;
    while i < plan.len()
        invariant
            i <= plan@.len(),
            plan@.len() == statuses@.len(),
            rs@.len() == i,
            forall|j: int|
                0 <= j < i ==> {
                    &&& (#[trigger] rs@[j]).action == plan@[j]
                    &&& rs@[j].succeeded == (statuses@[j] is Success)
                    &&& rs@[j].wf()
                    &&& (statuses@[j] matches ActionStatus::Failure(m) ==> rs@[j].error_detail
                        == Some(m))
                },
        decreases plan@.len() - i,
    {
        let action = plan[i].clone();
        let result = match &statuses[i] {
            ActionStatus::Success => RemediationResult {
                action,
                succeeded: true,
                error_detail: None,
            },
            ActionStatus::Failure(m) => RemediationResult {
                action,
                succeeded: false,
                error_detail: Some(m.clone()),
            },
        };
        rs.push(result);
        i += 1;
    }
    rs
}

/// For a site with both a unit and a command configured, the remediation
/// plan holds exactly two actions: the unit restart first, then the command.
/// Together with the contract of `record_results`, both actions are recorded
/// in that order whatever each one's status — in particular even when the
/// unit restart fails.
pub proof fn lemma_both_actions_ordered(site: SiteDescriptor)
    requires
        site.unit is Some,
        site.cmd is Some,
    ensures
        spec_remediation_plan(site) == seq![
            RemediationAction::UnitRestart(site.unit->0),
            RemediationAction::Command(site.cmd->0),
        ],
{
    assert(spec_remediation_plan(site) =~= seq![
        RemediationAction::UnitRestart(site.unit->0),
        RemediationAction::Command(site.cmd->0),
    ]);
}

} // verus!
