//! A health-check watchdog library: classify HTTP probe results for a list of
//! named sites, plan remediation actions for unhealthy sites, and render the
//! per-site report, all with verified contracts.

pub mod pass;
pub mod probe;
pub mod remedy;
pub mod report;
pub mod site;
