//! Rendering the per-site report block: one "[OK]" line for a healthy site;
//! for an unhealthy site a "[NOT OK]" line, the failure detail, one line per
//! remediation action taken, and a separator.

use vstd::prelude::*;
use vstd::string::StringExecFns;
use crate::probe::ProbeOutcome;
use crate::remedy::{RemediationAction, RemediationResult};

verus! {

/// The report line for a healthy site.
pub open spec fn ok_line(name: Seq<char>) -> Seq<char> {
    "[OK]     "@ + name
}

/// The headline for an unhealthy site.
pub open spec fn not_ok_line(name: Seq<char>) -> Seq<char> {
    "[NOT OK] "@ + name
}

/// The indented detail line under an unhealthy site's headline.
pub open spec fn detail_line(detail: Seq<char>) -> Seq<char> {
    "\t |"@ + detail
}

/// The indented line for one remediation action: its kind, its target, and
/// how it went.
pub open spec fn action_line(r: RemediationResult) -> Seq<char> {
    let head = match r.action {
        RemediationAction::UnitRestart(u) => "\t |Restarting unit '"@ + u@ + "'"@,
        RemediationAction::Command(c) => "\t |Running command '"@ + c@ + "'"@,
    };
    if r.succeeded {
        head + ": ok"@
    } else {
        match r.error_detail {
            Some(e) => head + ": failed: "@ + e@,
            None => head + ": failed"@,
        }
    }
}

/// The separator closing an unhealthy site's block.
pub open spec fn separator_line() -> Seq<char> {
    "\t +------------\n"@
}

/// Renders the line for one remediation action.
fn render_action(r: &RemediationResult) -> (l: String)
    ensures
        l@ == action_line(*r),
{
    let mut l: String = match &r.action {
        RemediationAction::UnitRestart(u) => {
            let mut h = "\t |Restarting unit '".to_owned();
            h.append(u.as_str());
            h.append("'");
            h
        },
        RemediationAction::Command(c) => {
            let mut h = "\t |Running command '".to_owned();
            h.append(c.as_str());
            h.append("'");
            h
        },
    };
    if r.succeeded {
        l.append(": ok");
    } else {
        match &r.error_detail {
            Some(e) => {
                l.append(": failed: ");
                l.append(e.as_str());
            },
            None => {
                l.append(": failed");
            },
        }
    }
    proof {
        assert(l@ =~= action_line(*r));
    }
    l
}

/// Renders the report block for one site's outcome. A healthy site gets a
/// single "[OK]" line. An unhealthy site gets its "[NOT OK]" headline, the
/// failure detail, one line per remediation result in order, and the
/// separator.
pub fn report_lines(outcome: &ProbeOutcome, results: &Vec<RemediationResult>) -> (lines: Vec<
    String,
>)
    requires
        outcome.healthy ==> results@.len() == 0,
    ensures
        outcome.healthy ==> lines@.len() == 1 && lines@[0]@ == ok_line(outcome.site.name@),
        !outcome.healthy ==> {
            &&& lines@.len() == 3 + results@.len()
            &&& lines@[0]@ == not_ok_line(outcome.site.name@)
            &&& lines@[1]@ == detail_line(outcome.detail@)
            &&& (forall|i: int|
                0 <= i < results@.len() ==> lines@[2 + i]@ == action_line(#[trigger] results@[i]))
            &&& lines@[lines@.len() - 1]@ == separator_line()
        },
{
    let mut lines: Vec<String> = Vec::new();
    if outcome.healthy {
        let mut l = "[OK]     ".to_owned();
        l.append(outcome.site.name.as_str());
        lines.push(l);
    } else {
        let mut head = "[NOT OK] ".to_owned();
        head.append(outcome.site.name.as_str());
        lines.push(head);
        let mut det = "\t |".to_owned();
        det.append(outcome.detail.as_str());
        lines.push(det);
        let mut i: usize = 0;
        while i < results.len()
            invariant
                i <= results@.len(),
                lines@.len() == 2 + i,
                lines@[0]@ == not_ok_line(outcome.site.name@),
                lines@[1]@ == detail_line(outcome.detail@),
                forall|j: int|
                    0 <= j < i ==> lines@[2 + j]@ == action_line(#[trigger] results@[j]),
            decreases results@.len() - i,
        {
            lines.push(render_action(&results[i]));
            i += 1;
        }
        lines.push("\t +------------\n".to_owned());
    }
    lines
}

} // verus!
