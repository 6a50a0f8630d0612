//! The delete-or-report decision.
//!
//! After the match set has been presented and the user has picked a subset
//! and answered the confirmation prompt, exactly one of three things may
//! happen: nothing (the confirmation was declined), a dry-run report of
//! the selected paths, or their deletion. This module makes that decision
//! from the three inputs alone; carrying it out is the caller's task.

use vstd::prelude::*;

verus! {

/// What is to be done with the selected paths.
pub enum Plan {
    /// Deletion was declined: touch nothing and say so.
    Abort,
    /// Dry run: report each listed path as one that would be removed,
    /// without touching it.
    Simulate(Vec<String>),
    /// Remove each listed path, reporting it as it goes.
    Delete(Vec<String>),
}

/// The decision: a declined confirmation aborts; a confirmed run reports
/// the selection in simulate mode and deletes it otherwise.
pub open spec fn spec_decide(confirmed: bool, simulate: bool, selected: Vec<String>) -> Plan {
    if !confirmed {
        Plan::Abort
    } else if simulate {
        Plan::Simulate(selected)
    } else {
        Plan::Delete(selected)
    }
}

/// Turns the user's selection, confirmation answer and run mode into the
/// plan to carry out.
pub fn decide(confirmed: bool, simulate: bool, selected: Vec<String>) -> (plan: Plan)
    ensures
        plan == spec_decide(confirmed, simulate, selected),
{
    if !confirmed {
        Plan::Abort
    } else if simulate {
        Plan::Simulate(selected)
    } else {
        Plan::Delete(selected)
    }
}

/// A plan deletes files only through its `Delete` arm.
pub open spec fn plan_deletes(plan: Plan) -> bool {
    plan is Delete
}

/// A run in simulate mode never deletes a file, whatever was selected and
/// however the confirmation was answered.
pub proof fn lemma_simulate_never_deletes(confirmed: bool, selected: Vec<String>)
    ensures
        !plan_deletes(spec_decide(confirmed, true, selected)),
{
}

/// A declined confirmation never deletes a file, whatever was selected and
/// whatever the run mode: the plan is to do nothing at all.
pub proof fn lemma_decline_never_deletes(simulate: bool, selected: Vec<String>)
    ensures
        spec_decide(false, simulate, selected) == Plan::Abort,
        !plan_deletes(spec_decide(false, simulate, selected)),
{
}

/// A confirmed plan carries the selected paths through unchanged: it
/// reports or deletes exactly what was selected, in the order the picker
/// returned it.
pub proof fn lemma_plan_keeps_selection(confirmed: bool, simulate: bool, selected: Vec<String>)
    requires
        confirmed,
    ensures
        simulate ==> spec_decide(confirmed, simulate, selected) == Plan::Simulate(selected),
        !simulate ==> spec_decide(confirmed, simulate, selected) == Plan::Delete(selected),
{
}

} // verus!
