//! Periodic health checks: the three kinds of probe, and the manager that
//! keeps track of the checks that are running.

pub mod api_monitor;
pub mod monitor_manager;
pub mod port_monitor;
pub mod process_monitor;

use vstd::prelude::*;

verus! {

/// What one check found.
#[derive(Debug, Clone, PartialEq, Eq)]
pub enum CheckOutcome {
    /// The target answers as it should.
    Healthy,
    /// The target does not: a valid negative result.
    Unhealthy,
    /// The check could not be made; the text says why.
    Failed(String),
}

/// A [`CheckOutcome`] with its text as a sequence.
pub enum CheckOutcomeView {
    Healthy,
    Unhealthy,
    Failed(Seq<char>),
}

impl View for CheckOutcome {
    type V = CheckOutcomeView;

    open spec fn view(&self) -> CheckOutcomeView {
        match self {
            CheckOutcome::Healthy => CheckOutcomeView::Healthy,
            CheckOutcome::Unhealthy => CheckOutcomeView::Unhealthy,
            CheckOutcome::Failed(e) => CheckOutcomeView::Failed(e@),
        }
    }
}

/// The outcome that a probe's answer stands for.
pub open spec fn outcome_of(healthy: bool) -> CheckOutcomeView {
    if healthy {
        CheckOutcomeView::Healthy
    } else {
        CheckOutcomeView::Unhealthy
    }
}

impl CheckOutcome {
    /// The outcome that a probe's answer stands for.
    pub fn of(healthy: bool) -> (out: CheckOutcome)
        ensures
            out@ == outcome_of(healthy),
    {
        if healthy {
            CheckOutcome::Healthy
        } else {
            CheckOutcome::Unhealthy
        }
    }

    /// The outcome as a result: the probe's answer, or the reason why there
    /// is none.
    pub fn into_result(self) -> (out: Result<bool, String>)
        ensures
            match self@ {
                CheckOutcomeView::Healthy => out == Ok::<bool, String>(true),
                CheckOutcomeView::Unhealthy => out == Ok::<bool, String>(false),
                CheckOutcomeView::Failed(e) => out matches Err(message) && message@ == e,
            },
    {
        match self {
            CheckOutcome::Healthy => Ok(true),
            CheckOutcome::Unhealthy => Ok(false),
            CheckOutcome::Failed(e) => Err(e),
        }
    }
}

} // verus!
