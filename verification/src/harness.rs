//! The Grok Build harness and its settings.

use std::path::PathBuf;
use std::time::Duration;
use vstd::prelude::*;
use crate::catalog::{ladder, reasoning_ladder};
use crate::executable::{
    resolve_grok_executable, search_plan, ExecutablePlan, ExecutablePlanView, SearchPlaces,
};
use crate::proto::{HarnessId, ReasoningLevel, SteeringMode};

verus! {

/// The duration of a whole number of seconds.
pub uninterp spec fn duration_of_secs(secs: u64) -> Duration;

/// `Duration::from_secs` makes the duration of a whole number of seconds, the same
/// one for the same number.
pub assume_specification[ Duration::from_secs ](secs: u64) -> (duration: Duration)
    ensures
        duration == duration_of_secs(secs),
;

/// The Grok Build harness.
pub struct GrokBuildHarness {
    executable: Option<PathBuf>,
    interrupt_grace: Duration,
    kill_grace: Duration,
}

impl Default for GrokBuildHarness {
    fn default() -> (harness: GrokBuildHarness)
        ensures
            harness.executable_path() is None,
            harness.grace_after_cancel() == duration_of_secs(2),
            harness.grace_after_term() == duration_of_secs(3),
    {
        GrokBuildHarness {
            executable: None,
            interrupt_grace: Duration::from_secs(2),
            kill_grace: Duration::from_secs(3),
        }
    }
}

impl GrokBuildHarness {
    /// The fixed CLI binary.
    pub closed spec fn executable_path(self) -> Option<PathBuf> {
        self.executable
    }

    /// The grace between `session/cancel` and the first signal.
    pub closed spec fn grace_after_cancel(self) -> Duration {
        self.interrupt_grace
    }

    /// The grace between the first signal and the second.
    pub closed spec fn grace_after_term(self) -> Duration {
        self.kill_grace
    }

    /// A harness that searches for the CLI, with the default graces.
    pub fn new() -> (harness: GrokBuildHarness)
        ensures
            harness.executable_path() is None,
            harness.grace_after_cancel() == duration_of_secs(2),
            harness.grace_after_term() == duration_of_secs(3),
    {
        Self::default()
    }

    /// Use a fixed CLI binary instead of searching for one.
    pub fn with_executable<P: Into<PathBuf>>(self, path: P) -> (harness: GrokBuildHarness)
        ensures
            exists|fixed: PathBuf|
                {
                    &&& call_ensures(P::into, (path,), fixed)
                    &&& harness.executable_path() == Some(fixed)
                },
            harness.grace_after_cancel() == self.grace_after_cancel(),
            harness.grace_after_term() == self.grace_after_term(),
    {
        GrokBuildHarness { executable: Some(path.into()), ..self }
    }

    /// Tune the timing of the escalation from a cancelled prompt to signals.
    pub fn with_graces(self, interrupt_grace: Duration, kill_grace: Duration) -> (harness:
        GrokBuildHarness)
        ensures
            harness.executable_path() == self.executable_path(),
            harness.grace_after_cancel() == interrupt_grace,
            harness.grace_after_term() == kill_grace,
    {
        GrokBuildHarness { interrupt_grace, kill_grace, ..self }
    }

    pub fn id(&self) -> (id: HarnessId)
        ensures
            id == HarnessId::GrokBuild,
    {
        HarnessId::GrokBuild
    }

    pub fn display_name(&self) -> (name: &'static str)
        ensures
            name@ == "Grok Build"@,
    {
        "Grok Build"
    }

    pub fn supports_steering(&self) -> (supported: bool)
        ensures
            supported,
    {
        true
    }

    /// The agent has no verified mid-turn steering; steers land between prompts.
    pub fn steering_mode(&self) -> (mode: SteeringMode)
        ensures
            mode == SteeringMode::TurnBoundary,
    {
        SteeringMode::TurnBoundary
    }

    pub fn reasoning_levels(&self) -> (levels: Vec<ReasoningLevel>)
        ensures
            levels@ == ladder(),
    {
        reasoning_ladder()
    }

    /// The grace between `session/cancel` and the first signal.
    pub fn interrupt_grace(&self) -> (grace: Duration)
        ensures
            grace == self.grace_after_cancel(),
    {
        self.interrupt_grace
    }

    /// The grace between the first signal and the second.
    pub fn kill_grace(&self) -> (grace: Duration)
        ensures
            grace == self.grace_after_term(),
    {
        self.kill_grace
    }

    /// Where the CLI is to be found: the fixed binary, or else what the search
    /// over the given places says.
    pub fn resolve_executable(&self, places: &SearchPlaces) -> (plan: ExecutablePlan<'_>)
        ensures
            plan@ == match self.executable_path() {
                Some(path) => ExecutablePlanView::Fixed(path),
                None => search_plan(*places),
            },
    {
        match &self.executable {
            Some(path) => ExecutablePlan::Fixed(path),
            None => resolve_grok_executable(places),
        }
    }
}

/// The order of the two setters does not matter: a fixed binary and tuned graces give
/// the same harness whichever is set first, given a conversion that gives one path for
/// one value.
pub proof fn law_setters_commute<P: Into<PathBuf>>(
    harness: GrokBuildHarness,
    path: P,
    interrupt_grace: Duration,
    kill_grace: Duration,
    fixed: GrokBuildHarness,
    fixed_then_tuned: GrokBuildHarness,
    tuned: GrokBuildHarness,
    tuned_then_fixed: GrokBuildHarness,
)
    requires
        forall|one: PathBuf, other: PathBuf|
            #![trigger call_ensures(P::into, (path,), one), call_ensures(P::into, (path,), other)]
            call_ensures(P::into, (path,), one) && call_ensures(P::into, (path,), other) ==> one
                == other,
        call_ensures(GrokBuildHarness::with_executable::<P>, (harness, path), fixed),
        call_ensures(
            GrokBuildHarness::with_graces,
            (fixed, interrupt_grace, kill_grace),
            fixed_then_tuned,
        ),
        call_ensures(
            GrokBuildHarness::with_graces,
            (harness, interrupt_grace, kill_grace),
            tuned,
        ),
        call_ensures(GrokBuildHarness::with_executable::<P>, (tuned, path), tuned_then_fixed),
    ensures
        fixed_then_tuned == tuned_then_fixed,
        fixed_then_tuned.executable_path() == tuned_then_fixed.executable_path(),
        fixed_then_tuned.grace_after_cancel() == tuned_then_fixed.grace_after_cancel(),
        fixed_then_tuned.grace_after_term() == tuned_then_fixed.grace_after_term(),
        fixed_then_tuned.grace_after_cancel() == interrupt_grace,
        fixed_then_tuned.grace_after_term() == kill_grace,
{
}

} // verus!
