//! Which hypothesis is selected and where coverage stands.
use vstd::prelude::*;

use crate::coverage_status::CoverageStatus;
use crate::hyp_id::HypId;
use crate::passivate_state_change::PassivateStateChange;

verus! {

/// Passivate's state: the selected hypothesis, if any, and coverage.
pub struct PassivateState {
    pub selected_hyp: Option<HypId>,
    pub coverage: CoverageStatus,
}

/// The id of the selected hypothesis, if any.
pub open spec fn selected_view(s: Option<HypId>) -> Option<Seq<Seq<char>>> {
    match s {
        Some(id) => Some(id@),
        None => None,
    }
}

/// Whether the state can take `change`: a selection, or nothing. Other
/// changes are not handled by the state (the details of a hypothesis and
/// the settings are kept elsewhere).
pub open spec fn state_handles(change: Option<&PassivateStateChange>) -> bool {
    match change {
        None => true,
        Some(c) => c is HypSelected,
    }
}

impl PassivateState {
    /// Nothing selected, coverage disabled.
    pub fn new() -> (r: Self)
        ensures
            r.selected_hyp is None,
            r.coverage == CoverageStatus::Disabled,
    {
        PassivateState { selected_hyp: None, coverage: CoverageStatus::Disabled }
    }

    /// Applies `change`, if any: a selection makes that hypothesis the
    /// selected one; no change leaves the state as it is.
    pub fn update_state(&mut self, change: Option<&PassivateStateChange>)
        requires
            state_handles(change),
        ensures
            match change {
                Some(PassivateStateChange::HypSelected(hyp)) => selected_view(final(self).selected_hyp)
                    == Some(hyp.id@),
                _ => selected_view(final(self).selected_hyp) == selected_view(old(self).selected_hyp),
            },
            final(self).coverage == old(self).coverage,
    {
        if let Some(change) = change {
            self.process_change(change);
        }
    }

    fn process_change(&mut self, change: &PassivateStateChange)
        requires
            change is HypSelected,
        ensures
            match change {
                PassivateStateChange::HypSelected(hyp) => selected_view(final(self).selected_hyp)
                    == Some(hyp.id@),
                _ => false,
            },
            final(self).coverage == old(self).coverage,
    {
        match change {
            PassivateStateChange::HypSelected(hyp) => self.selected_hyp = Some(hyp.id().clone()),
            _ => {
                proof {
                    assert(false);
                }
            },
        }
    }
}

impl Default for PassivateState {
    fn default() -> (r: Self)
        ensures
            r.selected_hyp is None,
            r.coverage == CoverageStatus::Disabled,
    {
        Self::new()
    }
}

} // verus!
