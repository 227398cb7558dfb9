//! A change to Passivate's state made from the user interface or the session.
use vstd::prelude::*;

use crate::configuration::ConfigurationChange;
use crate::hyp::Hyp;

verus! {

/// A change to Passivate's state.
#[derive(Debug)]
pub enum PassivateStateChange<'a> {
    /// The user selected a hypothesis.
    HypSelected(&'a Hyp),
    /// The details of a hypothesis changed.
    HypDetailsChanged(&'a Hyp),
    /// The user changed a setting.
    ConfigurationChanged(ConfigurationChange),
}

/// Whether a change asks for the hypotheses to be run again: only a change
/// of settings does.
pub open spec fn change_requires_rerun(change: PassivateStateChange) -> bool {
    change is ConfigurationChanged
}

impl<'a> PassivateStateChange<'a> {
    /// Whether this change asks for the hypotheses to be run again.
    pub fn requires_rerun(&self) -> (r: bool)
        ensures
            r == change_requires_rerun(*self),
    {
        match self {
            PassivateStateChange::HypSelected(_) => false,
            PassivateStateChange::HypDetailsChanged(_) => false,
            PassivateStateChange::ConfigurationChanged(_) => true,
        }
    }
}

} // verus!
