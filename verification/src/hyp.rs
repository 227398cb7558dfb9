//! A hypothesis (a test) as the session reports it.
use vstd::prelude::*;

use crate::hyp_id::HypId;
use crate::text::string_views;

verus! {

/// The outcome of a hypothesis so far.
#[derive(Debug, Clone, Copy, PartialEq, Eq)]
pub enum HypState {
    Unknown,
    Running,
    Passed,
    Failed,
}

/// A hypothesis: its id, its state and the output it printed.
#[derive(Debug)]
pub struct Hyp {
    pub id: HypId,
    pub state: HypState,
    pub output: Vec<String>,
}

impl Hyp {
    /// A hypothesis with no output yet.
    pub fn new(id: HypId, state: HypState) -> (r: Self)
        ensures
            r.id@ == id@,
            r.state == state,
            r.output@.len() == 0,
    {
        Hyp { id, state, output: Vec::new() }
    }

    /// Its id.
    pub fn id(&self) -> (r: &HypId)
        ensures
            r@ == self.id@,
    {
        &self.id
    }

    /// Its state.
    pub fn state(&self) -> (r: HypState)
        ensures
            r == self.state,
    {
        self.state
    }

    /// Whether it printed any output.
    pub fn has_output(&self) -> (r: bool)
        ensures
            r == (self.output@.len() > 0),
    {
        self.output.len() > 0
    }
}

impl Clone for Hyp {
    fn clone(&self) -> (r: Self)
        ensures
            r.id@ == self.id@,
            r.state == self.state,
            string_views(r.output@) == string_views(self.output@),
    {
        Hyp {
            id: self.id.clone(),
            state: self.state,
            output: crate::configuration::clone_strings(&self.output),
        }
    }
}

} // verus!
