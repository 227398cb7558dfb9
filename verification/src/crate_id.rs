//! The name of the crate a hypothesis is compiled in.
use std::ops::Deref;

use vstd::prelude::*;

verus! {

/// The name of a crate, such as `integration_tests`.
#[derive(Debug, Eq, PartialEq, Hash)]
pub struct CrateId(String);

impl View for CrateId {
    type V = Seq<char>;

    closed spec fn view(&self) -> Seq<char> {
        self.0@
    }
}

impl CrateId {
    /// The crate name as text.
    pub fn as_str(&self) -> (r: &str)
        ensures
            r@ == self@,
    {
        self.0.as_str()
    }
}

impl Clone for CrateId {
    fn clone(&self) -> (r: Self)
        ensures
            r@ == self@,
    {
        CrateId(self.0.clone())
    }
}

impl From<String> for CrateId {
    fn from(value: String) -> (r: Self)
        ensures
            r@ == value@,
    {
        CrateId(value)
    }
}

impl vstd::std_specs::convert::FromSpecImpl<String> for CrateId {
    open spec fn obeys_from_spec() -> bool {
        true
    }

    closed spec fn from_spec(v: String) -> Self {
        CrateId(v)
    }
}

impl Deref for CrateId {
    type Target = str;

    fn deref(&self) -> (r: &str)
        ensures
            r@ == self@,
    {
        self.0.as_str()
    }
}

} // verus!
