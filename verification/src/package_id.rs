//! The name of the package a hypothesis belongs to.
use std::ops::Deref;

use vstd::prelude::*;

verus! {

/// The name of a package, such as `passivate_hyp_names`.
#[derive(Debug, Eq, PartialEq, Hash)]
pub struct PackageId(String);

impl View for PackageId {
    type V = Seq<char>;

    closed spec fn view(&self) -> Seq<char> {
        self.0@
    }
}

impl PackageId {
    /// The package name as text.
    pub fn as_str(&self) -> (r: &str)
        ensures
            r@ == self@,
    {
        self.0.as_str()
    }
}

impl Clone for PackageId {
    fn clone(&self) -> (r: Self)
        ensures
            r@ == self@,
    {
        PackageId(self.0.clone())
    }
}

impl From<String> for PackageId {
    fn from(value: String) -> (r: Self)
        ensures
            r@ == value@,
    {
        PackageId(value)
    }
}

impl vstd::std_specs::convert::FromSpecImpl<String> for PackageId {
    open spec fn obeys_from_spec() -> bool {
        true
    }

    closed spec fn from_spec(v: String) -> Self {
        PackageId(v)
    }
}

impl Deref for PackageId {
    type Target = str;

    fn deref(&self) -> (r: &str)
        ensures
            r@ == self@,
    {
        self.0.as_str()
    }
}

} // verus!
