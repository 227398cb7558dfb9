//! How a hypothesis id is shown as a name.
use vstd::prelude::*;

use crate::hyp_id::HypId;
use crate::text::{join, string_views};

verus! {

/// How a hypothesis id is turned into a name.
#[derive(Debug, Clone, Eq, PartialEq)]
pub enum HypNameStrategy {
    /// The last link only, as `NameOnly`.
    Default,
    /// The last link only.
    NameOnly,
    /// The links after the package and the crate, joined with `separator`.
    QualifiedWithoutCrate { separator: String },
    /// All links, joined with `separator`.
    FullyQualified { separator: String },
}

/// The name of the hypothesis with chain `id` under `strategy`.
pub open spec fn strategy_name(strategy: HypNameStrategy, id: Seq<Seq<char>>) -> Seq<char> {
    match strategy {
        HypNameStrategy::Default => id.last(),
        HypNameStrategy::NameOnly => id.last(),
        HypNameStrategy::QualifiedWithoutCrate { separator } => join(id.skip(2), separator@),
        HypNameStrategy::FullyQualified { separator } => join(id, separator@),
    }
}

impl HypNameStrategy {
    /// The name of `id` under this strategy.
    pub fn convert(&self, id: &HypId) -> (r: String)
        ensures
            r@ == strategy_name(*self, id@),
    {
        let chain = crate::id_chain::IdChain::chain(id);
        let n = id.len();
        match self {
            HypNameStrategy::Default | HypNameStrategy::NameOnly => {
                assert(string_views(chain@)[n - 1] == chain@[n - 1]@);
                chain[n - 1].clone()
            },
            HypNameStrategy::QualifiedWithoutCrate { separator } => {
                let rest = id.without_package_crate();
                crate::text::join_strings(rest, separator.as_str())
            },
            HypNameStrategy::FullyQualified { separator } => {
                crate::text::join_strings(chain, separator.as_str())
            },
        }
    }
}

impl AsRef<HypNameStrategy> for HypNameStrategy {
    fn as_ref(&self) -> (r: &HypNameStrategy)
        ensures
            *r == *self,
    {
        self
    }
}

} // verus!
