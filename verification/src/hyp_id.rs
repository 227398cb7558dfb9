//! The identity of a hypothesis (a test): its package, its crate and the
//! module path and name within the crate.
use std::ops::Deref;

use vstd::prelude::*;

use crate::crate_id::CrateId;
use crate::hyp_name_strategy::{strategy_name, HypNameStrategy};
use crate::id_chain::IdChain;
use crate::package_id::PackageId;
use crate::text::{
    ends_with_separator, has_prefix, join, lemma_join_prepend, lemma_join_split_path_terminator,
    lemma_split_from_first, lemma_split_from_nonempty, separator_at, split_on_path_separator,
    split_path, split_path_terminator, split_terminator_on_path_separator, string_views,
};

verus! {

/// The chain `[package, crate, path..., name]` that identifies a hypothesis.
#[derive(Debug, Eq, PartialEq, Hash)]
pub struct HypId {
    parts: Vec<String>,
}

/// The chain of a hypothesis called `hyp_name` (a `::`-separated path)
/// in the given package and crate.
pub open spec fn hyp_chain(package_id: Seq<char>, crate_id: Seq<char>, hyp_name: Seq<char>) -> Seq<
    Seq<char>,
> {
    seq![package_id, crate_id] + split_path_terminator(hyp_name)
}

/// The chain of the test function at `function_path` (a full path such as
/// `my_crate::tests::my_test`): a leading segment equal to the crate name is
/// dropped from the name, as it is already in the chain.
pub open spec fn test_chain(package_name: Seq<char>, crate_name: Seq<char>, function_path: Seq<char>) -> Seq<
    Seq<char>,
> {
    if split_path(function_path)[0] == crate_name {
        hyp_chain(
            package_name,
            crate_name,
            function_path.subrange(crate_name.len() + 2 as int, function_path.len() as int),
        )
    } else {
        hyp_chain(package_name, crate_name, function_path)
    }
}

/// The fully qualified name (joined with `::`) of the hypothesis `hyp_name`
/// in a package and crate is `package::crate::hyp_name`, for a non-empty
/// name that does not end with `::`.
pub proof fn lemma_fully_qualified_new(package_id: Seq<char>, crate_id: Seq<char>, hyp_name: Seq<char>)
    requires
        hyp_name.len() > 0,
        !ends_with_separator(hyp_name),
    ensures
        join(hyp_chain(package_id, crate_id, hyp_name), "::"@) == package_id + "::"@ + crate_id
            + "::"@ + hyp_name,
{
    lemma_join_split_path_terminator(hyp_name);
    let pieces = split_path_terminator(hyp_name);
    let chain = hyp_chain(package_id, crate_id, hyp_name);
    assert(chain =~= seq![package_id] + (seq![crate_id] + pieces));
    lemma_join_prepend(crate_id, pieces, "::"@);
    lemma_join_prepend(package_id, seq![crate_id] + pieces, "::"@);
    assert(package_id + "::"@ + (crate_id + "::"@ + hyp_name) =~= package_id + "::"@ + crate_id
        + "::"@ + hyp_name);
}

/// The name without package and crate, joined with `::`, of the hypothesis
/// `hyp_name` is `hyp_name` itself, for a non-empty name that does not end
/// with `::`.
pub proof fn lemma_qualified_without_crate_new(
    package_id: Seq<char>,
    crate_id: Seq<char>,
    hyp_name: Seq<char>,
    separator: String,
)
    requires
        hyp_name.len() > 0,
        !ends_with_separator(hyp_name),
        separator@ == "::"@,
    ensures
        strategy_name(
            HypNameStrategy::QualifiedWithoutCrate { separator },
            hyp_chain(package_id, crate_id, hyp_name),
        ) == hyp_name,
{
    lemma_join_split_path_terminator(hyp_name);
    assert(hyp_chain(package_id, crate_id, hyp_name).skip(2) =~= split_path_terminator(hyp_name));
}

/// The fully qualified name (joined with `::`) of a test's id is the
/// package name, `::`, and the test function's full path, when that path
/// starts with the crate name; otherwise the crate name comes between them.
/// The path must not be empty nor end with `::`.
pub proof fn lemma_test_id_fully_qualified(package_name: Seq<char>, crate_name: Seq<char>, function_path: Seq<char>)
    requires
        function_path.len() > 0,
        !ends_with_separator(function_path),
        function_path != crate_name,
    ensures
        join(test_chain(package_name, crate_name, function_path), "::"@) == (if split_path(
            function_path,
        )[0] == crate_name {
            package_name + "::"@ + function_path
        } else {
            package_name + "::"@ + crate_name + "::"@ + function_path
        }),
{
    reveal_strlit("::");
    if split_path(function_path)[0] == crate_name {
        lemma_split_from_nonempty(function_path, 0, 0);
        lemma_split_from_first(function_path, 0, 0);
        if split_path(function_path).len() == 1 {
            assert(function_path.subrange(0, function_path.len() as int) =~= function_path);
        }
        let k = crate_name.len() as int;
        let rest = function_path.subrange(k + 2, function_path.len() as int);
        assert(separator_at(function_path, k));
        if rest.len() == 0 {
            assert(separator_at(function_path, function_path.len() - 2));
        }
        if ends_with_separator(rest) {
            assert(separator_at(function_path, function_path.len() - 2));
        }
        lemma_fully_qualified_new(package_name, crate_name, rest);
        assert(function_path =~= crate_name + "::"@ + rest);
        assert(package_name + "::"@ + crate_name + "::"@ + rest =~= package_name + "::"@
            + function_path);
    } else {
        lemma_fully_qualified_new(package_name, crate_name, function_path);
    }
}

impl View for HypId {
    type V = Seq<Seq<char>>;

    closed spec fn view(&self) -> Seq<Seq<char>> {
        string_views(self.parts@)
    }
}

impl HypId {
    #[verifier::type_invariant]
    spec fn well_formed(self) -> bool {
        self.parts@.len() >= 2
    }

    /// The hypothesis `hyp_name` (a `::`-separated path within the crate;
    /// a trailing `::` is ignored) of the given package and crate.
    pub fn new(package_id: &str, crate_id: &str, hyp_name: &str) -> (r: Self)
        ensures
            r@ == hyp_chain(package_id@, crate_id@, hyp_name@),
    {
        let mut name_parts = split_terminator_on_path_separator(hyp_name);
        let mut parts: Vec<String> = Vec::new();
        parts.push(String::from_str(package_id));
        parts.push(String::from_str(crate_id));
        let ghost first_two = parts@;
        let ghost rest = name_parts@;
        parts.append(&mut name_parts);
        proof {
            assert(parts@ == first_two + rest);
            assert(string_views(parts@) =~= seq![package_id@, crate_id@] + string_views(rest));
        }
        HypId { parts }
    }

    /// The id of the test function at `function_path` in the given package
    /// and crate, as the `test_id!` macro of the test helpers builds it from
    /// the package name, the crate name and the function's full path.
    pub fn from_test_path(package_name: &str, crate_name: &str, function_path: &str) -> (r: Self)
        requires
            function_path@ != crate_name@,
        ensures
            r@ == test_chain(package_name@, crate_name@, function_path@),
    {
        let pieces = split_on_path_separator(function_path);
        proof {
            lemma_split_from_nonempty(function_path@, 0, 0);
            lemma_split_from_first(function_path@, 0, 0);
        }
        if pieces[0].as_str().unicode_len() == crate_name.unicode_len() && crate::text::starts_with(
            pieces[0].as_str(),
            crate_name,
        ) {
            proof {
                assert(pieces@[0]@.subrange(0, crate_name@.len() as int) == pieces@[0]@);
                assert(pieces@[0]@ == crate_name@);
                if split_path(function_path@).len() == 1 {
                    assert(function_path@.subrange(0, function_path@.len() as int)
                        =~= function_path@);
                }
            }
            let n = function_path.unicode_len();
            let rest = function_path.substring_char(crate_name.unicode_len() + 2, n);
            HypId::new(package_name, crate_name, rest)
        } else {
            proof {
                if pieces@[0]@ == crate_name@ {
                    assert(has_prefix(pieces@[0]@, crate_name@)) by {
                        assert(pieces@[0]@.subrange(0, crate_name@.len() as int) =~= pieces@[0]@);
                    }
                }
            }
            HypId::new(package_name, crate_name, function_path)
        }
    }

    /// The package the hypothesis belongs to.
    pub fn package_id(&self) -> (r: PackageId)
        ensures
            r@ == self@[0],
    {
        proof {
            use_type_invariant(self);
        }
        PackageId::from(self.parts[0].clone())
    }

    /// The crate the hypothesis is compiled in.
    pub fn crate_id(&self) -> (r: CrateId)
        ensures
            r@ == self@[1],
    {
        proof {
            use_type_invariant(self);
        }
        CrateId::from(self.parts[1].clone())
    }

    /// The package and crate links of the chain.
    pub fn package_crate_name(&self) -> (r: &[String])
        ensures
            string_views(r@) == self@.take(2),
    {
        proof {
            use_type_invariant(self);
        }
        let r = vstd::slice::slice_subrange(self.parts.as_slice(), 0, 2);
        proof {
            assert(string_views(r@) =~= self@.take(2));
        }
        r
    }

    /// The links after the package and crate: the module path and the name.
    pub fn without_package_crate(&self) -> (r: &[String])
        ensures
            string_views(r@) == self@.skip(2),
    {
        proof {
            use_type_invariant(self);
        }
        let r = vstd::slice::slice_subrange(self.parts.as_slice(), 2, self.parts.len());
        proof {
            assert(string_views(r@) =~= self@.skip(2));
        }
        r
    }

    /// The name of the hypothesis under the given strategy.
    pub fn name(&self, strategy: &HypNameStrategy) -> (r: String)
        ensures
            r@ == strategy_name(*strategy, self@),
    {
        strategy.convert(self)
    }

    /// All links of the chain joined with `separator`.
    pub fn fully_qualified(&self, separator: &str) -> (r: String)
        ensures
            r@ == crate::text::join(self@, separator@),
    {
        let strategy = HypNameStrategy::FullyQualified { separator: String::from_str(separator) };
        strategy.convert(self)
    }

    /// The number of links in the chain, which is at least two.
    pub fn len(&self) -> (r: usize)
        ensures
            r == self@.len(),
            r >= 2,
    {
        proof {
            use_type_invariant(self);
        }
        self.parts.len()
    }
}

impl Clone for HypId {
    fn clone(&self) -> (r: Self)
        ensures
            r@ == self@,
    {
        proof {
            use_type_invariant(self);
        }
        let parts = self.parts.clone();
        proof {
            assert forall|i: int| 0 <= i < parts@.len() implies parts@[i] == self.parts@[i] by {
                assert(vstd::pervasive::cloned(self.parts@[i], parts@[i]));
            }
            assert(string_views(parts@) =~= string_views(self.parts@));
        }
        HypId { parts }
    }
}

impl IdChain for HypId {
    open spec fn id_chain(&self) -> Seq<Seq<char>> {
        self@
    }

    fn chain(&self) -> (r: &[String]) {
        self.parts.as_slice()
    }
}

impl Deref for HypId {
    type Target = [String];

    fn deref(&self) -> (r: &[String])
        ensures
            string_views(r@) == self@,
    {
        self.parts.as_slice()
    }
}

} // verus!
