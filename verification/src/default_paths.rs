//! The directories Passivate uses under a project root.
use vstd::prelude::*;

verus! {

/// The path `path` adjoined to `base`, as `camino::Utf8Path::join` gives it
/// on the target the library is built for.
pub uninterp spec fn joined_path(base: Seq<char>, path: Seq<char>) -> Seq<char>;

/// Whether `path` is absolute under Unix rules: it starts with `/`.
pub open spec fn is_unix_absolute(path: Seq<char>) -> bool {
    path.len() > 0 && path[0] == '/'
}

/// Whether `joined` is `path` adjoined to `base` as far as the Unix rules
/// that the documentation of `camino::Utf8Path::join` and
/// `std::path::PathBuf::push` shows: an absolute `path` replaces `base`, and
/// a non-empty relative `path` joined to a non-empty `base` that does not
/// end with `/` comes after `base` and a `/`. Other cases (an empty `base`,
/// one ending in `/`, an empty `path`) are not settled here.
pub open spec fn follows_unix_rules(base: Seq<char>, path: Seq<char>, joined: Seq<char>) -> bool {
    &&& is_unix_absolute(path) ==> joined == path
    &&& base.len() > 0 && base.last() != '/' && path.len() > 0 && !is_unix_absolute(path) ==> joined
        == base + seq!['/'] + path
}

/// `camino::Utf8Path::new(base).join(path)`, which defers to
/// `std::path::PathBuf::push`, together with `std::path::MAIN_SEPARATOR`,
/// the platform's path separator. Where that separator is `/` (on Unix),
/// the join follows the documented rules of `follows_unix_rules`; the rest,
/// and other platforms (Windows, with `\`), are left to the name
/// `joined_path`.
#[verifier::external_body]
fn join_path(base: &str, path: &str) -> (r: (String, char))
    ensures
        r.0@ == joined_path(base@, path@),
        r.1 == '/' ==> follows_unix_rules(base@, path@, r.0@),
{
    (camino::Utf8Path::new(base).join(path).into_string(), std::path::MAIN_SEPARATOR)
}

/// The directories Passivate uses: the project root, `.passivate` under it,
/// and `target` under that. Paths are held as their UTF-8 text.
#[derive(Debug)]
pub struct DefaultPaths {
    pub root: String,
    pub passivate: String,
    pub target: String,
}

impl DefaultPaths {
    /// The directories under the project root `root`.
    pub fn new(root: String) -> (r: Self)
        ensures
            r.root@ == root@,
            r.passivate@ == joined_path(root@, ".passivate"@),
            r.target@ == joined_path(joined_path(root@, ".passivate"@), "target"@),
    {
        let (passivate, _) = join_path(root.as_str(), ".passivate");
        let (target, _) = join_path(passivate.as_str(), "target");
        DefaultPaths { root, passivate, target }
    }
}

impl Clone for DefaultPaths {
    fn clone(&self) -> (r: Self)
        ensures
            r.root@ == self.root@,
            r.passivate@ == self.passivate@,
            r.target@ == self.target@,
    {
        DefaultPaths {
            root: self.root.clone(),
            passivate: self.passivate.clone(),
            target: self.target.clone(),
        }
    }
}

/// The directories used in tests: those under `testing_stub`.
pub fn stub() -> (r: DefaultPaths)
    ensures
        r.root@ == "testing_stub"@,
        r.passivate@ == joined_path("testing_stub"@, ".passivate"@),
        r.target@ == joined_path(joined_path("testing_stub"@, ".passivate"@), "target"@),
{
    DefaultPaths::new(String::from_str("testing_stub"))
}

} // verus!
