use vstd::prelude::*;
use vstd::string::StrSliceExecFns;
use vstd::string::StringExecFns;

verus! {

/// A symbolic reference into a remote's history: the branch, tag, or raw
/// revision to resolve, or the remote's default branch when none was chosen.
/// Exactly one kind is active at a time.
#[derive(Debug, Clone)]
pub enum GitReference {
    /// Resolve the tip of the remote's default branch.
    DefaultBranch,
    /// Resolve the tip of a named branch.
    Branch(String),
    /// Resolve a named tag.
    Tag(String),
    /// Resolve a raw revision string, i.e. a content identifier.
    Rev(String),
}

impl GitReference {
    /// The query sent to the object database when resolving this reference:
    /// a ref path for branches and tags, the literal revision string for a
    /// raw revision, and the default branch pointer when nothing was chosen.
    pub open spec fn spec_query(self) -> Seq<char> {
        match self {
            GitReference::DefaultBranch => "HEAD"@,
            GitReference::Branch(name) => "refs/heads/"@ + name@,
            GitReference::Tag(name) => "refs/tags/"@ + name@,
            GitReference::Rev(rev) => rev@,
        }
    }

    /// Maps this reference to its resolution query. A pure mapping: no disk
    /// or network access happens here.
    pub fn resolution_query(&self) -> (r: String)
        ensures
            r@ == self.spec_query(),
    {
        match self {
            GitReference::DefaultBranch => String::from_str("HEAD"),
            GitReference::Branch(name) => String::from_str("refs/heads/").concat(name.as_str()),
            GitReference::Tag(name) => String::from_str("refs/tags/").concat(name.as_str()),
            GitReference::Rev(rev) => rev.clone(),
        }
    }
}

impl Default for GitReference {
    /// With no reference ever set, resolution explicitly targets the tip of
    /// the remote's default branch.
    fn default() -> (r: Self)
        ensures
            r is DefaultBranch,
    {
        GitReference::DefaultBranch
    }
}

} // verus!
