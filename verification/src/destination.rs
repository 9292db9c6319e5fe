use vstd::prelude::*;

verus! {

/// Where a checkout extracts to, decided when the repository is built.
#[derive(Debug, Clone)]
pub enum RepositoryDestination {
    /// A caller-owned directory. It outlives the operation; the system
    /// never deletes it.
    Path(String),
    /// A system-owned directory, to be allocated under a private temporary
    /// root and given this name — the last path segment of the remote's URL,
    /// for debuggability. It is deleted when the owning operation ends, on
    /// success and on failure alike.
    Ephemeral(String),
}

impl RepositoryDestination {
    /// Whether the system owns this destination and owes its deletion.
    pub open spec fn spec_is_ephemeral(self) -> bool {
        self is Ephemeral
    }

    /// Deletion duty: ephemeral destinations are deleted at the end of the
    /// owning scope; caller-supplied paths never are.
    pub fn must_cleanup(&self) -> (r: bool)
        ensures
            r == self.spec_is_ephemeral(),
    {
        match self {
            RepositoryDestination::Path(_) => false,
            RepositoryDestination::Ephemeral(_) => true,
        }
    }

    /// The concrete directory of a caller-owned destination, or the name an
    /// ephemeral one is allocated under.
    pub fn dir_name(&self) -> (r: &String)
        ensures
            (match *self {
                RepositoryDestination::Path(p) => r == p,
                RepositoryDestination::Ephemeral(n) => r == n,
            }),
    {
        match self {
            RepositoryDestination::Path(p) => p,
            RepositoryDestination::Ephemeral(n) => n,
        }
    }
}

} // verus!
