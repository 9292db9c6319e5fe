use vstd::prelude::*;
use crate::destination::RepositoryDestination;
use crate::paths::{last_path_segment, spec_last_segment};
use crate::reference::GitReference;
use crate::remote::GitRemote;

verus! {

/// Where the object database for one checkout lives.
#[derive(Debug, Clone)]
pub enum DatabasePlan {
    /// Use — creating it if absent — the persistent database at this path;
    /// it outlives the checkout and later checkouts against the same path
    /// reuse everything it already holds.
    Persistent(String),
    /// Allocate a database of this name under a fresh private temporary
    /// root, and delete it with that root once extraction is done.
    Temporary(String),
}

impl DatabasePlan {
    /// Whether this database is system-owned and owes its deletion.
    pub open spec fn spec_is_temporary(self) -> bool {
        self is Temporary
    }

    /// Deletion duty: a temporary database goes with its root after the
    /// operation; a persistent one is never deleted.
    pub fn must_cleanup(&self) -> (r: bool)
        ensures
            r == self.spec_is_temporary(),
    {
        match self {
            DatabasePlan::Persistent(_) => false,
            DatabasePlan::Temporary(_) => true,
        }
    }
}

/// Everything a checkout needs decided before any network or disk work:
/// which database to use, what query resolves the reference, and where the
/// resolved tree goes.
#[derive(Debug, Clone)]
pub struct CheckoutPlan {
    pub database: DatabasePlan,
    pub query: String,
    pub dest: RepositoryDestination,
}

/// The name a temporary database is given: the file name of the destination
/// it serves — its last path segment for a caller-owned path, or the
/// allocation name of an ephemeral one.
pub open spec fn spec_temp_db_name(dest: RepositoryDestination) -> Seq<char> {
    match dest {
        RepositoryDestination::Path(p) => spec_last_segment(p@),
        RepositoryDestination::Ephemeral(n) => n@,
    }
}

/// What a faithful checkout plan for a repository says.
pub open spec fn spec_is_checkout_plan(repo: Repository, plan: CheckoutPlan) -> bool {
    &&& plan.query@ == repo.rev.spec_query()
    &&& plan.dest == repo.dest
    &&& (match repo.db_path {
        Some(db) => plan.database == DatabasePlan::Persistent(db),
        None => plan.database matches DatabasePlan::Temporary(name) && name@ == spec_temp_db_name(
            repo.dest,
        ),
    })
}

/// A remote repository pinned to one reference, with its database location
/// and extraction destination. Built once, checked out once.
#[derive(Debug, Clone)]
pub struct Repository {
    /// The remote the history comes from.
    pub repo: GitRemote,
    /// The branch, tag or revision to check out.
    pub rev: GitReference,
    /// A persistent database path; with `None`, checkout uses a temporary
    /// database and cleans it up after extraction.
    pub db_path: Option<String>,
    /// Where to extract the resolved tree.
    pub dest: RepositoryDestination,
}

impl Repository {
    /// Decides everything about this checkout: the resolution query for the
    /// reference, the database to fetch into, and the destination. Pure
    /// decision — the fetch, resolution and extraction run against this plan.
    pub fn checkout(&self) -> (r: CheckoutPlan)
        ensures
            spec_is_checkout_plan(*self, r),
    {
        let database = match &self.db_path {
            Some(db) => DatabasePlan::Persistent(db.clone()),
            None => {
                let name = match &self.dest {
                    RepositoryDestination::Path(p) => last_path_segment(p.as_str()),
                    RepositoryDestination::Ephemeral(n) => n.clone(),
                };
                DatabasePlan::Temporary(name)
            },
        };
        let dest = match &self.dest {
            RepositoryDestination::Path(p) => RepositoryDestination::Path(p.clone()),
            RepositoryDestination::Ephemeral(n) => RepositoryDestination::Ephemeral(n.clone()),
        };
        CheckoutPlan { database, query: self.rev.resolution_query(), dest }
    }
}

/// Fluent accumulation of a repository description: reference kind setters
/// are mutually exclusive and the last call wins; destination and database
/// path are overrides. Pure data assembly — no network or disk access here.
#[derive(Debug, Clone)]
pub struct RepositoryBuilder {
    pub repo: GitRemote,
    pub rev: GitReference,
    pub dest: Option<String>,
    pub db_path: Option<String>,
}

/// The builder with its reference replaced by a branch.
pub open spec fn spec_with_branch(b: RepositoryBuilder, name: String) -> RepositoryBuilder {
    RepositoryBuilder { rev: GitReference::Branch(name), ..b }
}

/// The builder with its reference replaced by a tag.
pub open spec fn spec_with_tag(b: RepositoryBuilder, name: String) -> RepositoryBuilder {
    RepositoryBuilder { rev: GitReference::Tag(name), ..b }
}

/// The builder with its reference replaced by a raw revision.
pub open spec fn spec_with_rev(b: RepositoryBuilder, rev: String) -> RepositoryBuilder {
    RepositoryBuilder { rev: GitReference::Rev(rev), ..b }
}

/// What `build` makes of a builder: the destination is the caller's path
/// when one was set, and otherwise an ephemeral directory named after the
/// last path segment of the remote's URL.
pub open spec fn spec_build(b: RepositoryBuilder) -> Repository {
    Repository {
        repo: b.repo,
        rev: b.rev,
        db_path: b.db_path,
        dest: match b.dest {
            Some(d) => RepositoryDestination::Path(d),
            None => RepositoryDestination::Ephemeral(b.repo.segments@.last()),
        },
    }
}

impl RepositoryBuilder {
    /// A builder for this remote, starting from the default branch, with no
    /// destination and no database path chosen.
    pub fn new(repo: GitRemote) -> (r: Self)
        ensures
            r.repo == repo,
            r.rev is DefaultBranch,
            r.dest is None,
            r.db_path is None,
    {
        RepositoryBuilder { repo, rev: GitReference::DefaultBranch, dest: None, db_path: None }
    }

    /// Specify the branch to check out.
    pub fn branch(self, branch: String) -> (r: Self)
        ensures
            r == spec_with_branch(self, branch),
    {
        RepositoryBuilder { rev: GitReference::Branch(branch), ..self }
    }

    /// Specify the tag to check out.
    pub fn tag(self, tag: String) -> (r: Self)
        ensures
            r == spec_with_tag(self, tag),
    {
        RepositoryBuilder { rev: GitReference::Tag(tag), ..self }
    }

    /// Specify the exact revision to check out.
    pub fn rev(self, rev: String) -> (r: Self)
        ensures
            r == spec_with_rev(self, rev),
    {
        RepositoryBuilder { rev: GitReference::Rev(rev), ..self }
    }

    /// Specify a persistent location to extract into.
    pub fn dest(self, dest: String) -> (r: Self)
        ensures
            r == (RepositoryBuilder { dest: Some(dest), ..self }),
    {
        RepositoryBuilder { dest: Some(dest), ..self }
    }

    /// Sets the path where the repository's object database is kept. With
    /// none set, checkout uses a temporary database and cleans it up after
    /// extraction.
    pub fn database(self, db_path: String) -> (r: Self)
        ensures
            r == (RepositoryBuilder { db_path: Some(db_path), ..self }),
    {
        RepositoryBuilder { db_path: Some(db_path), ..self }
    }

    /// Finalizes the description. Pure data assembly: allocating the
    /// ephemeral directory, fetching and extracting all happen later,
    /// against the plans this repository yields.
    pub fn build(self) -> (r: Repository)
        requires
            self.dest is Some || self.repo.nameable(),
        ensures
            r == spec_build(self),
    {
        let RepositoryBuilder { repo, rev, dest, db_path } = self;
        let dest = match dest {
            Some(d) => RepositoryDestination::Path(d),
            None => RepositoryDestination::Ephemeral(repo.name().clone()),
        };
        Repository { repo, rev, db_path, dest }
    }
}

/// Reference last-write-wins: choosing a tag and then a branch leaves the
/// builder resolving by the branch ref, the tag playing no further part —
/// and symmetrically the other way round.
pub proof fn lemma_reference_last_write_wins(
    b: RepositoryBuilder,
    tag_name: String,
    branch_name: String,
)
    ensures
        spec_with_branch(spec_with_tag(b, tag_name), branch_name).rev == GitReference::Branch(
            branch_name,
        ),
        spec_with_branch(spec_with_tag(b, tag_name), branch_name).rev.spec_query() == "refs/heads/"@
            + branch_name@,
        spec_with_tag(spec_with_branch(b, branch_name), tag_name).rev == GitReference::Tag(tag_name),
        spec_with_tag(spec_with_branch(b, branch_name), tag_name).rev.spec_query() == "refs/tags/"@
            + tag_name@,
{
}

/// Ephemeral cleanup: built without an explicit destination or database
/// path, a repository extracts into a system-owned directory and fetches
/// into a temporary database, and both carry the duty of deletion when the
/// owning operation ends — however it ends.
pub proof fn lemma_ephemeral_cleanup(b: RepositoryBuilder, plan: CheckoutPlan)
    requires
        b.dest is None,
        b.db_path is None,
        spec_is_checkout_plan(spec_build(b), plan),
    ensures
        spec_build(b).dest.spec_is_ephemeral(),
        plan.dest.spec_is_ephemeral(),
        plan.database.spec_is_temporary(),
{
}

/// Persistent destination survival: built with an explicit destination
/// directory, a repository extracts to exactly that path, and the system
/// never owes — nor performs — its deletion.
pub proof fn lemma_persistent_destination_survival(
    b: RepositoryBuilder,
    d: String,
    plan: CheckoutPlan,
)
    requires
        b.dest == Some(d),
        spec_is_checkout_plan(spec_build(b), plan),
    ensures
        spec_build(b).dest == RepositoryDestination::Path(d),
        plan.dest == RepositoryDestination::Path(d),
        !plan.dest.spec_is_ephemeral(),
{
}

} // verus!
