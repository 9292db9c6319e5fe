use vstd::prelude::*;
use crate::errors::CheckoutError;

verus! {

/// One entry of the database's reference table: a fully qualified ref name
/// mapped to the content identifier it points at.
#[derive(Debug, Clone)]
pub struct RefEntry {
    pub name: String,
    pub oid: String,
}

/// What the on-disk object database shows at one point in time: its reference
/// table and the content identifiers of the objects it holds. The store is
/// content-addressed and, under normal operation, append-only: a fetch adds
/// objects and never removes previously cached ones.
#[derive(Debug, Clone)]
pub struct DatabaseSnapshot {
    pub refs: Vec<RefEntry>,
    pub objects: Vec<String>,
}

/// How many entries of the reference table carry exactly this name.
pub open spec fn match_count(refs: Seq<RefEntry>, query: Seq<char>) -> nat
    decreases refs.len(),
{
    if refs.len() == 0 {
        0
    } else {
        match_count(refs.drop_last(), query) + if refs.last().name@ == query {
            1nat
        } else {
            0nat
        }
    }
}

/// The identifier of the first entry carrying this name, if any.
pub open spec fn first_match(refs: Seq<RefEntry>, query: Seq<char>) -> Option<Seq<char>>
    decreases refs.len(),
{
    if refs.len() == 0 {
        None
    } else if first_match(refs.drop_last(), query) is Some {
        first_match(refs.drop_last(), query)
    } else if refs.last().name@ == query {
        Some(refs.last().oid@)
    } else {
        None
    }
}

/// Whether the store holds an object under this identifier.
pub open spec fn spec_has_object(objects: Seq<String>, oid: Seq<char>) -> bool {
    exists|i: int| 0 <= i < objects.len() && objects[i]@ == oid
}

/// What resolving a query against a snapshot yields: more than one matching
/// ref is ambiguous; exactly one matching ref yields its identifier when the
/// object is present; with no matching ref the query itself may name an
/// object already in the store; anything else is not found.
pub open spec fn spec_resolve(db: DatabaseSnapshot, query: Seq<char>) -> Result<
    Seq<char>,
    CheckoutError,
> {
    if match_count(db.refs@, query) > 1 {
        Err(CheckoutError::AmbiguousReference)
    } else if match_count(db.refs@, query) == 1 {
        if spec_has_object(db.objects@, first_match(db.refs@, query)->0) {
            Ok(first_match(db.refs@, query)->0)
        } else {
            Err(CheckoutError::NotFound)
        }
    } else {
        if spec_has_object(db.objects@, query) {
            Ok(query)
        } else {
            Err(CheckoutError::NotFound)
        }
    }
}

/// A fetch is owed exactly when the target cannot be resolved yet; an
/// ambiguous reference is present but broken, and no fetch repairs it.
pub open spec fn spec_needs_fetch(db: DatabaseSnapshot, query: Seq<char>) -> bool {
    spec_resolve(db, query) == Err::<Seq<char>, CheckoutError>(CheckoutError::NotFound)
}

/// The second snapshot still holds every object of the first: what a fetch
/// leaves behind, since fetching only ever adds objects.
pub open spec fn spec_extends(prior: DatabaseSnapshot, later: DatabaseSnapshot) -> bool {
    forall|i: int|
        0 <= i < prior.objects@.len() ==> spec_has_object(later.objects@, prior.objects@[i]@)
}

/// A query with at least one matching ref has a first match, and conversely.
pub proof fn lemma_first_match_exists(refs: Seq<RefEntry>, query: Seq<char>)
    ensures
        match_count(refs, query) > 0 <==> first_match(refs, query) is Some,
    decreases refs.len(),
{
    if refs.len() > 0 {
        lemma_first_match_exists(refs.drop_last(), query);
    }
}

impl DatabaseSnapshot {
    /// An empty database: what a freshly created database path shows before
    /// any fetch has populated it.
    pub fn empty() -> (r: Self)
        ensures
            r.refs@.len() == 0,
            r.objects@.len() == 0,
    {
        DatabaseSnapshot { refs: Vec::new(), objects: Vec::new() }
    }

    /// Whether the store holds an object under this identifier.
    pub fn contains_object(&self, oid: &String) -> (r: bool)
        ensures
            r == spec_has_object(self.objects@, oid@),
    {
        let mut i: usize = 0;
        while i < self.objects.len()
            invariant
                0 <= i <= self.objects@.len(),
                forall|j: int| 0 <= j < i ==> self.objects@[j]@ != oid@,
            decreases self.objects@.len() - i,
        {
            if self.objects[i] == *oid {
                proof {
                    assert(self.objects@[i as int]@ == oid@);
                }
                return true;
            }
            i = i + 1;
        }
        false
    }

    /// Resolves a query to exactly one content identifier within this
    /// snapshot, reporting ambiguity and absence as the resolution rules
    /// demand.
    pub fn resolve(&self, query: &String) -> (r: Result<String, CheckoutError>)
        ensures
            (match r {
                Ok(oid) => spec_resolve(*self, query@) == Ok::<Seq<char>, CheckoutError>(oid@),
                Err(e) => spec_resolve(*self, query@) == Err::<Seq<char>, CheckoutError>(e),
            }),
    {
        let n = self.refs.len();
        let mut i: usize = 0;
        let mut count: usize = 0;
        let mut found: Option<String> = None;
        while i < n
            invariant
                n == self.refs@.len(),
                0 <= i <= n,
                count <= i,
                count as nat == match_count(self.refs@.take(i as int), query@),
                (match found {
                    Some(oid) => first_match(self.refs@.take(i as int), query@) == Some(oid@),
                    None => first_match(self.refs@.take(i as int), query@) is None,
                }),
            decreases n - i,
        {
            proof {
                assert(self.refs@.take(i as int + 1).drop_last() =~= self.refs@.take(i as int));
                assert(self.refs@.take(i as int + 1).last() == self.refs@[i as int]);
            }
            if self.refs[i].name == *query {
                count = count + 1;
                if found.is_none() {
                    found = Some(self.refs[i].oid.clone());
                }
            }
            i = i + 1;
        }
        proof {
            assert(self.refs@.take(n as int) =~= self.refs@);
            lemma_first_match_exists(self.refs@, query@);
        }
        if count > 1 {
            Err(CheckoutError::AmbiguousReference)
        } else if count == 1 {
            let oid = found.unwrap();
            if self.contains_object(&oid) {
                Ok(oid)
            } else {
                Err(CheckoutError::NotFound)
            }
        } else {
            if self.contains_object(query) {
                Ok(query.clone())
            } else {
                Err(CheckoutError::NotFound)
            }
        }
    }

    /// Whether resolving this query still requires bringing objects in from
    /// the remote. Incremental fetching hinges on this answer: when the
    /// target is already cached, no transfer happens at all.
    pub fn needs_fetch(&self, query: &String) -> (r: bool)
        ensures
            r == spec_needs_fetch(*self, query@),
    {
        match self.resolve(query) {
            Err(CheckoutError::NotFound) => true,
            _ => false,
        }
    }

    /// Checks that a later snapshot kept every object of this one: the
    /// append-only duty a fetch must honour.
    pub fn extended_by(&self, later: &DatabaseSnapshot) -> (r: bool)
        ensures
            r == spec_extends(*self, *later),
    {
        let mut i: usize = 0;
        while i < self.objects.len()
            invariant
                0 <= i <= self.objects@.len(),
                forall|j: int| 0 <= j < i ==> spec_has_object(later.objects@, self.objects@[j]@),
            decreases self.objects@.len() - i,
        {
            if !later.contains_object(&self.objects[i]) {
                return false;
            }
            i = i + 1;
        }
        true
    }
}

/// Cache idempotence: once a database snapshot resolves a query to an
/// identifier, a further checkout of the same query against the same
/// database owes no fetch and yields that same identifier.
pub proof fn lemma_cache_idempotence(db: DatabaseSnapshot, query: Seq<char>, oid: Seq<char>)
    requires
        spec_resolve(db, query) == Ok::<Seq<char>, CheckoutError>(oid),
    ensures
        !spec_needs_fetch(db, query),
        spec_resolve(db, query) == Ok::<Seq<char>, CheckoutError>(oid),
{
}

/// An extension of a database keeps every object resolvable by identifier:
/// objects a fetch already brought in are never fetched again.
pub proof fn lemma_extension_keeps_objects(
    prior: DatabaseSnapshot,
    later: DatabaseSnapshot,
    oid: Seq<char>,
)
    requires
        spec_extends(prior, later),
        spec_has_object(prior.objects@, oid),
    ensures
        spec_has_object(later.objects@, oid),
{
    let i = choose|i: int| 0 <= i < prior.objects@.len() && prior.objects@[i]@ == oid;
    assert(spec_has_object(later.objects@, prior.objects@[i]@));
}

} // verus!
