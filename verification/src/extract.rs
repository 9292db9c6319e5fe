use vstd::prelude::*;
use crate::database::{spec_has_object, DatabaseSnapshot};
use crate::errors::ExtractionError;
use crate::paths::{join_path, spec_join};

verus! {

/// One plain file of a resolved tree: its path relative to the tree root,
/// its bytes, and whether its executable permission bit is set. History and
/// version metadata have no place here.
#[derive(Debug, Clone)]
pub struct TreeEntry {
    pub path: String,
    pub contents: Vec<u8>,
    pub executable: bool,
}

/// One file write of an extraction: the absolute target, the bytes, and the
/// permission bit to set. Extraction is additive and overwriting — it plans
/// writes only, so files already in the destination but outside the tree are
/// left untouched.
#[derive(Debug)]
pub struct FileWrite {
    pub target: String,
    pub contents: Vec<u8>,
    pub executable: bool,
}

/// What a faithful extraction plan is: one write per tree entry, in order,
/// each targeting the entry's path under the destination, carrying exactly
/// the entry's bytes and permission bit.
pub open spec fn spec_is_plan(
    dest: Seq<char>,
    entries: Seq<TreeEntry>,
    plan: Seq<FileWrite>,
) -> bool {
    &&& plan.len() == entries.len()
    &&& forall|i: int|
        0 <= i < entries.len() ==> {
            &&& (#[trigger] plan[i]).target@ == spec_join(dest, entries[i].path@)
            &&& plan[i].contents@ == entries[i].contents@
            &&& plan[i].executable == entries[i].executable
        }
}

/// Plans the writes that materialize a tree into a destination directory.
pub fn plan_extraction(dest: &str, entries: Vec<TreeEntry>) -> (r: Vec<FileWrite>)
    ensures
        spec_is_plan(dest@, entries@, r@),
{
    let ghost all = entries@;
    let mut rest = entries;
    let mut plan: Vec<FileWrite> = Vec::new();
    while rest.len() > 0
        invariant
            plan@.len() + rest@.len() == all.len(),
            forall|i: int| 0 <= i < rest@.len() ==> rest@[i] == all[plan@.len() + i],
            forall|i: int|
                0 <= i < plan@.len() ==> {
                    &&& (#[trigger] plan@[i]).target@ == spec_join(dest@, all[i].path@)
                    &&& plan@[i].contents@ == all[i].contents@
                    &&& plan@[i].executable == all[i].executable
                },
        decreases rest@.len(),
    {
        let e = rest.remove(0);
        let target = join_path(dest, e.path.as_str());
        plan.push(FileWrite { target, contents: e.contents, executable: e.executable });
    }
    plan
}

/// Materializes the tree reachable from a content identifier into a
/// destination. An identifier absent from the referenced database is an
/// error — it is never silently fetched here; fetching belongs to checkout.
/// The entries are the tree the database holds under the identifier.
pub fn extract(
    db: &DatabaseSnapshot,
    oid: &String,
    dest: &str,
    entries: Vec<TreeEntry>,
) -> (r: Result<Vec<FileWrite>, ExtractionError>)
    ensures
        r is Ok <==> spec_has_object(db.objects@, oid@),
        r matches Ok(plan) ==> spec_is_plan(dest@, entries@, plan@),
        r matches Err(e) ==> e is IdentifierNotInDatabase,
{
    if !db.contains_object(oid) {
        return Err(ExtractionError::IdentifierNotInDatabase);
    }
    Ok(plan_extraction(dest, entries))
}

/// Extraction determinism: any two extraction plans over the same
/// destination and the same tree content write the same targets with the
/// same bytes and the same permission bits — extracting one identifier twice
/// into equal destinations yields identical trees.
pub proof fn lemma_extraction_deterministic(
    dest: Seq<char>,
    e1: Seq<TreeEntry>,
    e2: Seq<TreeEntry>,
    p1: Seq<FileWrite>,
    p2: Seq<FileWrite>,
)
    requires
        spec_is_plan(dest, e1, p1),
        spec_is_plan(dest, e2, p2),
        e1.len() == e2.len(),
        forall|i: int|
            0 <= i < e1.len() ==> {
                &&& (#[trigger] e1[i]).path@ == e2[i].path@
                &&& e1[i].contents@ == e2[i].contents@
                &&& e1[i].executable == e2[i].executable
            },
    ensures
        p1.len() == p2.len(),
        forall|i: int|
            0 <= i < p1.len() ==> {
                &&& (#[trigger] p1[i]).target@ == p2[i].target@
                &&& p1[i].contents@ == p2[i].contents@
                &&& p1[i].executable == p2[i].executable
            },
{
    assert forall|i: int| 0 <= i < p1.len() implies {
        &&& (#[trigger] p1[i]).target@ == p2[i].target@
        &&& p1[i].contents@ == p2[i].contents@
        &&& p1[i].executable == p2[i].executable
    } by {
        assert(e1[i].path@ == e2[i].path@);
    }
}

/// Every planned write lands inside the destination directory: its target
/// starts with the destination followed by a separator.
pub proof fn lemma_plan_stays_in_destination(
    dest: Seq<char>,
    entries: Seq<TreeEntry>,
    plan: Seq<FileWrite>,
    i: int,
)
    requires
        spec_is_plan(dest, entries, plan),
        0 <= i < plan.len(),
    ensures
        plan[i].target@.len() > dest.len(),
        plan[i].target@.subrange(0, dest.len() as int) == dest,
        plan[i].target@[dest.len() as int] == '/',
{
    reveal_strlit("/");
    assert(plan[i].target@.subrange(0, dest.len() as int) =~= dest);
}

} // verus!
