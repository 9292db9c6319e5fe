use binder::database::{DatabaseSnapshot, RefEntry};
use binder::destination::RepositoryDestination;
use binder::errors::{CheckoutError, ExtractionError, ResolutionError};
use binder::extract::{extract, plan_extraction, TreeEntry};
use binder::paths::{join_path, last_path_segment};
use binder::reference::GitReference;
use binder::remote::GitRemote;
use binder::repository::{DatabasePlan, RepositoryBuilder};

fn remote(text: &str) -> GitRemote {
    GitRemote::parse(text).expect("a well-formed URL")
}

fn db_one_ref(name: &str, oid: &str) -> DatabaseSnapshot {
    DatabaseSnapshot {
        refs: vec![RefEntry { name: name.to_string(), oid: oid.to_string() }],
        objects: vec![oid.to_string()],
    }
}

#[test]
fn can_checkout_repo() {
    let _dest = "./assets/aave-v3-core";

    let repo = RepositoryBuilder::new(remote("https://github.com/aave/aave-v3-core")).build();

    let plan = repo.checkout();
    assert_eq!(plan.query, "HEAD");
    assert!(matches!(plan.database, DatabasePlan::Temporary(ref n) if n == "aave-v3-core"));
    assert!(matches!(plan.dest, RepositoryDestination::Ephemeral(ref n) if n == "aave-v3-core"));
}

#[test]
fn url_parsing_reads_the_real_parser() {
    let r = remote("https://github.com/aave/aave-v3-core");
    assert_eq!(r.url, "https://github.com/aave/aave-v3-core");
    assert_eq!(r.segments, vec!["aave".to_string(), "aave-v3-core".to_string()]);
    assert_eq!(r.name(), "aave-v3-core");

    // The parser normalizes: a bare authority gains a trailing slash and a
    // single empty path segment.
    let bare = remote("https://example.com");
    assert_eq!(bare.url, "https://example.com/");
    assert_eq!(bare.segments, vec![String::new()]);

    assert!(matches!(
        GitRemote::parse("not a url"),
        Err(ResolutionError::MalformedUrl(ref t)) if t == "not a url"
    ));
}

#[test]
fn reference_queries_are_exact() {
    assert_eq!(GitReference::DefaultBranch.resolution_query(), "HEAD");
    assert_eq!(
        GitReference::Branch("main".to_string()).resolution_query(),
        "refs/heads/main"
    );
    assert_eq!(
        GitReference::Tag("v1.16.0".to_string()).resolution_query(),
        "refs/tags/v1.16.0"
    );
    assert_eq!(
        GitReference::Rev("0123abcd".to_string()).resolution_query(),
        "0123abcd"
    );
}

#[test]
fn reference_last_write_wins() {
    let b = RepositoryBuilder::new(remote("https://github.com/aave/aave-v3-core"))
        .tag("v1".to_string())
        .branch("main".to_string());
    assert!(matches!(b.rev, GitReference::Branch(ref n) if n == "main"));
    let repo = b.build();
    assert_eq!(repo.checkout().query, "refs/heads/main");
}

#[test]
fn ephemeral_build_owes_cleanup() {
    let repo = RepositoryBuilder::new(remote("https://github.com/aave/aave-v3-core")).build();
    assert!(repo.dest.must_cleanup());
    let plan = repo.checkout();
    assert!(plan.dest.must_cleanup());
    assert!(plan.database.must_cleanup());
}

#[test]
fn persistent_destination_is_kept() {
    let repo = RepositoryBuilder::new(remote("https://github.com/aave/aave-v3-core"))
        .dest("./assets/aave-v3-core".to_string())
        .database("./cache/aave".to_string())
        .build();
    assert!(matches!(repo.dest, RepositoryDestination::Path(ref p) if p == "./assets/aave-v3-core"));
    assert!(!repo.dest.must_cleanup());
    let plan = repo.checkout();
    assert!(matches!(plan.dest, RepositoryDestination::Path(ref p) if p == "./assets/aave-v3-core"));
    assert!(!plan.dest.must_cleanup());
    assert!(matches!(plan.database, DatabasePlan::Persistent(ref p) if p == "./cache/aave"));
    assert!(!plan.database.must_cleanup());
}

#[test]
fn temporary_database_is_named_after_the_destination() {
    let repo = RepositoryBuilder::new(remote("https://github.com/aave/aave-v3-core"))
        .dest("./assets/aave-v3-core".to_string())
        .build();
    let plan = repo.checkout();
    assert!(matches!(plan.database, DatabasePlan::Temporary(ref n) if n == "aave-v3-core"));
}

#[test]
fn resolve_finds_a_single_match() {
    let db = db_one_ref("refs/heads/main", "aaaa1111");
    let oid = db.resolve(&"refs/heads/main".to_string()).expect("resolvable");
    assert_eq!(oid, "aaaa1111");
}

#[test]
fn resolve_takes_a_bare_identifier() {
    let db = db_one_ref("refs/heads/main", "aaaa1111");
    let oid = db.resolve(&"aaaa1111".to_string()).expect("an object id resolves to itself");
    assert_eq!(oid, "aaaa1111");
}

#[test]
fn resolve_reports_ambiguity() {
    let db = DatabaseSnapshot {
        refs: vec![
            RefEntry { name: "refs/tags/v1".to_string(), oid: "aaaa".to_string() },
            RefEntry { name: "refs/tags/v1".to_string(), oid: "bbbb".to_string() },
        ],
        objects: vec!["aaaa".to_string(), "bbbb".to_string()],
    };
    assert!(matches!(
        db.resolve(&"refs/tags/v1".to_string()),
        Err(CheckoutError::AmbiguousReference)
    ));
}

#[test]
fn resolve_reports_absence() {
    let db = DatabaseSnapshot::empty();
    assert!(matches!(
        db.resolve(&"refs/heads/main".to_string()),
        Err(CheckoutError::NotFound)
    ));
}

#[test]
fn cache_idempotence_in_action() {
    // First checkout: the empty database owes a fetch.
    let empty = DatabaseSnapshot::empty();
    let query = "refs/heads/main".to_string();
    assert!(empty.needs_fetch(&query));

    // The fetch populated the database and the first checkout resolved.
    let fetched = db_one_ref("refs/heads/main", "aaaa1111");
    assert!(empty.extended_by(&fetched));
    let first = fetched.resolve(&query).expect("resolvable after fetch");

    // Second checkout against the same database: zero fetches, same id.
    assert!(!fetched.needs_fetch(&query));
    let second = fetched.resolve(&query).expect("still resolvable");
    assert_eq!(first, second);
}

#[test]
fn fetch_must_be_append_only() {
    let before = db_one_ref("refs/heads/main", "aaaa1111");
    let mut after = before.clone();
    after.objects.push("bbbb2222".to_string());
    assert!(before.extended_by(&after));
    // Dropping a cached object violates the append-only duty.
    let truncated = DatabaseSnapshot { refs: after.refs.clone(), objects: vec![] };
    assert!(!before.extended_by(&truncated));
}

#[test]
fn extraction_is_deterministic() {
    let entries = || {
        vec![
            TreeEntry { path: "contracts/A.sol".to_string(), contents: vec![1, 2, 3], executable: false },
            TreeEntry { path: "scripts/run".to_string(), contents: vec![9], executable: true },
        ]
    };
    let p1 = plan_extraction("./out", entries());
    let p2 = plan_extraction("./out", entries());
    assert_eq!(p1.len(), p2.len());
    for (a, b) in p1.iter().zip(p2.iter()) {
        assert_eq!(a.target, b.target);
        assert_eq!(a.contents, b.contents);
        assert_eq!(a.executable, b.executable);
    }
    assert_eq!(p1[0].target, "./out/contracts/A.sol");
    assert_eq!(p1[1].target, "./out/scripts/run");
    assert!(p1[1].executable);
}

#[test]
fn extraction_demands_a_cached_identifier() {
    let db = db_one_ref("refs/heads/main", "aaaa1111");
    let entries = vec![TreeEntry {
        path: "A.sol".to_string(),
        contents: vec![7],
        executable: false,
    }];
    assert!(matches!(
        extract(&db, &"missing".to_string(), "./out", entries),
        Err(ExtractionError::IdentifierNotInDatabase)
    ));
    let plan = extract(
        &db,
        &"aaaa1111".to_string(),
        "./out",
        vec![TreeEntry { path: "A.sol".to_string(), contents: vec![7], executable: false }],
    )
    .expect("cached identifier extracts");
    assert_eq!(plan.len(), 1);
    assert_eq!(plan[0].target, "./out/A.sol");
    assert_eq!(plan[0].contents, vec![7]);
}

#[test]
fn path_helpers_are_exact() {
    assert_eq!(join_path("a", "b.txt"), "a/b.txt");
    assert_eq!(last_path_segment("/x/y/z"), "z");
    assert_eq!(last_path_segment("plain"), "plain");
    assert_eq!(last_path_segment("trailing/"), "");
    assert_eq!(last_path_segment("./assets/aave-v3-core"), "aave-v3-core");
}
