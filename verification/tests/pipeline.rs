use git2::BranchType;
use git2::Repository;
use git2::Signature;
use gwipt::orchestrator::begin_change;
use gwipt::orchestrator::finish_change;
use gwipt::orchestrator::PipelineWork;
use gwipt::reconcile::prepare_wip_branch;

fn unique_path(tag: &str) -> String {
    let nanos = std::time::SystemTime::now()
        .duration_since(std::time::UNIX_EPOCH)
        .unwrap()
        .as_nanos();
    format!("/tmp/gwipt_test_{}_{}", tag, nanos)
}

fn sig() -> Signature<'static> {
    Signature::now("Test Author", "test@example.com").unwrap()
}

/// A repository whose initial commit carries an empty tree.
fn repo_with_empty_commit(tag: &str) -> Repository {
    let repo = Repository::init(unique_path(tag)).unwrap();
    repo.config().unwrap().set_str("user.name", "Test Author").unwrap();
    repo.config().unwrap().set_str("user.email", "test@example.com").unwrap();
    {
        let tree_id = repo.index().unwrap().write_tree().unwrap();
        let tree = repo.find_tree(tree_id).unwrap();
        repo.commit(Some("HEAD"), &sig(), &sig(), "initial", &tree, &[]).unwrap();
    }
    repo
}

/// A repository whose initial commit carries one file, which the (empty)
/// working tree therefore lacks.
fn repo_with_one_file_commit(tag: &str) -> Repository {
    let repo = Repository::init(unique_path(tag)).unwrap();
    repo.config().unwrap().set_str("user.name", "Test Author").unwrap();
    repo.config().unwrap().set_str("user.email", "test@example.com").unwrap();
    {
        let blob = repo.blob(b"hello\n").unwrap();
        let mut tb = repo.treebuilder(None).unwrap();
        tb.insert("f.txt", blob, 0o100644).unwrap();
        let tree = repo.find_tree(tb.write().unwrap()).unwrap();
        repo.commit(Some("HEAD"), &sig(), &sig(), "initial", &tree, &[]).unwrap();
    }
    repo
}

#[test]
fn shadow_branch_is_created_at_head() {
    let repo = repo_with_empty_commit("create");
    let head = repo.head().unwrap().peel_to_commit().unwrap().id();
    let name = prepare_wip_branch(&repo).unwrap();
    assert!(name.starts_with("wip/"));
    let tip = repo
        .find_branch(&name, BranchType::Local)
        .unwrap()
        .get()
        .peel_to_commit()
        .unwrap()
        .id();
    assert_eq!(tip, head);
    // Reconciling again changes nothing: the tips already agree.
    let name_again = prepare_wip_branch(&repo).unwrap();
    assert_eq!(name, name_again);
    let tip_again = repo
        .find_branch(&name, BranchType::Local)
        .unwrap()
        .get()
        .peel_to_commit()
        .unwrap()
        .id();
    assert_eq!(tip_again, head);
}

#[test]
fn diverged_head_is_merged_into_shadow() {
    let repo = repo_with_empty_commit("diverge");
    let original_head = repo.head().unwrap().peel_to_commit().unwrap().id();
    let name = prepare_wip_branch(&repo).unwrap();
    // Replace the tracked branch's tip with an unrelated commit, as a
    // rebase would.
    let tree_id = repo.index().unwrap().write_tree().unwrap();
    let tree = repo.find_tree(tree_id).unwrap();
    let unrelated = repo.commit(None, &sig(), &sig(), "rebased", &tree, &[]).unwrap();
    let head_ref = repo.head().unwrap().name().unwrap().to_string();
    repo.reference(&head_ref, unrelated, true, "test rewrite").unwrap();

    let name_after = prepare_wip_branch(&repo).unwrap();
    assert_eq!(name, name_after);
    let tip = repo
        .find_branch(&name, BranchType::Local)
        .unwrap()
        .get()
        .peel_to_commit()
        .unwrap();
    assert_eq!(tip.parent_count(), 2);
    assert_eq!(tip.parent_id(0).unwrap(), original_head);
    assert_eq!(tip.parent_id(1).unwrap(), unrelated);
    assert_eq!(tip.message().unwrap(), "Merge HEAD into wip/ branch");
    // The merge carries the head tree.
    assert_eq!(tip.tree_id(), tree_id);
}

#[test]
fn empty_diff_skips_the_run() {
    // The shadow tree and the (empty) working tree agree: the first half of
    // the run reports no changes, so no summary is requested and nothing is
    // committed.
    let repo = repo_with_empty_commit("noop");
    match begin_change(&repo).unwrap() {
        PipelineWork::NoChanges => (),
        PipelineWork::Ready { .. } => panic!("expected an empty diff"),
    }
    let head = repo.head().unwrap().peel_to_commit().unwrap().id();
    let tip = repo
        .find_branch("wip/master", BranchType::Local)
        .or_else(|_| repo.find_branch("wip/main", BranchType::Local))
        .unwrap()
        .get()
        .peel_to_commit()
        .unwrap()
        .id();
    assert_eq!(tip, head);
}

#[test]
fn changed_tree_is_snapshotted_then_idempotent() {
    let repo = repo_with_one_file_commit("snapshot");
    let head = repo.head().unwrap().peel_to_commit().unwrap().id();
    let (branch, diff_text) = match begin_change(&repo).unwrap() {
        PipelineWork::Ready { branch, diff_text } => (branch, diff_text),
        PipelineWork::NoChanges => panic!("expected a non-empty diff"),
    };
    assert!(branch.starts_with("wip/"));
    assert!(diff_text.starts_with("\n\n"));
    assert!(diff_text.contains("hello"));

    let id = finish_change(&repo, &branch, "Remove the greeting").unwrap();
    let tip = repo
        .find_branch(&branch, BranchType::Local)
        .unwrap()
        .get()
        .peel_to_commit()
        .unwrap();
    assert_eq!(tip.id(), id);
    assert_eq!(tip.message().unwrap(), "wip: Remove the greeting");
    assert_eq!(tip.parent_count(), 1);
    assert_eq!(tip.parent_id(0).unwrap(), head);

    // The snapshot captured the working tree, so a second run is a no-op
    // and the shadow tip stays put.
    match begin_change(&repo).unwrap() {
        PipelineWork::NoChanges => (),
        PipelineWork::Ready { .. } => panic!("expected an empty diff after the snapshot"),
    }
    let tip_again = repo
        .find_branch(&branch, BranchType::Local)
        .unwrap()
        .get()
        .peel_to_commit()
        .unwrap()
        .id();
    assert_eq!(tip_again, id);
}
