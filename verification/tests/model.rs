use gwipt::history::check_reachable;
use gwipt::history::commit_snapshot;
use gwipt::history::ensure_shadow;
use gwipt::history::run_pipeline;
use gwipt::history::CommitNode;
use gwipt::history::ReconcileOutcome;
use gwipt::history::RepoModel;
use gwipt::history::RunOutcome;

fn node(parents: Vec<usize>, tree: u64, message: &str) -> CommitNode {
    CommitNode { parents, tree, message: message.to_string() }
}

#[test]
fn reachability_on_a_chain() {
    // 0 <- 1 <- 2, and 3 a sibling of 2.
    let commits = vec![
        node(vec![], 1, "root"),
        node(vec![0], 2, "a"),
        node(vec![1], 3, "b"),
        node(vec![1], 4, "c"),
    ];
    assert!(check_reachable(&commits, 2, 0));
    assert!(check_reachable(&commits, 2, 2));
    assert!(check_reachable(&commits, 3, 1));
    assert!(!check_reachable(&commits, 2, 3));
    assert!(!check_reachable(&commits, 0, 1));
}

#[test]
fn fresh_shadow_branch_snapshot() {
    // Tracked branch at commit A, no shadow branch, one modified line in the
    // working tree: the shadow branch is created at A and superseded by a
    // snapshot B whose parent is A.
    let mut repo = RepoModel {
        commits: vec![node(vec![], 10, "A")],
        head_tip: 0,
        shadow_tip: None,
        workdir_tree: 11,
    };
    let out = run_pipeline(&mut repo, "change one line");
    assert_eq!(out, RunOutcome::Committed(1));
    assert_eq!(repo.commits.len(), 2);
    assert_eq!(repo.shadow_tip, Some(1));
    assert_eq!(repo.commits[1].parents, vec![0]);
    assert_eq!(repo.commits[1].tree, 11);
    assert_eq!(repo.commits[1].message, "wip: change one line");
    assert_eq!(repo.head_tip, 0);
    // The old shadow tip (A, where the branch was created) stays an ancestor.
    assert!(check_reachable(&repo.commits, 1, 0));
}

#[test]
fn diverged_shadow_gets_merge_commit() {
    // Existing wip branch at W, head rebased to H, unrelated to W: a merge
    // commit with parents [W, H] and the fixed message is created before any
    // snapshot commit.
    let mut repo = RepoModel {
        commits: vec![node(vec![], 1, "base"), node(vec![0], 20, "W"), node(vec![0], 30, "H")],
        head_tip: 2,
        shadow_tip: Some(1),
        workdir_tree: 30,
    };
    let out = ensure_shadow(&mut repo);
    assert_eq!(out, ReconcileOutcome::MergedHead);
    assert_eq!(repo.commits.len(), 4);
    assert_eq!(repo.shadow_tip, Some(3));
    assert_eq!(repo.commits[3].parents, vec![1, 2]);
    assert_eq!(repo.commits[3].tree, 30);
    assert_eq!(repo.commits[3].message, "Merge HEAD into wip/ branch");
    // Both W and H are ancestors of the merge.
    assert!(check_reachable(&repo.commits, 3, 1));
    assert!(check_reachable(&repo.commits, 3, 2));
}

#[test]
fn unchanged_worktree_commits_nothing() {
    // The shadow tip carries exactly the working tree and already descends
    // from head: the run changes nothing at all.
    let mut repo = RepoModel {
        commits: vec![node(vec![], 1, "base"), node(vec![0], 7, "wip snap")],
        head_tip: 0,
        shadow_tip: Some(1),
        workdir_tree: 7,
    };
    let out = run_pipeline(&mut repo, "unused");
    assert_eq!(out, RunOutcome::NoChanges);
    assert_eq!(repo.commits.len(), 2);
    assert_eq!(repo.shadow_tip, Some(1));
}

#[test]
fn forward_head_is_merged_then_snapshotted() {
    // Head moved forward past the shadow tip (shadow is an ancestor of
    // head but not equal): that counts as divergence, so the run first
    // merges, then snapshots the working tree.
    let mut repo = RepoModel {
        commits: vec![node(vec![], 1, "A"), node(vec![0], 2, "B")],
        head_tip: 1,
        shadow_tip: Some(0),
        workdir_tree: 9,
    };
    let out = run_pipeline(&mut repo, "wip work");
    assert_eq!(out, RunOutcome::Committed(3));
    assert_eq!(repo.commits.len(), 4);
    // The merge commit carries the head tree; the snapshot the workdir tree.
    assert_eq!(repo.commits[2].parents, vec![0, 1]);
    assert_eq!(repo.commits[2].tree, 2);
    assert_eq!(repo.commits[3].parents, vec![2]);
    assert_eq!(repo.commits[3].tree, 9);
    assert!(check_reachable(&repo.commits, 3, 1));
    assert!(check_reachable(&repo.commits, 3, 0));
}

#[test]
fn every_historical_tip_stays_reachable() {
    // Three runs with head moving in between: every commit that was ever
    // the shadow tip remains an ancestor of the final tip.
    let mut repo = RepoModel {
        commits: vec![node(vec![], 1, "A")],
        head_tip: 0,
        shadow_tip: None,
        workdir_tree: 2,
    };
    let mut tips: Vec<usize> = Vec::new();
    let out1 = run_pipeline(&mut repo, "first");
    if let RunOutcome::Committed(ix) = out1 {
        tips.push(ix);
    }
    repo.workdir_tree = 3;
    let out2 = run_pipeline(&mut repo, "second");
    if let RunOutcome::Committed(ix) = out2 {
        tips.push(ix);
    }
    // The tracked branch gains an unrelated commit (a rebase), diverging.
    repo.commits.push(node(vec![0], 50, "rebased"));
    repo.head_tip = repo.commits.len() - 1;
    repo.workdir_tree = 51;
    let out3 = run_pipeline(&mut repo, "third");
    if let RunOutcome::Committed(ix) = out3 {
        tips.push(ix);
    }
    assert_eq!(tips.len(), 3);
    let last = repo.shadow_tip.unwrap();
    for t in tips {
        assert!(check_reachable(&repo.commits, last, t));
    }
    // Convergence: the tracked tip is an ancestor of the shadow tip.
    assert!(check_reachable(&repo.commits, last, repo.head_tip));
}

#[test]
fn merge_without_new_content_skips_the_snapshot() {
    // Diverged histories, but the working tree carries exactly the head
    // tree: the run reconciles with a merge commit and then has nothing to
    // snapshot.
    let mut repo = RepoModel {
        commits: vec![node(vec![], 1, "base"), node(vec![0], 20, "W"), node(vec![0], 30, "H")],
        head_tip: 2,
        shadow_tip: Some(1),
        workdir_tree: 30,
    };
    let out = run_pipeline(&mut repo, "unused");
    assert_eq!(out, RunOutcome::NoChanges);
    assert_eq!(repo.commits.len(), 4);
    assert_eq!(repo.commits[3].message, "Merge HEAD into wip/ branch");
    assert_eq!(repo.shadow_tip, Some(3));
}

#[test]
fn snapshot_parent_is_current_shadow_tip() {
    let mut repo = RepoModel {
        commits: vec![node(vec![], 1, "A"), node(vec![0], 2, "B")],
        head_tip: 0,
        shadow_tip: Some(1),
        workdir_tree: 40,
    };
    let ix = commit_snapshot(&mut repo, "wip: snap");
    assert_eq!(ix, 2);
    assert_eq!(repo.commits[2].parents, vec![1]);
    assert_eq!(repo.commits[2].tree, 40);
    assert_eq!(repo.commits[2].message, "wip: snap");
    assert_eq!(repo.shadow_tip, Some(2));
}
