//! Abstract model of the commit history that the pipeline maintains.
//!
//! Commits form an append-only log; a commit's parents always stand earlier
//! in the log, so the log is a DAG and ancestry is well founded.  The
//! reconciliation and snapshot steps are verified against this model: the
//! shadow branch tip always descends from the tracked branch tip, and no
//! commit that was ever a shadow tip leaves the ancestry of the current tip.

use vstd::prelude::*;

verus! {

/// One commit: parent indices (each strictly smaller than the commit's own
/// index in the log), the identifier of the tree it carries, and its message.
pub struct CommitNode {
    pub parents: Vec<usize>,
    pub tree: u64,
    pub message: String,
}

/// Every parent index points strictly backwards in the log.
pub open spec fn parents_ok(c: Seq<CommitNode>) -> bool {
    forall|i: int, k: int|
        0 <= i < c.len() && 0 <= k < c[i].parents@.len() ==> (c[i].parents@[k] as int) < i
}

/// Commit `to` is an ancestor of (or equal to) commit `from`: it can be
/// reached from `from` by following parent edges.
pub open spec fn reachable(c: Seq<CommitNode>, from: int, to: int) -> bool
    decreases from,
{
    ||| from == to
    ||| exists|k: int|
        0 <= k < c[from].parents@.len() && (c[from].parents@[k] as int) < from && reachable(
            c,
            c[from].parents@[k] as int,
            to,
        )
}

/// Ancestry is transitive: an ancestor of an ancestor is an ancestor.
pub proof fn lemma_reachable_trans(c: Seq<CommitNode>, a: int, b: int, d: int)
    requires
        reachable(c, a, b),
        reachable(c, b, d),
    ensures
        reachable(c, a, d),
    decreases a,
{
    if a == b {
    } else {
        let k = choose|k: int|
            0 <= k < c[a].parents@.len() && (c[a].parents@[k] as int) < a && reachable(
                c,
                c[a].parents@[k] as int,
                b,
            );
        lemma_reachable_trans(c, c[a].parents@[k] as int, b, d);
        assert(0 <= k < c[a].parents@.len() && (c[a].parents@[k] as int) < a && reachable(
            c,
            c[a].parents@[k] as int,
            d,
        ));
    }
}

/// Extending the log with new commits changes no ancestry fact among the
/// commits that were already present.
pub proof fn lemma_reachable_prefix(c1: Seq<CommitNode>, c2: Seq<CommitNode>, from: int, to: int)
    requires
        c1.is_prefix_of(c2),
        0 <= from < c1.len(),
    ensures
        reachable(c1, from, to) == reachable(c2, from, to),
    decreases from,
{
    assert(c1[from] == c2.subrange(0, c1.len() as int)[from]);
    assert(c1[from] == c2[from]);
    if from == to {
    } else {
        if reachable(c1, from, to) {
            let k = choose|k: int|
                0 <= k < c1[from].parents@.len() && (c1[from].parents@[k] as int) < from
                    && reachable(c1, c1[from].parents@[k] as int, to);
            lemma_reachable_prefix(c1, c2, c1[from].parents@[k] as int, to);
            assert(0 <= k < c2[from].parents@.len() && (c2[from].parents@[k] as int) < from
                && reachable(c2, c2[from].parents@[k] as int, to));
        }
        if reachable(c2, from, to) {
            let k = choose|k: int|
                0 <= k < c2[from].parents@.len() && (c2[from].parents@[k] as int) < from
                    && reachable(c2, c2[from].parents@[k] as int, to);
            lemma_reachable_prefix(c1, c2, c2[from].parents@[k] as int, to);
            assert(0 <= k < c1[from].parents@.len() && (c1[from].parents@[k] as int) < from
                && reachable(c1, c1[from].parents@[k] as int, to));
        }
    }
}

/// Every commit that was ever the shadow tip stays an ancestor of the final
/// tip: if a run turned the tip `t_old` into `t_mid` while growing the log to
/// `c_mid`, and later runs turned `t_mid` into `t_fin` while growing the log
/// to `c_fin`, then `t_old` is still an ancestor of `t_fin`.  Chaining this
/// step over a whole sequence of runs preserves every historical tip.
pub proof fn lemma_history_preserved(
    c_mid: Seq<CommitNode>,
    c_fin: Seq<CommitNode>,
    t_old: int,
    t_mid: int,
    t_fin: int,
)
    requires
        c_mid.is_prefix_of(c_fin),
        0 <= t_mid < c_mid.len(),
        reachable(c_mid, t_mid, t_old),
        reachable(c_fin, t_fin, t_mid),
    ensures
        reachable(c_fin, t_fin, t_old),
{
    lemma_reachable_prefix(c_mid, c_fin, t_mid, t_old);
    lemma_reachable_trans(c_fin, t_fin, t_mid, t_old);
}

/// Being a prefix is transitive.
proof fn lemma_prefix_trans(s1: Seq<CommitNode>, s2: Seq<CommitNode>, s3: Seq<CommitNode>)
    requires
        s1.is_prefix_of(s2),
        s2.is_prefix_of(s3),
    ensures
        s1.is_prefix_of(s3),
{
    assert(s1 =~= s3.subrange(0, s1.len() as int)) by {
        assert forall|i: int| 0 <= i < s1.len() implies s1[i] == s3.subrange(
            0,
            s1.len() as int,
        )[i] by {
            assert(s1[i] == s2.subrange(0, s1.len() as int)[i]);
            assert(s2[i] == s3.subrange(0, s2.len() as int)[i]);
        }
    }
}

/// In a chain of logs each of which is a prefix of the next, every log is a
/// prefix of every later one.
proof fn lemma_prefix_chain(logs: Seq<Seq<CommitNode>>, a: int, b: int)
    requires
        forall|k: int| 0 <= k < logs.len() - 1 ==> #[trigger] logs[k].is_prefix_of(logs[k + 1]),
        0 <= a <= b < logs.len(),
    ensures
        logs[a].is_prefix_of(logs[b]),
    decreases b - a,
{
    if a == b {
        assert(logs[a] =~= logs[a].subrange(0, logs[a].len() as int));
    } else {
        lemma_prefix_chain(logs, a, b - 1);
        assert(logs[b - 1].is_prefix_of(logs[(b - 1) + 1]));
        lemma_prefix_trans(logs[a], logs[b - 1], logs[b]);
    }
}

/// History preservation over a whole sequence of runs.  `logs[k]` is the
/// commit log after run `k` and `tips[k]` the shadow tip it left: each run
/// only appends commits and leaves a tip from which the previous tip is
/// reachable (exactly what `ensure_shadow`, `commit_snapshot` and
/// `run_pipeline` ensure).  Then every tip the shadow branch ever had is an
/// ancestor of the tip the last run left.
pub proof fn lemma_every_tip_preserved(logs: Seq<Seq<CommitNode>>, tips: Seq<int>, j: int)
    requires
        logs.len() == tips.len(),
        1 <= tips.len(),
        forall|k: int| 0 <= k < logs.len() - 1 ==> #[trigger] logs[k].is_prefix_of(logs[k + 1]),
        forall|k: int| 0 <= k < tips.len() ==> 0 <= #[trigger] tips[k] < logs[k].len(),
        forall|k: int|
            0 <= k < tips.len() - 1 ==> reachable(logs[k + 1], #[trigger] tips[k + 1], tips[k]),
        0 <= j < tips.len(),
    ensures
        reachable(logs.last(), tips.last(), tips[j]),
    decreases tips.len() - j,
{
    let last = logs.len() - 1;
    if j == last {
    } else {
        lemma_every_tip_preserved(logs, tips, j + 1);
        lemma_prefix_chain(logs, j + 1, last);
        lemma_reachable_prefix(logs[j + 1], logs[last], tips[j + 1], tips[j]);
        lemma_reachable_trans(logs[last], tips[last], tips[j + 1], tips[j]);
    }
}

/// Decide whether `to` is an ancestor of (or equal to) `from`.
pub fn check_reachable(commits: &Vec<CommitNode>, from: usize, to: usize) -> (r: bool)
    requires
        parents_ok(commits@),
        from < commits@.len(),
    ensures
        r == reachable(commits@, from as int, to as int),
    decreases from,
{
    if from == to {
        return true;
    }
    let n = commits[from].parents.len();
    let mut k: usize = 0;
    while k < n
        invariant
            parents_ok(commits@),
            from < commits@.len(),
            from != to,
            n == commits@[from as int].parents@.len(),
            k <= n,
            forall|j: int|
                0 <= j < k ==> !reachable(
                    commits@,
                    commits@[from as int].parents@[j] as int,
                    to as int,
                ),
        decreases n - k,
    {
        let p = commits[from].parents[k];
        assert((p as int) < from as int);
        if check_reachable(commits, p, to) {
            assert(reachable(commits@, from as int, to as int));
            return true;
        }
        k = k + 1;
    }
    assert(!reachable(commits@, from as int, to as int)) by {
        if reachable(commits@, from as int, to as int) {
            let kk = choose|kk: int|
                0 <= kk < commits@[from as int].parents@.len() && (commits@[from as int].parents@[kk]
                    as int) < from as int && reachable(
                    commits@,
                    commits@[from as int].parents@[kk] as int,
                    to as int,
                );
            assert(!reachable(commits@, commits@[from as int].parents@[kk] as int, to as int));
        }
    }
    false
}

/// The state the pipeline acts on: the commit log, the tracked branch tip,
/// the shadow branch tip (if the shadow branch exists), and the identifier of
/// the tree currently in the working directory.
pub struct RepoModel {
    pub commits: Vec<CommitNode>,
    pub head_tip: usize,
    pub shadow_tip: Option<usize>,
    pub workdir_tree: u64,
}

impl RepoModel {
    /// Tips point into the log and parents point backwards.
    pub open spec fn wf(self) -> bool {
        &&& parents_ok(self.commits@)
        &&& (self.head_tip as int) < self.commits@.len()
        &&& (self.shadow_tip matches Some(s) ==> (s as int) < self.commits@.len())
    }
}

/// How a reconciliation run left the shadow branch.
#[derive(Clone, Copy, Debug, PartialEq, Eq, Structural)]
pub enum ReconcileOutcome {
    /// The shadow branch did not exist and was created at the head commit.
    CreatedAtHead,
    /// The head commit was already an ancestor of (or equal to) the shadow tip.
    AlreadyConverged,
    /// Histories had diverged; a merge commit of shadow tip and head was made.
    MergedHead,
}

/// Make the shadow branch exist and contain the head commit in its ancestry,
/// without dropping any commit previously reachable from the shadow tip.
pub fn ensure_shadow(repo: &mut RepoModel) -> (outcome: ReconcileOutcome)
    requires
        old(repo).wf(),
    ensures
        final(repo).wf(),
        final(repo).head_tip == old(repo).head_tip,
        final(repo).workdir_tree == old(repo).workdir_tree,
        final(repo).shadow_tip is Some,
        old(repo).commits@.is_prefix_of(final(repo).commits@),
        reachable(
            final(repo).commits@,
            final(repo).shadow_tip->0 as int,
            final(repo).head_tip as int,
        ),
        old(repo).shadow_tip matches Some(s) ==> reachable(
            final(repo).commits@,
            final(repo).shadow_tip->0 as int,
            s as int,
        ),
        old(repo).shadow_tip is None ==> outcome == ReconcileOutcome::CreatedAtHead
            && final(repo).commits == old(repo).commits
            && final(repo).shadow_tip == Some(old(repo).head_tip),
        (old(repo).shadow_tip matches Some(s) && reachable(
            old(repo).commits@,
            s as int,
            old(repo).head_tip as int,
        )) ==> outcome == ReconcileOutcome::AlreadyConverged && *final(repo) == *old(repo),
        (old(repo).shadow_tip matches Some(s) && !reachable(
            old(repo).commits@,
            s as int,
            old(repo).head_tip as int,
        )) ==> {
            &&& outcome == ReconcileOutcome::MergedHead
            &&& final(repo).commits@.len() == old(repo).commits@.len() + 1
            &&& final(repo).shadow_tip == Some(old(repo).commits.len())
            &&& final(repo).commits@.last().parents@ == seq![
                old(repo).shadow_tip->0,
                old(repo).head_tip,
            ]
            &&& final(repo).commits@.last().tree == old(repo).commits@[old(repo).head_tip as int].tree
            &&& final(repo).commits@.last().message@ == crate::merge_message_spec()
        },
{
    let head_ix = repo.head_tip;
    match repo.shadow_tip {
        None => {
            repo.shadow_tip = Some(head_ix);
            ReconcileOutcome::CreatedAtHead
        },
        Some(shadow_ix) => {
            if check_reachable(&repo.commits, shadow_ix, head_ix) {
                ReconcileOutcome::AlreadyConverged
            } else {
                let mut parents: Vec<usize> = Vec::new();
                parents.push(shadow_ix);
                parents.push(head_ix);
                let tree = repo.commits[head_ix].tree;
                let node = CommitNode { parents, tree, message: crate::merge_commit_message() };
                let new_ix = repo.commits.len();
                repo.commits.push(node);
                repo.shadow_tip = Some(new_ix);
                proof {
                    let c2 = repo.commits@;
                    let c1 = old(repo).commits@;
                    assert(c1.is_prefix_of(c2)) by {
                        assert(c2.subrange(0, c1.len() as int) =~= c1);
                    }
                    assert(parents_ok(c2)) by {
                        assert forall|i: int, k: int|
                            0 <= i < c2.len() && 0 <= k < c2[i].parents@.len() implies (
                        c2[i].parents@[k] as int) < i by {
                            if i < c1.len() {
                                assert(c2[i] == c1[i]);
                            } else {
                                assert(c2[i].parents@ == seq![shadow_ix, head_ix]);
                            }
                        }
                    }
                    assert(c2[new_ix as int].parents@[0] == shadow_ix);
                    assert(c2[new_ix as int].parents@[1] == head_ix);
                    assert(reachable(c2, shadow_ix as int, shadow_ix as int));
                    assert(reachable(c2, head_ix as int, head_ix as int));
                    assert(reachable(c2, new_ix as int, shadow_ix as int));
                    assert(reachable(c2, new_ix as int, head_ix as int));
                }
                ReconcileOutcome::MergedHead
            }
        },
    }
}

/// Record the working tree as a new snapshot commit on the shadow branch,
/// whose single parent is the current shadow tip.
pub fn commit_snapshot(repo: &mut RepoModel, message: &str) -> (new_tip: usize)
    requires
        old(repo).wf(),
        old(repo).shadow_tip is Some,
    ensures
        final(repo).wf(),
        final(repo).head_tip == old(repo).head_tip,
        final(repo).workdir_tree == old(repo).workdir_tree,
        new_tip as int == old(repo).commits@.len(),
        final(repo).shadow_tip == Some(new_tip),
        old(repo).commits@.is_prefix_of(final(repo).commits@),
        final(repo).commits@.len() == old(repo).commits@.len() + 1,
        final(repo).commits@.last().parents@ == seq![old(repo).shadow_tip->0],
        final(repo).commits@.last().tree == old(repo).workdir_tree,
        final(repo).commits@.last().message@ == message@,
        reachable(final(repo).commits@, new_tip as int, old(repo).shadow_tip->0 as int),
{
    let shadow_ix = match repo.shadow_tip {
        Some(s) => s,
        None => 0,  // unreachable under the precondition
    };
    let mut parents: Vec<usize> = Vec::new();
    parents.push(shadow_ix);
    let mut message_copy = String::new();
    message_copy.append(message);
    let node = CommitNode { parents, tree: repo.workdir_tree, message: message_copy };
    let new_ix = repo.commits.len();
    repo.commits.push(node);
    repo.shadow_tip = Some(new_ix);
    proof {
        let c2 = repo.commits@;
        let c1 = old(repo).commits@;
        assert(c1.is_prefix_of(c2)) by {
            assert(c2.subrange(0, c1.len() as int) =~= c1);
        }
        assert(parents_ok(c2)) by {
            assert forall|i: int, k: int|
                0 <= i < c2.len() && 0 <= k < c2[i].parents@.len() implies (c2[i].parents@[k]
                as int) < i by {
                if i < c1.len() {
                    assert(c2[i] == c1[i]);
                } else {
                    assert(c2[i].parents@ == seq![shadow_ix]);
                }
            }
        }
        assert(c2[new_ix as int].parents@[0] == shadow_ix);
        assert(reachable(c2, shadow_ix as int, shadow_ix as int));
        assert(reachable(c2, new_ix as int, shadow_ix as int));
    }
    new_ix
}

/// What one pipeline run did to the shadow branch.
#[derive(Clone, Copy, Debug, PartialEq, Eq, Structural)]
pub enum RunOutcome {
    /// The working tree matched the reconciled shadow tree: nothing committed.
    NoChanges,
    /// A snapshot commit with this index was made.
    Committed(usize),
}

/// Whether reconciliation must merge: the shadow branch exists and the head
/// commit is not in its tip's ancestry.
pub open spec fn needs_merge(r: RepoModel) -> bool {
    r.shadow_tip matches Some(s) && !reachable(r.commits@, s as int, r.head_tip as int)
}

/// The index the shadow tip holds once reconciliation has run: the merge
/// commit appended at the end of the log, the existing tip, or the head
/// commit the branch was created at.
pub open spec fn post_reconcile_tip(r: RepoModel) -> usize {
    if needs_merge(r) {
        r.commits@.len() as usize
    } else if r.shadow_tip is Some {
        r.shadow_tip->0
    } else {
        r.head_tip
    }
}

/// The tree the shadow tip carries once reconciliation has run: the shadow
/// tip's own tree if the head was already in its ancestry, else the head tree
/// (the tree a reconciliation merge commit carries).
pub open spec fn post_reconcile_tip_tree(r: RepoModel) -> u64 {
    if needs_merge(r) {
        r.commits@[r.head_tip as int].tree
    } else if r.shadow_tip is Some {
        r.commits@[r.shadow_tip->0 as int].tree
    } else {
        r.commits@[r.head_tip as int].tree
    }
}

/// One pipeline run over the model: reconcile the shadow branch, then commit
/// the working tree as a snapshot — unless the working tree carries exactly
/// the tree the reconciled shadow tip already has, in which case nothing is
/// committed.  `summary` is the generated description of the delta; it is
/// only used when a snapshot commit is made.
pub fn run_pipeline(repo: &mut RepoModel, summary: &str) -> (out: RunOutcome)
    requires
        old(repo).wf(),
    ensures
        final(repo).wf(),
        final(repo).head_tip == old(repo).head_tip,
        final(repo).workdir_tree == old(repo).workdir_tree,
        final(repo).shadow_tip is Some,
        old(repo).commits@.is_prefix_of(final(repo).commits@),
        reachable(
            final(repo).commits@,
            final(repo).shadow_tip->0 as int,
            final(repo).head_tip as int,
        ),
        old(repo).shadow_tip matches Some(s) ==> reachable(
            final(repo).commits@,
            final(repo).shadow_tip->0 as int,
            s as int,
        ),
        out == RunOutcome::NoChanges <==> post_reconcile_tip_tree(*old(repo)) == old(
            repo,
        ).workdir_tree,
        needs_merge(*old(repo)) ==> {
            &&& final(repo).commits@.len() > old(repo).commits@.len()
            &&& final(repo).commits@[old(repo).commits@.len() as int].parents@ == seq![
                old(repo).shadow_tip->0,
                old(repo).head_tip,
            ]
            &&& final(repo).commits@[old(repo).commits@.len() as int].tree == old(
                repo,
            ).commits@[old(repo).head_tip as int].tree
            &&& final(repo).commits@[old(repo).commits@.len() as int].message@
                == crate::merge_message_spec()
        },
        out == RunOutcome::NoChanges ==> {
            &&& final(repo).commits@.len() == old(repo).commits@.len() + (
            if needs_merge(*old(repo)) {
                1int
            } else {
                0int
            })
            &&& final(repo).shadow_tip == Some(post_reconcile_tip(*old(repo)))
        },
        out matches RunOutcome::Committed(ix) ==> {
            &&& ix as int == final(repo).commits@.len() - 1
            &&& final(repo).shadow_tip == Some(ix)
            &&& final(repo).commits@.len() == old(repo).commits@.len() + (
            if needs_merge(*old(repo)) {
                2int
            } else {
                1int
            })
            &&& final(repo).commits@.last().parents@ == seq![post_reconcile_tip(*old(repo))]
            &&& final(repo).commits@.last().tree == old(repo).workdir_tree
            &&& final(repo).commits@.last().message@ == crate::snapshot_message_spec(summary@)
        },
        (old(repo).shadow_tip matches Some(s) && reachable(
            old(repo).commits@,
            s as int,
            old(repo).head_tip as int,
        ) && old(repo).commits@[s as int].tree == old(repo).workdir_tree) ==> *final(repo) == *old(
            repo,
        ) && out == RunOutcome::NoChanges,
{
    let ghost pre = *repo;
    ensure_shadow(repo);
    let ghost mid = *repo;
    let shadow_ix = match repo.shadow_tip {
        Some(s) => s,
        None => 0,  // unreachable: ensure_shadow leaves a shadow tip
    };
    proof {
        assert(mid.shadow_tip == Some(post_reconcile_tip(pre)));
        assert(mid.commits@[shadow_ix as int].tree == post_reconcile_tip_tree(pre));
        assert(mid.commits@.len() == pre.commits@.len() + (
        if needs_merge(pre) {
            1int
        } else {
            0int
        }));
        if needs_merge(pre) {
            assert(mid.commits@[pre.commits@.len() as int] == mid.commits@.last());
        }
    }
    if repo.commits[shadow_ix].tree == repo.workdir_tree {
        RunOutcome::NoChanges
    } else {
        let message = crate::snapshot_commit_message(summary);
        let new_ix = commit_snapshot(repo, message.as_str());
        proof {
            let c_mid = mid.commits@;
            let c_fin = repo.commits@;
            assert(pre.commits@.is_prefix_of(c_fin)) by {
                assert(c_fin.subrange(0, pre.commits@.len() as int)
                    =~= c_mid.subrange(0, pre.commits@.len() as int));
            }
            lemma_reachable_prefix(c_mid, c_fin, shadow_ix as int, mid.head_tip as int);
            lemma_reachable_trans(
                c_fin,
                new_ix as int,
                shadow_ix as int,
                mid.head_tip as int,
            );
            if pre.shadow_tip is Some {
                lemma_reachable_prefix(c_mid, c_fin, shadow_ix as int, pre.shadow_tip->0 as int);
                lemma_reachable_trans(
                    c_fin,
                    new_ix as int,
                    shadow_ix as int,
                    pre.shadow_tip->0 as int,
                );
            }
            if needs_merge(pre) {
                let merge_ix = pre.commits@.len() as int;
                assert(c_mid[merge_ix] == c_fin.subrange(0, c_mid.len() as int)[merge_ix]);
                assert(c_fin[merge_ix] == c_mid[merge_ix]);
            }
        }
        RunOutcome::Committed(new_ix)
    }
}

} // verus!
