//! The per-run pipeline sequencing: which stage follows which event, and
//! which changed-path batches are worth a run at all.
//!
//! Every run walks `Idle -> Reconciling -> Diffing -> GeneratingMessage ->
//! Committing -> Idle`; an empty diff or a failed stage goes straight back
//! to `Idle`, so no generation call and no commit can follow either.

use vstd::prelude::*;

verus! {

/// The stage a pipeline run is in.
#[derive(Clone, Copy, Debug, PartialEq, Eq, Structural)]
pub enum PipelineStage {
    /// Waiting for the next batch of filesystem events.
    Idle,
    /// Bringing the shadow branch in line with the tracked branch.
    Reconciling,
    /// Computing the diff record.
    Diffing,
    /// Waiting for the generation service's summary.
    GeneratingMessage,
    /// Writing the snapshot commit.
    Committing,
}

/// What just happened in the current stage.
#[derive(Clone, Copy, Debug, PartialEq, Eq, Structural)]
pub enum PipelineEvent {
    /// A relevant batch arrived (or the unconditional startup run begins).
    RunStarted,
    /// The shadow branch exists and head is in its ancestry.
    ReconcileSucceeded,
    /// The diff record holds only the separator.
    DiffEmpty,
    /// The diff record holds content lines.
    DiffProduced,
    /// The service returned a usable summary.
    MessageObtained,
    /// The snapshot commit was written.
    CommitSucceeded,
    /// The current stage failed; the failure is logged and the run ends.
    StageFailed,
}

/// The successor stage: the normal progression on success, `Idle` on an
/// empty diff, on any failure, and on any event that does not belong to the
/// current stage.
pub open spec fn next_stage_spec(s: PipelineStage, e: PipelineEvent) -> PipelineStage {
    match (s, e) {
        (PipelineStage::Idle, PipelineEvent::RunStarted) => PipelineStage::Reconciling,
        (PipelineStage::Reconciling, PipelineEvent::ReconcileSucceeded) => PipelineStage::Diffing,
        (PipelineStage::Diffing, PipelineEvent::DiffProduced) => PipelineStage::GeneratingMessage,
        (PipelineStage::GeneratingMessage, PipelineEvent::MessageObtained) => PipelineStage::Committing,
        _ => PipelineStage::Idle,
    }
}

/// Step the pipeline's stage machine.  In particular, `DiffEmpty` in the
/// `Diffing` stage ends the run: the machine never reaches
/// `GeneratingMessage` or `Committing` for that batch.
pub fn next_stage(s: PipelineStage, e: PipelineEvent) -> (r: PipelineStage)
    ensures
        r == next_stage_spec(s, e),
{
    match (s, e) {
        (PipelineStage::Idle, PipelineEvent::RunStarted) => PipelineStage::Reconciling,
        (PipelineStage::Reconciling, PipelineEvent::ReconcileSucceeded) => PipelineStage::Diffing,
        (PipelineStage::Diffing, PipelineEvent::DiffProduced) => PipelineStage::GeneratingMessage,
        (PipelineStage::GeneratingMessage, PipelineEvent::MessageObtained) => PipelineStage::Committing,
        _ => PipelineStage::Idle,
    }
}

/// A path separator, on either separator convention.
pub open spec fn is_separator(c: char) -> bool {
    c == '/' || c == '\\'
}

/// A `.git` path component starts at `i`: at a component boundary, reads
/// `.git`, and ends at a boundary.
pub open spec fn git_component_at(p: Seq<char>, i: int) -> bool {
    &&& 0 <= i
    &&& i + 4 <= p.len()
    &&& (i == 0 || is_separator(p[i - 1]))
    &&& p[i] == '.'
    &&& p[i + 1] == 'g'
    &&& p[i + 2] == 'i'
    &&& p[i + 3] == 't'
    &&& (i + 4 == p.len() || is_separator(p[i + 4]))
}

/// The path lies inside the version-control metadata directory: one of its
/// components is `.git`.
pub open spec fn path_touches_metadata(p: Seq<char>) -> bool {
    exists|i: int| git_component_at(p, i)
}

/// Decide whether a changed path lies inside the metadata directory.
pub fn path_in_metadata_dir(path: &str) -> (r: bool)
    ensures
        r == path_touches_metadata(path@),
{
    let p = crate::text::chars_vec(path);
    if p.len() < 4 {
        proof {
            assert forall|i: int| !git_component_at(path@, i) by {}
        }
        return false;
    }
    let mut i: usize = 0;
    while i <= p.len() - 4
        invariant
            p@ == path@,
            p@.len() >= 4,
            i <= p@.len() - 4 + 1,
            forall|j: int| 0 <= j < i ==> !git_component_at(path@, j),
        decreases p@.len() - i,
    {
        if (i == 0 || p[i - 1] == '/' || p[i - 1] == '\\') && p[i] == '.' && p[i + 1] == 'g' && p[i
            + 2] == 'i' && p[i + 3] == 't' && (i + 4 == p.len() || p[i + 4] == '/' || p[i + 4]
            == '\\') {
            proof {
                assert(git_component_at(path@, i as int));
            }
            return true;
        }
        i = i + 1;
    }
    proof {
        assert forall|j: int| !git_component_at(path@, j) by {
            if git_component_at(path@, j) {
                assert(j + 4 <= path@.len());
                assert(j < i);
            }
        }
    }
    false
}

/// Whether any path of the batch lies outside the metadata directory: only
/// such a batch starts a pipeline run.
pub fn any_relevant_path(paths: &Vec<String>) -> (r: bool)
    ensures
        r == exists|j: int| 0 <= j < paths@.len() && !path_touches_metadata(paths@[j]@),
{
    let mut k: usize = 0;
    while k < paths.len()
        invariant
            k <= paths@.len(),
            forall|j: int| 0 <= j < k ==> path_touches_metadata(paths@[j]@),
        decreases paths@.len() - k,
    {
        if !path_in_metadata_dir(paths[k].as_str()) {
            return true;
        }
        k = k + 1;
    }
    false
}

/// What the first half of a run found.
pub enum PipelineWork {
    /// The diff record held only the separator: the run ends here, with no
    /// generation call and no commit.
    NoChanges,
    /// The delta to describe: the shadow branch's name and the diff text.
    Ready { branch: String, diff_text: String },
}

/// The first half of one pipeline run: reconcile the shadow branch, compute
/// the diff record, and stop early when it is empty.  The caller obtains a
/// summary for the returned diff text and hands it to `finish_change`; when
/// `NoChanges` comes back there is nothing more to do.  Every failure of
/// this half is a repository failure, wrapped as `Git`.
pub fn begin_change(repo: &git2::Repository) -> (r: Result<
    PipelineWork,
    crate::errors::ChangeHandlingError,
>)
    ensures
        r matches Ok(w) ==> (w matches PipelineWork::Ready { branch, .. }
            ==> crate::reconcile::is_shadow_name(branch@)),
        r matches Err(e) ==> e matches crate::errors::ChangeHandlingError::Git(_),
{
    let name = match crate::reconcile::prepare_wip_branch(repo) {
        Ok(n) => n,
        Err(e) => {
            return Err(crate::errors::ChangeHandlingError::Git(e));
        },
    };
    let diff = match crate::diff::prepare_diff(repo, name.as_str()) {
        Ok(d) => d,
        Err(e) => {
            return Err(crate::errors::ChangeHandlingError::Git(e));
        },
    };
    let lines = match crate::diff::diff_lines(&diff) {
        Ok(l) => l,
        Err(e) => {
            return Err(crate::errors::ChangeHandlingError::Git(e));
        },
    };
    if crate::diff::diff_record_is_empty(&lines) {
        Ok(PipelineWork::NoChanges)
    } else {
        let text = crate::diff::join_lines(&lines);
        Ok(PipelineWork::Ready { branch: name, diff_text: text })
    }
}

/// The second half of one pipeline run: put the summary under the `wip: `
/// tag and commit the working tree onto the shadow branch.  Every failure
/// of this half is a repository failure, wrapped as `Git`.
pub fn finish_change(repo: &git2::Repository, branch: &str, summary: &str) -> (r: Result<
    git2::Oid,
    crate::errors::ChangeHandlingError,
>)
    ensures
        r matches Err(e) ==> e matches crate::errors::ChangeHandlingError::Git(_),
{
    let message = crate::snapshot_commit_message(summary);
    match crate::snapshot::try_commit(repo, branch, message.as_str()) {
        Ok(id) => Ok(id),
        Err(e) => Err(crate::errors::ChangeHandlingError::Git(e)),
    }
}

} // verus!
