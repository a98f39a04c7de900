//! The snapshot committer: stages the whole working tree and commits it onto
//! the shadow branch in one atomic ref update.

use vstd::prelude::*;

verus! {

/// Stage the working tree (under the repository's ignore rules) as a tree
/// object and commit it onto the shadow branch, whose tip — re-read here,
/// not cached from reconciliation — becomes the single parent.  The branch
/// ref moves to the new commit in the one ref update that
/// `git2::Repository::commit` performs, so no intermediate state is ever
/// visible through the ref; on any failure nothing has moved.
pub fn try_commit(
    repo: &git2::Repository,
    wip_branch_name: &str,
    commit_message: &str,
) -> (r: Result<git2::Oid, git2::Error>) {
    let mut index = match crate::gitio::repo_index(repo) {
        Ok(i) => i,
        Err(e) => {
            return Err(e);
        },
    };
    match crate::gitio::index_add_all_worktree(&mut index) {
        Ok(_) => (),
        Err(e) => {
            return Err(e);
        },
    }
    let branch = match crate::gitio::find_local_branch(repo, wip_branch_name) {
        Ok(b) => b,
        Err(e) => {
            return Err(e);
        },
    };
    let tree_id = match crate::gitio::index_write_tree(&mut index) {
        Ok(t) => t,
        Err(e) => {
            return Err(e);
        },
    };
    let tree = match crate::gitio::find_tree(repo, tree_id) {
        Ok(t) => t,
        Err(e) => {
            return Err(e);
        },
    };
    let signature = match crate::gitio::repo_signature(repo) {
        Ok(s) => s,
        Err(e) => {
            return Err(e);
        },
    };
    let parent = match crate::gitio::branch_peel_to_commit(&branch) {
        Ok(c) => c,
        Err(e) => {
            return Err(e);
        },
    };
    let refname = crate::refs_heads_name(wip_branch_name);
    crate::gitio::commit_with_parents(
        repo,
        refname.as_str(),
        &signature,
        commit_message,
        &tree,
        &parent,
        None,
    )
}

} // verus!
