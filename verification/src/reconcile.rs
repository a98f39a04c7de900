//! Reconciliation of the shadow branch with the tracked branch, against the
//! on-disk repository.
//!
//! The abstract law this follows — the shadow tip never loses a commit and
//! always converges to hold the head in its ancestry — is stated and proved
//! over the commit-graph model in `history`; this module drives the same
//! decisions against the repository itself.

use vstd::prelude::*;

verus! {

/// Whether a name is a shadow branch name: it starts with `wip/`.
pub open spec fn is_shadow_name(name: Seq<char>) -> bool {
    name.len() >= 4 && name.subrange(0, 4) == "wip/"@
}

/// Make the shadow branch of the checked-out branch exist and hold the head
/// commit in its ancestry, and return its name.
///
/// A HEAD that is not a checked-out branch is an invalid repository state
/// and fails the run.  When the shadow branch is missing it is created at
/// the head commit.  When its tip equals the head commit, or descends from
/// it, nothing is done.  Otherwise the histories have diverged, and a merge
/// commit with parents `[shadow tip, head]` carrying the head tree is put on
/// the shadow branch, so no commit reachable from the old shadow tip is
/// lost.
pub fn prepare_wip_branch(repo: &git2::Repository) -> (r: Result<String, git2::Error>)
    ensures
        r matches Ok(name) ==> is_shadow_name(name@),
{
    let head_ref = match crate::gitio::repo_head(repo) {
        Ok(h) => h,
        Err(e) => {
            return Err(e);
        },
    };
    if !crate::gitio::reference_is_branch(&head_ref) {
        return Err(
            crate::gitio::git_error_from_str("You must check out a branch for gwipt to work."),
        );
    }
    let short = match crate::gitio::reference_shorthand(&head_ref) {
        Ok(s) => s,
        Err(e) => {
            return Err(e);
        },
    };
    let wip_name = crate::shadow_branch_name(short.as_str());
    proof {
        reveal_strlit("wip/");
        assert(wip_name@.subrange(0, 4) =~= "wip/"@);
    }
    let head_commit = match crate::gitio::reference_peel_to_commit(&head_ref) {
        Ok(c) => c,
        Err(e) => {
            return Err(e);
        },
    };
    let head_tree = match crate::gitio::commit_tree(&head_commit) {
        Ok(t) => t,
        Err(e) => {
            return Err(e);
        },
    };
    let wip_branch = match crate::gitio::find_local_branch(repo, wip_name.as_str()) {
        Ok(b) => b,
        Err(_) => match crate::gitio::create_branch(repo, wip_name.as_str(), &head_commit, true) {
            Ok(b) => b,
            Err(e) => {
                return Err(e);
            },
        },
    };
    let wip_commit = match crate::gitio::branch_peel_to_commit(&wip_branch) {
        Ok(c) => c,
        Err(e) => {
            return Err(e);
        },
    };
    let signature = match crate::gitio::repo_signature(repo) {
        Ok(s) => s,
        Err(e) => {
            return Err(e);
        },
    };
    let head_id = crate::gitio::commit_id_hex(&head_commit);
    let wip_id = crate::gitio::commit_id_hex(&wip_commit);
    if !(wip_id == head_id) {
        let descends = match crate::gitio::commit_descendant_of(repo, &wip_commit, &head_commit) {
            Ok(d) => d,
            Err(e) => {
                return Err(e);
            },
        };
        if !descends {
            let message = crate::merge_commit_message();
            let refname = crate::refs_heads_name(wip_name.as_str());
            match crate::gitio::commit_with_parents(
                repo,
                refname.as_str(),
                &signature,
                message.as_str(),
                &head_tree,
                &wip_commit,
                Some(&head_commit),
            ) {
                Ok(_) => (),
                Err(e) => {
                    return Err(e);
                },
            }
        }
    }
    Ok(wip_name)
}

} // verus!
