//! Trusted declarations for the version-control library.
//!
//! Every operation on the on-disk repository goes through one of these
//! wrappers; what each returns depends on the repository's state on disk, so
//! the wrappers state nothing of their results, and the callers' contracts
//! hold whatever comes back.

use vstd::prelude::*;

verus! {

#[verifier::external_type_specification]
#[verifier::external_body]
pub struct ExGitRepository(git2::Repository);

#[verifier::external_type_specification]
#[verifier::external_body]
pub struct ExGitReference<'a>(git2::Reference<'a>);

#[verifier::external_type_specification]
#[verifier::external_body]
pub struct ExGitBranch<'a>(git2::Branch<'a>);

#[verifier::external_type_specification]
#[verifier::external_body]
pub struct ExGitCommit<'a>(git2::Commit<'a>);

#[verifier::external_type_specification]
#[verifier::external_body]
pub struct ExGitTree<'a>(git2::Tree<'a>);

#[verifier::external_type_specification]
#[verifier::external_body]
pub struct ExGitSignature<'a>(git2::Signature<'a>);

#[verifier::external_type_specification]
#[verifier::external_body]
pub struct ExGitIndex(git2::Index);

#[verifier::external_type_specification]
#[verifier::external_body]
pub struct ExGitDiff<'a>(git2::Diff<'a>);

#[verifier::external_type_specification]
#[verifier::external_body]
pub struct ExGitOid(git2::Oid);

#[verifier::external_type_specification]
#[verifier::external_body]
pub struct ExGitError(git2::Error);

/// Relies on `git2::Repository::head`: the resolved reference HEAD points at.
#[verifier::external_body]
pub(crate) fn repo_head<'a>(repo: &'a git2::Repository) -> (r: Result<
    git2::Reference<'a>,
    git2::Error,
>) {
    repo.head()
}

/// Relies on `git2::Reference::is_branch`: whether the reference is a local
/// branch.
#[verifier::external_body]
pub(crate) fn reference_is_branch(reference: &git2::Reference) -> (r: bool) {
    reference.is_branch()
}

/// Relies on `git2::Reference::shorthand`: the short name of the reference.
#[verifier::external_body]
pub(crate) fn reference_shorthand(reference: &git2::Reference) -> (r: Result<
    String,
    git2::Error,
>) {
    match reference.shorthand() {
        Ok(s) => Ok(s.to_string()),
        Err(e) => Err(e),
    }
}

/// Relies on `git2::Reference::peel_to_commit`: the commit the reference
/// resolves to.
#[verifier::external_body]
pub(crate) fn reference_peel_to_commit<'a>(reference: &git2::Reference<'a>) -> (r: Result<
    git2::Commit<'a>,
    git2::Error,
>) {
    reference.peel_to_commit()
}

/// Relies on `git2::Commit::tree`: the tree the commit carries.
#[verifier::external_body]
pub(crate) fn commit_tree<'a>(commit: &git2::Commit<'a>) -> (r: Result<
    git2::Tree<'a>,
    git2::Error,
>) {
    commit.tree()
}

/// Relies on `git2::Commit::id` and `git2::Oid`'s hex rendering: the
/// commit's identifier as text.
#[verifier::external_body]
pub(crate) fn commit_id_hex(commit: &git2::Commit) -> (r: String) {
    format!("{}", commit.id())
}

/// Relies on `git2::Repository::find_branch`: the local branch of that name,
/// or an error when it does not exist.
#[verifier::external_body]
pub(crate) fn find_local_branch<'a>(repo: &'a git2::Repository, name: &str) -> (r: Result<
    git2::Branch<'a>,
    git2::Error,
>) {
    repo.find_branch(name, git2::BranchType::Local)
}

/// Relies on `git2::Repository::branch`: creates a branch of that name
/// pointing at the target commit, replacing an existing one when `force`.
#[verifier::external_body]
pub(crate) fn create_branch<'a>(
    repo: &'a git2::Repository,
    name: &str,
    target: &git2::Commit<'a>,
    force: bool,
) -> (r: Result<git2::Branch<'a>, git2::Error>) {
    repo.branch(name, target, force)
}

/// Relies on `git2::Branch::get` and `git2::Reference::peel_to_commit`: the
/// commit at the branch's tip.
#[verifier::external_body]
pub(crate) fn branch_peel_to_commit<'a>(branch: &git2::Branch<'a>) -> (r: Result<
    git2::Commit<'a>,
    git2::Error,
>) {
    branch.get().peel_to_commit()
}

/// Relies on `git2::Branch::get` and `git2::Reference::peel_to_tree`: the
/// tree at the branch's tip.
#[verifier::external_body]
pub(crate) fn branch_peel_to_tree<'a>(branch: &git2::Branch<'a>) -> (r: Result<
    git2::Tree<'a>,
    git2::Error,
>) {
    branch.get().peel_to_tree()
}

/// Relies on `git2::Repository::signature`: the repository's configured
/// author identity.
#[verifier::external_body]
pub(crate) fn repo_signature(repo: &git2::Repository) -> (r: Result<
    git2::Signature<'static>,
    git2::Error,
>) {
    repo.signature()
}

/// Relies on `git2::Signature::name`: the configured name, where valid UTF-8.
#[verifier::external_body]
pub(crate) fn signature_name(signature: &git2::Signature) -> (r: Result<String, git2::Error>) {
    match signature.name() {
        Ok(s) => Ok(s.to_string()),
        Err(e) => Err(e),
    }
}

/// Relies on `git2::Signature::email`: the configured email, where valid
/// UTF-8.
#[verifier::external_body]
pub(crate) fn signature_email(signature: &git2::Signature) -> (r: Result<String, git2::Error>) {
    match signature.email() {
        Ok(s) => Ok(s.to_string()),
        Err(e) => Err(e),
    }
}

/// Relies on `git2::Repository::graph_descendant_of` on the two commits'
/// ids: whether the first commit is a (strict) descendant of the second.
#[verifier::external_body]
pub(crate) fn commit_descendant_of(
    repo: &git2::Repository,
    commit: &git2::Commit,
    ancestor: &git2::Commit,
) -> (r: Result<bool, git2::Error>) {
    repo.graph_descendant_of(commit.id(), ancestor.id())
}

/// Relies on `git2::Repository::commit`: writes a commit with the given
/// author, message, tree and parents, and points `refname` at it in the one
/// ref update the call performs; where the ref exists, the call insists that
/// the first parent is its current tip, so a stale parent fails instead of
/// losing a commit.
#[verifier::external_body]
pub(crate) fn commit_with_parents(
    repo: &git2::Repository,
    refname: &str,
    signature: &git2::Signature,
    message: &str,
    tree: &git2::Tree,
    first_parent: &git2::Commit,
    second_parent: Option<&git2::Commit>,
) -> (r: Result<git2::Oid, git2::Error>) {
    match second_parent {
        Some(p) => repo.commit(
            Some(refname),
            signature,
            signature,
            message,
            tree,
            &[first_parent, p],
        ),
        None => repo.commit(Some(refname), signature, signature, message, tree, &[first_parent]),
    }
}

/// Relies on `git2::Repository::index`: the repository's index.
#[verifier::external_body]
pub(crate) fn repo_index(repo: &git2::Repository) -> (r: Result<git2::Index, git2::Error>) {
    repo.index()
}

/// Relies on `git2::Index::add_all` with the `*` pathspec: stages every
/// working-tree path not excluded by the repository's ignore rules.
#[verifier::external_body]
pub(crate) fn index_add_all_worktree(index: &mut git2::Index) -> (r: Result<(), git2::Error>) {
    index.add_all(["*"].iter(), git2::IndexAddOption::DEFAULT, None)
}

/// Relies on `git2::Index::write_tree`: writes the staged content as a tree
/// object and returns its id.
#[verifier::external_body]
pub(crate) fn index_write_tree(index: &mut git2::Index) -> (r: Result<git2::Oid, git2::Error>) {
    index.write_tree()
}

/// Relies on `git2::Repository::find_tree`: the tree object with that id.
#[verifier::external_body]
pub(crate) fn find_tree<'a>(repo: &'a git2::Repository, oid: git2::Oid) -> (r: Result<
    git2::Tree<'a>,
    git2::Error,
>) {
    repo.find_tree(oid)
}

/// Relies on `git2::Repository::diff_tree_to_workdir`: the diff from the
/// given tree to the working tree, with the record's fixed policy — minimal
/// diff, three context lines, untracked files included with their content.
#[verifier::external_body]
pub(crate) fn diff_tree_to_workdir<'a>(repo: &'a git2::Repository, tree: &git2::Tree) -> (r: Result<
    git2::Diff<'a>,
    git2::Error,
>) {
    let mut opts = git2::DiffOptions::new();
    opts.minimal(true)
        .include_untracked(true)
        .context_lines(3)
        .recurse_untracked_dirs(true)
        .show_untracked_content(true);
    repo.diff_tree_to_workdir(Some(tree), Some(&mut opts))
}

/// Relies on `git2::Diff::print` in patch format: hands out each line of the
/// rendered diff with its origin sigil; text that is not valid UTF-8 becomes
/// the empty string rather than an error.
#[verifier::external_body]
pub(crate) fn diff_collect_lines(diff: &git2::Diff) -> (r: Result<
    Vec<crate::diff::RawDiffLine>,
    git2::Error,
>) {
    let mut lines: Vec<crate::diff::RawDiffLine> = Vec::new();
    diff.print(git2::DiffFormat::Patch, |_, _, l| {
        lines.push(crate::diff::RawDiffLine {
            origin: l.origin(),
            content: core::str::from_utf8(l.content()).unwrap_or("").to_string(),
        });
        true
    })?;
    Ok(lines)
}

/// Relies on `git2::Error::message`: the error's description.
#[verifier::external_body]
pub(crate) fn git_error_message(error: &git2::Error) -> (r: String) {
    error.message().to_string()
}

/// Relies on `git2::Error::from_str`: an error carrying the given text.
#[verifier::external_body]
pub(crate) fn git_error_from_str(message: &str) -> (r: git2::Error) {
    git2::Error::from_str(message)
}

} // verus!
