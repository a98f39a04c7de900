//! Continuous work-in-progress snapshotting onto a shadow branch.
//!
//! The library keeps a `wip/<branch>` shadow branch in step with the checked
//! out branch: it reconciles the two histories, computes the diff between the
//! shadow tree and the working tree, obtains a one-line summary for the delta,
//! and commits the working tree onto the shadow branch.

pub mod diff;
pub mod errors;
pub mod gitio;
pub mod history;
pub mod jsonio;
pub mod message;
pub mod orchestrator;
pub mod reconcile;
pub mod retry;
pub mod sanitize;
pub mod snapshot;
pub mod text;

use vstd::prelude::*;

verus! {

/// The shadow branch for a tracked branch named `head` is `wip/<head>`.
pub open spec fn shadow_name_spec(head: Seq<char>) -> Seq<char> {
    "wip/"@ + head
}

/// Build the shadow branch name for the given tracked branch name.
pub fn shadow_branch_name(head: &str) -> (name: String)
    ensures
        name@ == shadow_name_spec(head@),
{
    let mut name = String::new();
    name.append("wip/");
    name.append(head);
    name
}

/// The full ref name of a local branch.
pub open spec fn refs_heads_spec(name: Seq<char>) -> Seq<char> {
    "refs/heads/"@ + name
}

/// Build the full ref name of a local branch.
pub fn refs_heads_name(name: &str) -> (r: String)
    ensures
        r@ == refs_heads_spec(name@),
{
    let mut r = String::new();
    r.append("refs/heads/");
    r.append(name);
    r
}

/// The fixed message of a reconciliation merge commit.
pub open spec fn merge_message_spec() -> Seq<char> {
    "Merge HEAD into wip/ branch"@
}

/// Build the reconciliation merge commit message.
pub fn merge_commit_message() -> (m: String)
    ensures
        m@ == merge_message_spec(),
{
    let mut m = String::new();
    m.append("Merge HEAD into wip/ branch");
    m
}

/// A snapshot commit's message is the generated summary under a `wip: ` tag.
pub open spec fn snapshot_message_spec(summary: Seq<char>) -> Seq<char> {
    "wip: "@ + summary
}

/// Build a snapshot commit message from a generated summary.
pub fn snapshot_commit_message(summary: &str) -> (m: String)
    ensures
        m@ == snapshot_message_spec(summary@),
{
    let mut m = String::new();
    m.append("wip: ");
    m.append(summary);
    m
}

} // verus!
