//! The textual diff record: raw diff lines rendered into the ordered record
//! that is sent to the generation service, and the emptiness gate that skips
//! the rest of the pipeline when there is nothing to describe.

use vstd::prelude::*;

verus! {

/// One raw line of the computed diff, as the version-control library hands
/// it out: the origin sigil and the line's text (empty where the content was
/// not valid UTF-8).
pub struct RawDiffLine {
    pub origin: char,
    pub content: String,
}

/// A content line (`+` added, `-` removed, ` ` context) carries its sigil;
/// structural lines (file and hunk headers) pass through as they are.
pub open spec fn rendered_line_spec(origin: char, content: Seq<char>) -> Seq<char> {
    if origin == '+' || origin == '-' || origin == ' ' {
        seq![origin] + content
    } else {
        content
    }
}

/// Render one diff line.
pub fn render_diff_line(origin: char, content: &str) -> (r: String)
    ensures
        r@ == rendered_line_spec(origin, content@),
{
    let mut r = String::new();
    if origin == '+' {
        r.append("+");
        proof {
            reveal_strlit("+");
            assert("+"@ =~= seq!['+']);
        }
    } else if origin == '-' {
        r.append("-");
        proof {
            reveal_strlit("-");
            assert("-"@ =~= seq!['-']);
        }
    } else if origin == ' ' {
        r.append(" ");
        proof {
            reveal_strlit(" ");
            assert(" "@ =~= seq![' ']);
        }
    }
    r.append(content);
    r
}

/// Render the whole record: the fixed two-newline separator first, then one
/// rendered line per raw line, in order.
pub fn render_diff_record(raw: &Vec<RawDiffLine>) -> (lines: Vec<String>)
    ensures
        lines@.len() == raw@.len() + 1,
        lines@[0]@ == "\n\n"@,
        forall|i: int|
            0 <= i < raw@.len() ==> #[trigger] lines@[i + 1]@ == rendered_line_spec(
                raw@[i].origin,
                raw@[i].content@,
            ),
{
    let mut lines: Vec<String> = Vec::new();
    let mut sep = String::new();
    sep.append("\n\n");
    lines.push(sep);
    let mut i: usize = 0;
    while i < raw.len()
        invariant
            i <= raw@.len(),
            lines@.len() == i + 1,
            lines@[0]@ == "\n\n"@,
            forall|j: int|
                0 <= j < i ==> #[trigger] lines@[j + 1]@ == rendered_line_spec(
                    raw@[j].origin,
                    raw@[j].content@,
                ),
        decreases raw@.len() - i,
    {
        lines.push(render_diff_line(raw[i].origin, raw[i].content.as_str()));
        i = i + 1;
    }
    lines
}

/// The record is empty when it holds nothing but the separator: a run over
/// an unchanged working tree must produce no commit.
pub fn diff_record_is_empty(lines: &Vec<String>) -> (r: bool)
    ensures
        r == (lines@.len() <= 1),
{
    lines.len() <= 1
}

/// The record's lines joined into the one diff text, in order.
pub open spec fn joined_from(ls: Seq<String>, i: int) -> Seq<char>
    decreases ls.len() - i,
{
    if 0 <= i < ls.len() {
        ls[i]@ + joined_from(ls, i + 1)
    } else {
        Seq::empty()
    }
}

/// Join the record into one text.
pub fn join_lines(lines: &Vec<String>) -> (r: String)
    ensures
        r@ == joined_from(lines@, 0),
{
    let mut r = String::new();
    let mut i: usize = 0;
    while i < lines.len()
        invariant
            i <= lines@.len(),
            joined_from(lines@, 0) == r@ + joined_from(lines@, i as int),
        decreases lines@.len() - i,
    {
        let ghost prev = r@;
        r.append(lines[i].as_str());
        proof {
            assert(joined_from(lines@, i as int) == lines@[i as int]@ + joined_from(
                lines@,
                i as int + 1,
            ));
            assert(prev + joined_from(lines@, i as int) =~= r@ + joined_from(
                lines@,
                i as int + 1,
            ));
        }
        i = i + 1;
    }
    proof {
        assert(r@ + joined_from(lines@, lines@.len() as int) =~= r@);
    }
    r
}

/// Compute the diff from the shadow branch's tree to the working tree,
/// untracked files included, with a three-line context window and the
/// minimal-edit preference.
pub fn prepare_diff<'a>(repo: &'a git2::Repository, wip_branch_name: &str) -> (r: Result<
    git2::Diff<'a>,
    git2::Error,
>) {
    let branch = match crate::gitio::find_local_branch(repo, wip_branch_name) {
        Ok(b) => b,
        Err(e) => {
            return Err(e);
        },
    };
    let tree = match crate::gitio::branch_peel_to_tree(&branch) {
        Ok(t) => t,
        Err(e) => {
            return Err(e);
        },
    };
    crate::gitio::diff_tree_to_workdir(repo, &tree)
}

/// Render a computed diff as the ordered record: the fixed two-newline
/// separator first, then each line with its origin sigil (content that is
/// not valid UTF-8 appears as empty text rather than failing the run).
pub fn diff_lines(diff: &git2::Diff) -> (r: Result<Vec<String>, git2::Error>)
    ensures
        r matches Ok(lines) ==> lines@.len() >= 1 && lines@[0]@ == "\n\n"@,
{
    let raw = match crate::gitio::diff_collect_lines(diff) {
        Ok(raw) => raw,
        Err(e) => {
            return Err(e);
        },
    };
    Ok(render_diff_record(&raw))
}

} // verus!
