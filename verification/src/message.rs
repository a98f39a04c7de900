//! The message-client core: the request text sent to the generation service
//! and the extraction of the one summary string from its reply.
//!
//! The transport itself (an HTTP call) stays outside the library; it hands
//! back the reply's tool calls as plain name/argument pairs, and everything
//! from there on is verified.

use vstd::prelude::*;
use crate::errors::CommitMessageError;
use crate::sanitize::is_ws;
use crate::sanitize::sanitize_spec;

verus! {

/// One tool call of a service reply, as plain values.
pub struct ToolCallRecord {
    pub name: String,
    pub arguments: String,
}

/// The name of the tool the service is asked to call.
pub open spec fn tool_name_spec() -> Seq<char> {
    "write_commit_message"@
}

/// Build the tool name.
pub fn tool_name() -> (r: String)
    ensures
        r@ == tool_name_spec(),
{
    let mut r = String::new();
    r.append("write_commit_message");
    r
}

/// Build the description of the tool, for the request.
pub fn tool_description() -> (r: String)
    ensures
        r@ == "Generate a commit message based on code changes"@,
{
    let mut r = String::new();
    r.append("Generate a commit message based on code changes");
    r
}

/// Build the name of the tool's one parameter.
pub fn tool_parameter_name() -> (r: String)
    ensures
        r@ == "message"@,
{
    let mut r = String::new();
    r.append("message");
    r
}

/// Build the description of the tool's one parameter.
pub fn tool_parameter_description() -> (r: String)
    ensures
        r@ == "Clear, concise one-line commit message summarizing the changes"@,
{
    let mut r = String::new();
    r.append("Clear, concise one-line commit message summarizing the changes");
    r
}

/// The instruction given to the service: the reply must be one concise line
/// in imperative mood.
pub open spec fn system_instruction_spec() -> Seq<char> {
    "You are an expert software engineer writing a git commit message.\nThe user will provide a diff showing changes.\nWrite a one-line commit message in the conventional style.\nThe message should:\n- Start with a verb in imperative tense\n- Be under 72 characters\n"@
}

/// Build the instruction text given to the service.
pub fn system_instruction() -> (r: String)
    ensures
        r@ == system_instruction_spec(),
        r@.len() > 0,
{
    let mut r = String::new();
    r.append(
        "You are an expert software engineer writing a git commit message.\nThe user will provide a diff showing changes.\nWrite a one-line commit message in the conventional style.\nThe message should:\n- Start with a verb in imperative tense\n- Be under 72 characters\n",
    );
    proof {
        reveal_strlit(
            "You are an expert software engineer writing a git commit message.\nThe user will provide a diff showing changes.\nWrite a one-line commit message in the conventional style.\nThe message should:\n- Start with a verb in imperative tense\n- Be under 72 characters\n",
        );
        assert(r@ =~= system_instruction_spec());
    }
    r
}

/// The character budget the diff text must fit into; the rest of the request
/// is fixed text and short context, so the diff takes the leading portion of
/// this many characters.
pub const DIFF_CHAR_BUDGET: usize = 12000;

/// The diff cut to its leading portion within the budget.
pub open spec fn truncated_diff_spec(d: Seq<char>) -> Seq<char> {
    if d.len() <= DIFF_CHAR_BUDGET {
        d
    } else {
        d.subrange(0, DIFF_CHAR_BUDGET as int)
    }
}

/// Cut the diff text to the character budget, keeping its leading portion.
pub fn truncate_diff(diff: &str) -> (out: String)
    ensures
        out@ == truncated_diff_spec(diff@),
{
    let chars = crate::text::chars_vec(diff);
    if chars.len() <= DIFF_CHAR_BUDGET {
        let mut out = String::new();
        out.append(diff);
        out
    } else {
        let mut kept: Vec<char> = Vec::new();
        let mut i: usize = 0;
        while i < DIFF_CHAR_BUDGET
            invariant
                i <= DIFF_CHAR_BUDGET < chars@.len(),
                chars@ == diff@,
                kept@ == diff@.subrange(0, i as int),
            decreases DIFF_CHAR_BUDGET - i,
        {
            let ghost prev = kept@;
            kept.push(chars[i]);
            proof {
                assert(prev.push(diff@[i as int]) =~= diff@.subrange(0, i as int + 1));
            }
            i = i + 1;
        }
        crate::text::string_from_chars(&kept)
    }
}

/// The user-visible request text: authorship and timestamp context followed
/// by the diff, truncated to the budget.
pub open spec fn request_text_spec(
    author_name: Seq<char>,
    author_email: Seq<char>,
    timestamp: Seq<char>,
    diff: Seq<char>,
) -> Seq<char> {
    "Author: "@ + author_name + " <"@ + author_email + ">\nDate: "@ + timestamp + "\nDiff:\n"@
        + truncated_diff_spec(diff)
}

/// Build the request text from authorship context, a timestamp rendered with
/// its UTC offset, and the diff text.
pub fn build_request_text(
    author_name: &str,
    author_email: &str,
    timestamp: &str,
    diff: &str,
) -> (r: String)
    ensures
        r@ == request_text_spec(author_name@, author_email@, timestamp@, diff@),
{
    let mut r = String::new();
    r.append("Author: ");
    r.append(author_name);
    r.append(" <");
    r.append(author_email);
    r.append(">\nDate: ");
    r.append(timestamp);
    r.append("\nDiff:\n");
    let cut = truncate_diff(diff);
    r.append(cut.as_str());
    r
}

/// Read the repository's configured author identity, for the request's
/// authorship context.
pub fn author_identity(repo: &git2::Repository) -> (r: Result<(String, String), git2::Error>) {
    let signature = match crate::gitio::repo_signature(repo) {
        Ok(s) => s,
        Err(e) => {
            return Err(e);
        },
    };
    let name = match crate::gitio::signature_name(&signature) {
        Ok(n) => n,
        Err(e) => {
            return Err(e);
        },
    };
    let email = match crate::gitio::signature_email(&signature) {
        Ok(m) => m,
        Err(e) => {
            return Err(e);
        },
    };
    Ok((name, email))
}

/// Check the configured generation-service credential: an absent or empty
/// key is the `MissingApiKey` error, before any attempt is made.
pub fn check_api_key(key: &Option<String>) -> (r: Result<(), CommitMessageError>)
    ensures
        r is Ok <==> (key matches Some(k) && k@.len() > 0),
        r is Err ==> r == Err::<(), CommitMessageError>(CommitMessageError::MissingApiKey),
{
    match key {
        Some(k) => {
            if k.as_str().is_empty() {
                Err(CommitMessageError::MissingApiKey)
            } else {
                Ok(())
            }
        },
        None => Err(CommitMessageError::MissingApiKey),
    }
}

/// Whether some call in the reply names the expected tool.
pub open spec fn has_expected_call(calls: Seq<ToolCallRecord>) -> bool {
    exists|j: int| 0 <= j < calls.len() && calls[j].name@ == tool_name_spec()
}

/// The position of the first call that names the expected tool.
pub open spec fn first_match_index(calls: Seq<ToolCallRecord>) -> int
    decreases calls.len(),
{
    if calls.len() == 0 {
        0
    } else if calls[0].name@ == tool_name_spec() {
        0
    } else {
        1 + first_match_index(calls.drop_first())
    }
}

/// The arguments text of the first call that names the expected tool.
pub open spec fn expected_call_args(calls: Seq<ToolCallRecord>) -> Seq<char> {
    calls[first_match_index(calls)].arguments@
}

/// The first matching position is where the scan, having passed only
/// non-matching calls, finds a match.
proof fn lemma_first_match_index(calls: Seq<ToolCallRecord>, j: int)
    requires
        0 <= j < calls.len(),
        forall|i: int| 0 <= i < j ==> calls[i].name@ != tool_name_spec(),
        calls[j].name@ == tool_name_spec(),
    ensures
        first_match_index(calls) == j,
    decreases calls.len(),
{
    if j > 0 {
        assert(calls[0].name@ != tool_name_spec());
        assert forall|i: int| 0 <= i < j - 1 implies calls.drop_first()[i].name@
            != tool_name_spec() by {
            assert(calls.drop_first()[i] == calls[i + 1]);
        }
        assert(calls.drop_first()[j - 1] == calls[j]);
        lemma_first_match_index(calls.drop_first(), j - 1);
    }
}

/// Extract the raw candidate summary from a reply's tool calls: the
/// `message` field of the arguments of the first call named
/// `write_commit_message`.  A reply without such a call is missing the tool
/// call; arguments without a string `message` field are invalid.
pub fn extract_candidate(calls: &Vec<ToolCallRecord>) -> (r: Result<String, CommitMessageError>)
    ensures
        r == Err::<String, CommitMessageError>(CommitMessageError::MissingToolCall)
            <==> !has_expected_call(calls@),
        has_expected_call(calls@) ==> {
            &&& (r matches Ok(m) <==> crate::jsonio::message_field_of(expected_call_args(calls@))
                is Some)
            &&& (r matches Ok(m) ==> m@ == crate::jsonio::message_field_of(
                expected_call_args(calls@),
            )->0)
            &&& (crate::jsonio::message_field_of(expected_call_args(calls@)) is None ==> r
                == Err::<String, CommitMessageError>(CommitMessageError::InvalidToolArguments))
        },
        r matches Err(e) ==> e == CommitMessageError::MissingToolCall || e
            == CommitMessageError::InvalidToolArguments,
{
    let needle = tool_name();
    let mut j: usize = 0;
    while j < calls.len()
        invariant
            j <= calls@.len(),
            needle@ == tool_name_spec(),
            forall|i: int| 0 <= i < j ==> calls@[i].name@ != tool_name_spec(),
        decreases calls@.len() - j,
    {
        if calls[j].name == needle {
            proof {
                lemma_first_match_index(calls@, j as int);
            }
            match crate::jsonio::extract_message_field(calls[j].arguments.as_str()) {
                Some(field) => {
                    return Ok(field);
                },
                None => {
                    return Err(CommitMessageError::InvalidToolArguments);
                },
            }
        }
        j = j + 1;
    }
    Err(CommitMessageError::MissingToolCall)
}

/// The summary a reply yields: the `message` field of the first expected
/// tool call, sanitized; a reply without the call, without the field, or
/// whose field sanitizes to nothing is the corresponding error.
pub fn summary_from_tool_calls(calls: &Vec<ToolCallRecord>) -> (r: Result<
    String,
    CommitMessageError,
>)
    ensures
        r == Err::<String, CommitMessageError>(CommitMessageError::MissingToolCall)
            <==> !has_expected_call(calls@),
        has_expected_call(calls@) ==> {
            &&& (crate::jsonio::message_field_of(expected_call_args(calls@)) is None ==> r
                == Err::<String, CommitMessageError>(CommitMessageError::InvalidToolArguments))
            &&& (crate::jsonio::message_field_of(expected_call_args(calls@)) matches Some(field)
                ==> {
                &&& (sanitize_spec(field).len() == 0 ==> r == Err::<
                    String,
                    CommitMessageError,
                >(CommitMessageError::EmptyMessage))
                &&& (sanitize_spec(field).len() > 0 ==> (r matches Ok(m) && m@ == sanitize_spec(
                    field,
                )))
            })
        },
        r matches Ok(m) ==> m@.len() > 0 && !is_ws(m@[0]) && !is_ws(m@.last()) && (forall|j: int|
            0 <= j < m@.len() ==> m@[j] != '\n'),
        r matches Err(e) ==> e == CommitMessageError::MissingToolCall || e
            == CommitMessageError::InvalidToolArguments || e == CommitMessageError::EmptyMessage,
{
    let candidate = match extract_candidate(calls) {
        Ok(c) => c,
        Err(e) => {
            return Err(e);
        },
    };
    match crate::sanitize::postprocess_summary(candidate.as_str()) {
        Ok(m) => {
            proof {
                crate::sanitize::lemma_sanitized_shape(candidate@);
            }
            Ok(m)
        },
        Err(e) => Err(e),
    }
}

} // verus!
