use gwipt::errors::CommitMessageError;
use gwipt::merge_commit_message;
use gwipt::message::check_api_key;
use gwipt::message::summary_from_tool_calls;
use gwipt::message::tool_name;
use gwipt::message::ToolCallRecord;
use gwipt::refs_heads_name;
use gwipt::shadow_branch_name;
use gwipt::snapshot_commit_message;

fn call(name: &str, arguments: &str) -> ToolCallRecord {
    ToolCallRecord { name: name.to_string(), arguments: arguments.to_string() }
}

#[test]
fn summary_is_extracted_and_sanitized() {
    let calls = vec![call("write_commit_message", "{\"message\": \"Add retries (fixes #42)\"}")];
    assert_eq!(summary_from_tool_calls(&calls), Ok("Add retries".to_string()));
}

#[test]
fn first_matching_tool_call_wins() {
    let calls = vec![
        call("other_tool", "{}"),
        call("write_commit_message", "{\"message\": \"Refactor parser\"}"),
        call("write_commit_message", "{\"message\": \"ignored\"}"),
    ];
    assert_eq!(summary_from_tool_calls(&calls), Ok("Refactor parser".to_string()));
}

#[test]
fn missing_tool_call_is_reported() {
    assert_eq!(summary_from_tool_calls(&vec![]), Err(CommitMessageError::MissingToolCall));
    let calls = vec![call("some_other_tool", "{\"message\": \"x\"}")];
    assert_eq!(summary_from_tool_calls(&calls), Err(CommitMessageError::MissingToolCall));
}

#[test]
fn malformed_arguments_are_reported() {
    let bad_json = vec![call("write_commit_message", "not json at all")];
    assert_eq!(summary_from_tool_calls(&bad_json), Err(CommitMessageError::InvalidToolArguments));
    let no_field = vec![call("write_commit_message", "{\"other\": 1}")];
    assert_eq!(summary_from_tool_calls(&no_field), Err(CommitMessageError::InvalidToolArguments));
    let not_a_string = vec![call("write_commit_message", "{\"message\": 7}")];
    assert_eq!(
        summary_from_tool_calls(&not_a_string),
        Err(CommitMessageError::InvalidToolArguments)
    );
}

#[test]
fn summary_empty_after_sanitizing_is_an_error() {
    let calls = vec![call("write_commit_message", "{\"message\": \"fixes #1\"}")];
    assert_eq!(summary_from_tool_calls(&calls), Err(CommitMessageError::EmptyMessage));
}

#[test]
fn api_key_must_be_present_and_non_empty() {
    assert_eq!(check_api_key(&None), Err(CommitMessageError::MissingApiKey));
    assert_eq!(check_api_key(&Some(String::new())), Err(CommitMessageError::MissingApiKey));
    assert_eq!(check_api_key(&Some("SECRET-REDACTED".to_string())), Ok(()));
}

#[test]
fn naming_conventions() {
    assert_eq!(shadow_branch_name("main"), "wip/main");
    assert_eq!(shadow_branch_name("feature/x"), "wip/feature/x");
    assert_eq!(refs_heads_name("wip/main"), "refs/heads/wip/main");
    assert_eq!(merge_commit_message(), "Merge HEAD into wip/ branch");
    assert_eq!(snapshot_commit_message("Add retries"), "wip: Add retries");
    assert_eq!(tool_name(), "write_commit_message");
}

#[test]
fn error_descriptions_name_the_failure() {
    assert_eq!(
        CommitMessageError::MissingApiKey.message(),
        "OPENAI_API_KEY environment variable is not set."
    );
    assert_eq!(
        CommitMessageError::MissingToolCall.message(),
        "LLM response did not include the expected tool call."
    );
    assert_eq!(
        CommitMessageError::InvalidToolArguments.message(),
        "LLM tool call had invalid or missing arguments."
    );
    assert_eq!(CommitMessageError::EmptyMessage.message(), "LLM produced an empty commit message.");
    assert_eq!(
        CommitMessageError::RateLimitExceeded.message(),
        "LLM service kept rate-limiting past the retry ceiling."
    );
    assert_eq!(
        CommitMessageError::AuthFailure.message(),
        "LLM service rejected the configured credential."
    );
    assert_eq!(CommitMessageError::ServiceFailure.message(), "LLM service call failed.");
}

#[test]
fn run_failure_descriptions_carry_the_stage() {
    let wrapped = gwipt::errors::ChangeHandlingError::CommitMessage(
        CommitMessageError::EmptyMessage,
    );
    assert_eq!(
        wrapped.message(),
        "Error getting commit message: LLM produced an empty commit message."
    );
}
