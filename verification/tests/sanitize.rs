use gwipt::errors::CommitMessageError;
use gwipt::message::build_request_text;
use gwipt::message::truncate_diff;
use gwipt::message::DIFF_CHAR_BUDGET;
use gwipt::sanitize::postprocess_summary;

#[test]
fn issue_reference_is_stripped() {
    assert_eq!(postprocess_summary("Add feature (fixes #42)"), Ok("Add feature".to_string()));
}

#[test]
fn bare_issue_reference_is_stripped() {
    assert_eq!(postprocess_summary("Fix crash (#99)"), Ok("Fix crash".to_string()));
    assert_eq!(postprocess_summary("Fix crash, fixes #7"), Ok("Fix crash,".to_string()));
    assert_eq!(postprocess_summary("Close the loop closes #8"), Ok("Close the loop".to_string()));
}

#[test]
fn only_an_issue_reference_is_an_empty_message() {
    assert_eq!(postprocess_summary("fixes #42"), Err(CommitMessageError::EmptyMessage));
    assert_eq!(postprocess_summary("   "), Err(CommitMessageError::EmptyMessage));
    assert_eq!(postprocess_summary(""), Err(CommitMessageError::EmptyMessage));
}

#[test]
fn merge_boilerplate_line_is_stripped() {
    assert_eq!(
        postprocess_summary("Merge pull request #123 from some/branch\nFix the parser"),
        Ok("Fix the parser".to_string())
    );
}

#[test]
fn merge_words_without_newline_stay() {
    assert_eq!(postprocess_summary("Merge parser stages"), Ok("Merge parser stages".to_string()));
}

#[test]
fn result_is_trimmed_and_single_line() {
    assert_eq!(postprocess_summary("  Tidy up   "), Ok("Tidy up".to_string()));
    assert_eq!(postprocess_summary("first line\nsecond line"), Ok("first line".to_string()));
    let got = postprocess_summary("\n  Update docs (fixes #5)  \nmore\n").unwrap();
    assert_eq!(got, "Update docs");
    assert!(!got.contains('\n'));
}

#[test]
fn non_ascii_text_survives_sanitizing() {
    assert_eq!(
        postprocess_summary("Améliore la gestion d'erreurs (fixes #3)"),
        Ok("Améliore la gestion d'erreurs".to_string())
    );
}

#[test]
fn short_diff_is_not_truncated() {
    assert_eq!(truncate_diff("small diff"), "small diff".to_string());
}

#[test]
fn long_diff_is_cut_to_the_budget() {
    let long = "x".repeat(DIFF_CHAR_BUDGET + 1000);
    let cut = truncate_diff(&long);
    assert_eq!(cut.len(), DIFF_CHAR_BUDGET);
    assert_eq!(cut.as_str(), &long[..DIFF_CHAR_BUDGET]);
}

#[test]
fn request_text_carries_context_and_diff() {
    let r = build_request_text("Ada Lovelace", "ada@example.com", "Tue, 01 Jan 2030 10:00:00 +0200", "+one\n-two\n");
    assert_eq!(
        r,
        "Author: Ada Lovelace <ada@example.com>\nDate: Tue, 01 Jan 2030 10:00:00 +0200\nDiff:\n+one\n-two\n"
    );
}
