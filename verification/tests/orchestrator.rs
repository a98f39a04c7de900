use gwipt::diff::diff_record_is_empty;
use gwipt::diff::join_lines;
use gwipt::diff::render_diff_line;
use gwipt::diff::render_diff_record;
use gwipt::diff::RawDiffLine;
use gwipt::orchestrator::any_relevant_path;
use gwipt::orchestrator::next_stage;
use gwipt::orchestrator::path_in_metadata_dir;
use gwipt::orchestrator::PipelineEvent;
use gwipt::orchestrator::PipelineStage;

fn raw(origin: char, content: &str) -> RawDiffLine {
    RawDiffLine { origin, content: content.to_string() }
}

#[test]
fn stages_progress_in_order() {
    assert_eq!(
        next_stage(PipelineStage::Idle, PipelineEvent::RunStarted),
        PipelineStage::Reconciling
    );
    assert_eq!(
        next_stage(PipelineStage::Reconciling, PipelineEvent::ReconcileSucceeded),
        PipelineStage::Diffing
    );
    assert_eq!(
        next_stage(PipelineStage::Diffing, PipelineEvent::DiffProduced),
        PipelineStage::GeneratingMessage
    );
    assert_eq!(
        next_stage(PipelineStage::GeneratingMessage, PipelineEvent::MessageObtained),
        PipelineStage::Committing
    );
    assert_eq!(
        next_stage(PipelineStage::Committing, PipelineEvent::CommitSucceeded),
        PipelineStage::Idle
    );
}

#[test]
fn empty_diff_ends_the_run() {
    assert_eq!(next_stage(PipelineStage::Diffing, PipelineEvent::DiffEmpty), PipelineStage::Idle);
}

#[test]
fn any_failure_ends_the_run() {
    assert_eq!(
        next_stage(PipelineStage::Reconciling, PipelineEvent::StageFailed),
        PipelineStage::Idle
    );
    assert_eq!(
        next_stage(PipelineStage::GeneratingMessage, PipelineEvent::StageFailed),
        PipelineStage::Idle
    );
    assert_eq!(
        next_stage(PipelineStage::Committing, PipelineEvent::StageFailed),
        PipelineStage::Idle
    );
}

#[test]
fn metadata_paths_are_recognised() {
    assert!(path_in_metadata_dir(".git"));
    assert!(path_in_metadata_dir(".git/objects/ab/cdef"));
    assert!(path_in_metadata_dir("project/.git/HEAD"));
    assert!(!path_in_metadata_dir(".gitignore"));
    assert!(!path_in_metadata_dir("src/main.rs"));
    assert!(!path_in_metadata_dir("foo.git"));
    assert!(!path_in_metadata_dir("docs/.github/workflow.yml"));
    // Either separator convention bounds a component.
    assert!(path_in_metadata_dir("proj\\.git\\HEAD"));
    assert!(!path_in_metadata_dir("proj\\b.git"));
}

#[test]
fn a_batch_entirely_inside_metadata_is_skipped() {
    let only_git = vec![".git/index".to_string(), ".git/objects/aa".to_string()];
    assert!(!any_relevant_path(&only_git));
    let mixed = vec![".git/index".to_string(), "src/lib.rs".to_string()];
    assert!(any_relevant_path(&mixed));
    assert!(!any_relevant_path(&vec![]));
}

#[test]
fn content_lines_get_their_sigil() {
    assert_eq!(render_diff_line('+', "added"), "+added");
    assert_eq!(render_diff_line('-', "removed"), "-removed");
    assert_eq!(render_diff_line(' ', "context"), " context");
    assert_eq!(render_diff_line('H', "@@ -1 +1 @@"), "@@ -1 +1 @@");
    assert_eq!(render_diff_line('F', "diff --git a b"), "diff --git a b");
}

#[test]
fn record_starts_with_separator_and_joins_in_order() {
    let lines = render_diff_record(&vec![raw('+', "one\n"), raw('-', "two\n")]);
    assert_eq!(lines.len(), 3);
    assert_eq!(lines[0], "\n\n");
    assert_eq!(lines[1], "+one\n");
    assert_eq!(lines[2], "-two\n");
    assert_eq!(join_lines(&lines), "\n\n+one\n-two\n");
    assert!(!diff_record_is_empty(&lines));
}

#[test]
fn separator_alone_is_an_empty_record() {
    let lines = render_diff_record(&vec![]);
    assert_eq!(lines.len(), 1);
    assert!(diff_record_is_empty(&lines));
}
