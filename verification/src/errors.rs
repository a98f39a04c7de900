//! Typed failures of the pipeline stages.

use vstd::prelude::*;

verus! {

/// Failures of the summary-generation stage.
#[derive(Debug, PartialEq, Eq)]
pub enum CommitMessageError {
    /// No generation-service credential is configured.
    MissingApiKey,
    /// The service reply did not include the expected tool call.
    MissingToolCall,
    /// The tool call's arguments were malformed or lacked the message field.
    InvalidToolArguments,
    /// The candidate summary was empty once sanitized.
    EmptyMessage,
    /// The service kept rate-limiting past the retry ceiling.
    RateLimitExceeded,
    /// The service rejected the credential.
    AuthFailure,
    /// The service failed in a way that is not worth retrying.
    ServiceFailure,
}

impl CommitMessageError {
    /// The description each failure carries.
    pub open spec fn description_spec(self) -> Seq<char> {
        match self {
            CommitMessageError::MissingApiKey => {
                "OPENAI_API_KEY environment variable is not set."@
            },
            CommitMessageError::MissingToolCall => {
                "LLM response did not include the expected tool call."@
            },
            CommitMessageError::InvalidToolArguments => {
                "LLM tool call had invalid or missing arguments."@
            },
            CommitMessageError::EmptyMessage => "LLM produced an empty commit message."@,
            CommitMessageError::RateLimitExceeded => {
                "LLM service kept rate-limiting past the retry ceiling."@
            },
            CommitMessageError::AuthFailure => "LLM service rejected the configured credential."@,
            CommitMessageError::ServiceFailure => "LLM service call failed."@,
        }
    }

    /// A human-readable description of the failure.
    pub fn message(&self) -> (m: String)
        ensures
            m@ == self.description_spec(),
            m@.len() > 0,
    {
        let mut m = String::new();
        match self {
            CommitMessageError::MissingApiKey => {
                m.append("OPENAI_API_KEY environment variable is not set.");
            },
            CommitMessageError::MissingToolCall => {
                m.append("LLM response did not include the expected tool call.");
            },
            CommitMessageError::InvalidToolArguments => {
                m.append("LLM tool call had invalid or missing arguments.");
            },
            CommitMessageError::EmptyMessage => {
                m.append("LLM produced an empty commit message.");
            },
            CommitMessageError::RateLimitExceeded => {
                m.append("LLM service kept rate-limiting past the retry ceiling.");
            },
            CommitMessageError::AuthFailure => {
                m.append("LLM service rejected the configured credential.");
            },
            CommitMessageError::ServiceFailure => {
                m.append("LLM service call failed.");
            },
        }
        proof {
            reveal_strlit("OPENAI_API_KEY environment variable is not set.");
            reveal_strlit("LLM response did not include the expected tool call.");
            reveal_strlit("LLM tool call had invalid or missing arguments.");
            reveal_strlit("LLM produced an empty commit message.");
            reveal_strlit("LLM service kept rate-limiting past the retry ceiling.");
            reveal_strlit("LLM service rejected the configured credential.");
            reveal_strlit("LLM service call failed.");
            assert(m@ =~= self.description_spec());
        }
        m
    }
}

/// Failure of one whole pipeline run; the orchestrator logs it and waits
/// for the next batch.
#[derive(Debug)]
pub enum ChangeHandlingError {
    /// A repository operation failed.
    Git(git2::Error),
    /// The summary could not be obtained.
    CommitMessage(CommitMessageError),
}

impl ChangeHandlingError {
    /// A human-readable description of the failure: the git detail under a
    /// `Git Error: ` tag, or the message error's own description under an
    /// `Error getting commit message: ` tag.
    pub fn message(&self) -> (m: String)
        ensures
            m@.len() > 0,
            self matches ChangeHandlingError::Git(_) ==> m@.len() >= "Git Error: "@.len()
                && m@.subrange(0, "Git Error: "@.len() as int) == "Git Error: "@,
            self matches ChangeHandlingError::CommitMessage(e) ==> m@
                == "Error getting commit message: "@ + e.description_spec(),
    {
        let mut m = String::new();
        match self {
            ChangeHandlingError::Git(e) => {
                m.append("Git Error: ");
                let detail = crate::gitio::git_error_message(e);
                m.append(detail.as_str());
                proof {
                    reveal_strlit("Git Error: ");
                    assert(m@.subrange(0, "Git Error: "@.len() as int) =~= "Git Error: "@);
                }
            },
            ChangeHandlingError::CommitMessage(e) => {
                m.append("Error getting commit message: ");
                let detail = e.message();
                m.append(detail.as_str());
                proof {
                    reveal_strlit("Error getting commit message: ");
                    assert(m@ =~= "Error getting commit message: "@ + e.description_spec());
                }
            },
        }
        m
    }
}

} // verus!
