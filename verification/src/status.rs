//! Job kinds, job states, and the mapping from each remote service's
//! status vocabulary onto one closed set of states.

use vstd::prelude::*;

use crate::errors::CoreError;
use crate::strutil::str_eq;

verus! {

/// The kinds of asynchronous remote operation the core can track.
#[derive(Debug, Clone, Copy, PartialEq, Eq, Structural)]
pub enum JobKind {
    FaceDetectionTask,
    TextDetectionTask,
    TranscriptionTask,
    TranslationBatchJob,
    SpeechSynthesisTask,
}

/// The closed set of job states. `Queued` and `InProgress` are the two
/// pending states; `Succeeded` and `Completed` are the two
/// terminal-success spellings the remote services use; `Failed` is
/// terminal failure.
#[derive(Debug, Clone, Copy, PartialEq, Eq, Structural)]
pub enum JobState {
    Queued,
    InProgress,
    Succeeded,
    Completed,
    Failed,
}

/// Whether a state admits no further transition.
pub open spec fn is_terminal_state(state: JobState) -> bool {
    match state {
        JobState::Queued => false,
        JobState::InProgress => false,
        JobState::Succeeded => true,
        JobState::Completed => true,
        JobState::Failed => true,
    }
}

impl JobState {
    /// Whether this state admits no further transition.
    pub fn is_terminal(&self) -> (r: bool)
        ensures
            r == is_terminal_state(*self),
    {
        match self {
            JobState::Queued => false,
            JobState::InProgress => false,
            JobState::Succeeded => true,
            JobState::Completed => true,
            JobState::Failed => true,
        }
    }
}

/// The status word a given kind's remote service answers, mapped to the
/// closed state set; `None` for a word outside that service's
/// vocabulary.
pub open spec fn remote_state_table(kind: JobKind, raw: Seq<char>) -> Option<JobState> {
    match kind {
        JobKind::SpeechSynthesisTask => if raw == "scheduled"@ {
            Some(JobState::Queued)
        } else if raw == "inProgress"@ {
            Some(JobState::InProgress)
        } else if raw == "completed"@ {
            Some(JobState::Completed)
        } else if raw == "failed"@ {
            Some(JobState::Failed)
        } else {
            None
        },
        JobKind::FaceDetectionTask | JobKind::TextDetectionTask => if raw == "IN_PROGRESS"@ {
            Some(JobState::InProgress)
        } else if raw == "SUCCEEDED"@ {
            Some(JobState::Succeeded)
        } else if raw == "FAILED"@ {
            Some(JobState::Failed)
        } else {
            None
        },
        JobKind::TranscriptionTask => if raw == "QUEUED"@ {
            Some(JobState::Queued)
        } else if raw == "IN_PROGRESS"@ {
            Some(JobState::InProgress)
        } else if raw == "COMPLETED"@ {
            Some(JobState::Completed)
        } else if raw == "FAILED"@ {
            Some(JobState::Failed)
        } else {
            None
        },
        JobKind::TranslationBatchJob => if raw == "SUBMITTED"@ {
            Some(JobState::Queued)
        } else if raw == "IN_PROGRESS"@ {
            Some(JobState::InProgress)
        } else if raw == "COMPLETED"@ {
            Some(JobState::Completed)
        } else if raw == "FAILED"@ {
            Some(JobState::Failed)
        } else {
            None
        },
    }
}

/// Maps one remote status word onto the closed state set. A word outside
/// the kind's vocabulary fails loudly with `UnknownState` instead of
/// falling through silently.
pub fn parse_remote_state(kind: JobKind, raw: &str) -> (r: Result<JobState, CoreError>)
    ensures
        match remote_state_table(kind, raw@) {
            Some(state) => r == Ok::<JobState, CoreError>(state),
            None => r matches Err(e) && e matches CoreError::UnknownState { raw: w } && w@ == raw@,
        },
{
    let known = match kind {
        JobKind::SpeechSynthesisTask => {
            if str_eq(raw, "scheduled") {
                Some(JobState::Queued)
            } else if str_eq(raw, "inProgress") {
                Some(JobState::InProgress)
            } else if str_eq(raw, "completed") {
                Some(JobState::Completed)
            } else if str_eq(raw, "failed") {
                Some(JobState::Failed)
            } else {
                None
            }
        },
        JobKind::FaceDetectionTask | JobKind::TextDetectionTask => {
            if str_eq(raw, "IN_PROGRESS") {
                Some(JobState::InProgress)
            } else if str_eq(raw, "SUCCEEDED") {
                Some(JobState::Succeeded)
            } else if str_eq(raw, "FAILED") {
                Some(JobState::Failed)
            } else {
                None
            }
        },
        JobKind::TranscriptionTask => {
            if str_eq(raw, "QUEUED") {
                Some(JobState::Queued)
            } else if str_eq(raw, "IN_PROGRESS") {
                Some(JobState::InProgress)
            } else if str_eq(raw, "COMPLETED") {
                Some(JobState::Completed)
            } else if str_eq(raw, "FAILED") {
                Some(JobState::Failed)
            } else {
                None
            }
        },
        JobKind::TranslationBatchJob => {
            if str_eq(raw, "SUBMITTED") {
                Some(JobState::Queued)
            } else if str_eq(raw, "IN_PROGRESS") {
                Some(JobState::InProgress)
            } else if str_eq(raw, "COMPLETED") {
                Some(JobState::Completed)
            } else if str_eq(raw, "FAILED") {
                Some(JobState::Failed)
            } else {
                None
            }
        },
    };
    match known {
        Some(state) => Ok(state),
        None => Err(CoreError::UnknownState { raw: raw.to_owned() }),
    }
}

/// One status snapshot, produced fresh by each poll and never mutated.
#[derive(Debug)]
pub struct JobStatus {
    /// The canonical state.
    pub state: JobState,
    /// A human-readable reason, when the remote service supplied one.
    pub reason: Option<String>,
    /// A reference to the result payload (for example a storage
    /// location), when one exists.
    pub output: Option<String>,
}

impl JobStatus {
    /// Whether this snapshot is terminal.
    pub fn is_terminal(&self) -> (r: bool)
        ensures
            r == is_terminal_state(self.state),
    {
        self.state.is_terminal()
    }

    /// An equal snapshot; statuses are replaced, never mutated, so
    /// callers copy them to keep one.
    pub fn duplicate(&self) -> (r: JobStatus)
        ensures
            r == *self,
    {
        JobStatus {
            state: self.state,
            reason: match &self.reason {
                Some(s) => Some(s.clone()),
                None => None,
            },
            output: match &self.output {
                Some(s) => Some(s.clone()),
                None => None,
            },
        }
    }
}

/// The exact sentinel shown when a failed job carries no reason.
pub open spec fn no_reason_sentinel() -> Seq<char> {
    "No reason is available"@
}

/// The text that `render_status` returns for a given snapshot.
pub open spec fn render_status_spec(status: JobStatus) -> Seq<char> {
    match status.state {
        JobState::Queued | JobState::InProgress => "The job is not finished yet. Please try again later."@,
        JobState::Succeeded | JobState::Completed => match status.output {
            Some(o) => "The job succeeded. Result: "@ + o@,
            None => "The job succeeded."@,
        },
        JobState::Failed => match status.reason {
            Some(r) => "The job has failed. Reason: "@ + r@,
            None => "The job has failed. Reason: "@ + no_reason_sentinel(),
        },
    }
}

/// Renders one status snapshot as a line for the operator. A pending
/// state is a normal outcome and renders as advice to check back later;
/// a failure without a remote-supplied reason renders the explicit
/// sentinel, never an empty string.
pub fn render_status(status: &JobStatus) -> (text: String)
    ensures
        text@ == render_status_spec(*status),
{
    match status.state {
        JobState::Queued | JobState::InProgress => {
            String::from_str("The job is not finished yet. Please try again later.")
        },
        JobState::Succeeded | JobState::Completed => {
            match &status.output {
                Some(o) => {
                    let mut text = String::from_str("The job succeeded. Result: ");
                    text.append(o.as_str());
                    text
                },
                None => String::from_str("The job succeeded."),
            }
        },
        JobState::Failed => {
            let mut text = String::from_str("The job has failed. Reason: ");
            match &status.reason {
                Some(r) => text.append(r.as_str()),
                None => text.append("No reason is available"),
            }
            text
        },
    }
}

/// A rendered status is never the empty string, and a failure without a
/// reason shows the sentinel verbatim.
pub proof fn lemma_render_status_nonempty(status: JobStatus)
    ensures
        render_status_spec(status).len() > 0,
        status.state is Failed && status.reason is None ==> render_status_spec(status).subrange(
            "The job has failed. Reason: "@.len() as int,
            render_status_spec(status).len() as int,
        ) == no_reason_sentinel(),
{
    reveal_strlit("The job is not finished yet. Please try again later.");
    reveal_strlit("The job succeeded. Result: ");
    reveal_strlit("The job succeeded.");
    reveal_strlit("The job has failed. Reason: ");
    reveal_strlit("No reason is available");
    match status.state {
        JobState::Queued | JobState::InProgress => {},
        JobState::Succeeded | JobState::Completed => {},
        JobState::Failed => {
            match status.reason {
                Some(_) => {},
                None => {
                    let prefix = "The job has failed. Reason: "@;
                    let whole = render_status_spec(status);
                    assert(whole.subrange(prefix.len() as int, whole.len() as int) =~= no_reason_sentinel());
                },
            }
        },
    }
}

} // verus!
