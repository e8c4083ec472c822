//! Starting a remote job and polling it to a terminal state.
//!
//! The remote service itself is driven by the unverified front end: it
//! submits the request a validated handle describes, fetches raw status
//! snapshots, and sleeps between polls. Everything decided here — which
//! requests are valid, what a snapshot means, when a polling loop may
//! stop — is verified.

use vstd::prelude::*;

use crate::errors::CoreError;
use crate::status::{is_terminal_state, remote_state_table, JobKind, JobState, JobStatus};
use crate::strutil::str_eq;

verus! {

/// One named start parameter.
#[derive(Debug)]
pub struct Param {
    pub name: String,
    pub value: String,
}

/// Every start parameter must be present and non-empty before any remote
/// call is made.
pub open spec fn params_valid(params: Seq<Param>) -> bool {
    &&& params.len() > 0
    &&& forall|i: int|
        0 <= i < params.len() ==> params[i].name@.len() > 0 && params[i].value@.len() > 0
}

/// The first parameter whose name or value is empty.
pub open spec fn first_blank(params: Seq<Param>) -> Option<Param>
    decreases params.len(),
{
    if params.len() == 0 {
        None
    } else if params[0].name@.len() == 0 || params[0].value@.len() == 0 {
        Some(params[0])
    } else {
        first_blank(params.drop_first())
    }
}

/// The field a validation error names: the offending parameter's name,
/// or the word `parameters` when none were given at all.
pub open spec fn validation_field_spec(params: Seq<Param>) -> Seq<char> {
    if params.len() == 0 {
        "parameters"@
    } else {
        match first_blank(params) {
            Some(p) => p.name@,
            None => "parameters"@,
        }
    }
}

/// The first parameter named `job`, if any.
pub open spec fn param_lookup_job(params: Seq<Param>) -> Option<Param>
    decreases params.len(),
{
    if params.len() == 0 {
        None
    } else if params[0].name@ == "job"@ {
        Some(params[0])
    } else {
        param_lookup_job(params.drop_first())
    }
}

/// The label of a job kind, also used as the handle identifier when the
/// caller chose no job name.
pub open spec fn kind_label_spec(kind: JobKind) -> Seq<char> {
    match kind {
        JobKind::FaceDetectionTask => "face-detection-task"@,
        JobKind::TextDetectionTask => "text-detection-task"@,
        JobKind::TranscriptionTask => "transcription-task"@,
        JobKind::TranslationBatchJob => "translation-batch-job"@,
        JobKind::SpeechSynthesisTask => "speech-synthesis-task"@,
    }
}

/// The identifier a successful start assigns: the caller-chosen job
/// name when a parameter named `job` exists, the kind's label otherwise.
pub open spec fn identifier_spec(kind: JobKind, params: Seq<Param>) -> Seq<char> {
    match param_lookup_job(params) {
        Some(p) => p.value@,
        None => kind_label_spec(kind),
    }
}

/// The label of a job kind.
pub fn kind_label(kind: JobKind) -> (r: &'static str)
    ensures
        r@ == kind_label_spec(kind),
{
    match kind {
        JobKind::FaceDetectionTask => "face-detection-task",
        JobKind::TextDetectionTask => "text-detection-task",
        JobKind::TranscriptionTask => "transcription-task",
        JobKind::TranslationBatchJob => "translation-batch-job",
        JobKind::SpeechSynthesisTask => "speech-synthesis-task",
    }
}

/// Identifies one remote asynchronous operation. Created only by a
/// successful `start`; the fields are private and have no mutators, so a
/// handle never changes afterwards.
#[derive(Debug)]
pub struct JobHandle {
    id: String,
    kind: JobKind,
    submitted_at: u64,
}

impl JobHandle {
    /// The identifier as an abstract value.
    pub closed spec fn id_spec(self) -> Seq<char> {
        self.id@
    }

    /// The kind as an abstract value.
    pub closed spec fn kind_spec(self) -> JobKind {
        self.kind
    }

    /// The submission time as an abstract value.
    pub closed spec fn submitted_at_spec(self) -> u64 {
        self.submitted_at
    }

    /// The opaque job identifier.
    pub fn id(&self) -> (r: &str)
        ensures
            r@ == self.id_spec(),
    {
        self.id.as_str()
    }

    /// The kind of remote operation this handle tracks.
    pub fn kind(&self) -> (r: JobKind)
        ensures
            r == self.kind_spec(),
    {
        self.kind
    }

    /// The caller-supplied clock reading taken at submission.
    pub fn submitted_at(&self) -> (r: u64)
        ensures
            r == self.submitted_at_spec(),
    {
        self.submitted_at
    }
}

/// Validates the start parameters for a remote job and, when all are
/// non-empty, returns the immutable handle under which the front end
/// submits the request. Any empty required parameter yields a
/// `Validation` error before anything is sent to the remote service.
///
/// `submitted_at` is the caller's clock reading, recorded in the handle.
pub fn start(kind: JobKind, params: &Vec<Param>, submitted_at: u64) -> (r: Result<
    JobHandle,
    CoreError,
>)
    ensures
        r is Ok <==> params_valid(params@),
        r matches Ok(h) ==> {
            &&& h.id_spec() == identifier_spec(kind, params@)
            &&& h.id_spec().len() > 0
            &&& h.kind_spec() == kind
            &&& h.submitted_at_spec() == submitted_at
        },
        r matches Err(e) ==> e matches CoreError::Validation { field } && field@
            == validation_field_spec(params@),
{
    proof {
        reveal_strlit("parameters");
    }
    let n = params.len();
    if n == 0 {
        return Err(CoreError::Validation { field: String::from_str("parameters") });
    }
    let mut i: usize = 0;
    proof {
        assert(params@.skip(0) =~= params@);
    }
    while i < n
        invariant
            n == params@.len(),
            i <= n,
            first_blank(params@) == first_blank(params@.skip(i as int)),
            forall|j: int|
                0 <= j < i ==> params@[j].name@.len() > 0 && params@[j].value@.len() > 0,
        decreases n - i,
    {
        proof {
            assert(params@.skip(i as int)[0] == params@[i as int]);
            assert(params@.skip(i as int).drop_first() =~= params@.skip(i as int + 1));
        }
        if params[i].name.as_str().is_empty() || params[i].value.as_str().is_empty() {
            return Err(CoreError::Validation { field: params[i].name.clone() });
        }
        i += 1;
    }
    proof {
        assert(params@.skip(n as int) =~= Seq::<Param>::empty());
    }
    let id = job_identifier(kind, params);
    proof {
        lemma_identifier_nonempty(kind, params@);
    }
    Ok(JobHandle { id, kind, submitted_at })
}

/// The identifier a start with these parameters assigns.
fn job_identifier(kind: JobKind, params: &Vec<Param>) -> (r: String)
    ensures
        r@ == identifier_spec(kind, params@),
{
    let n = params.len();
    let mut i: usize = 0;
    proof {
        assert(params@.skip(0) =~= params@);
    }
    while i < n
        invariant
            n == params@.len(),
            i <= n,
            param_lookup_job(params@) == param_lookup_job(params@.skip(i as int)),
        decreases n - i,
    {
        proof {
            assert(params@.skip(i as int)[0] == params@[i as int]);
            assert(params@.skip(i as int).drop_first() =~= params@.skip(i as int + 1));
        }
        if str_eq(params[i].name.as_str(), "job") {
            return params[i].value.clone();
        }
        i += 1;
    }
    proof {
        assert(params@.skip(n as int) =~= Seq::<Param>::empty());
    }
    String::from_str(kind_label(kind))
}

/// A handle identifier is never empty: a job name comes from a validated
/// non-empty parameter, and every kind label has characters.
proof fn lemma_identifier_nonempty(kind: JobKind, params: Seq<Param>)
    requires
        params_valid(params),
    ensures
        identifier_spec(kind, params).len() > 0,
{
    reveal_strlit("face-detection-task");
    reveal_strlit("text-detection-task");
    reveal_strlit("transcription-task");
    reveal_strlit("translation-batch-job");
    reveal_strlit("speech-synthesis-task");
    lemma_param_lookup_job_in_seq(params);
}

/// A `job` parameter that the lookup returns is one of the parameters.
proof fn lemma_param_lookup_job_in_seq(params: Seq<Param>)
    ensures
        param_lookup_job(params) matches Some(p) ==> params.contains(p),
    decreases params.len(),
{
    if params.len() > 0 && !(params[0].name@ == "job"@) {
        lemma_param_lookup_job_in_seq(params.drop_first());
        match param_lookup_job(params.drop_first()) {
            Some(p) => {
                assert(params.drop_first().contains(p));
                let k = choose|k: int|
                    0 <= k < params.drop_first().len() && params.drop_first()[k] == p;
                assert(params[k + 1] == p);
            },
            None => {},
        }
    }
}

/// Interprets one raw status snapshot from the remote service as a
/// `JobStatus`. A pending snapshot is a normal outcome, never an error;
/// a status word outside the kind's vocabulary fails loudly.
pub fn interpret_poll(
    kind: JobKind,
    raw_state: &str,
    reason: Option<String>,
    output: Option<String>,
) -> (r: Result<JobStatus, CoreError>)
    ensures
        match remote_state_table(kind, raw_state@) {
            Some(state) => r matches Ok(status) && status.state == state && status.reason == reason
                && status.output == output,
            None => r matches Err(e) && e matches CoreError::UnknownState { raw: w } && w@
                == raw_state@,
        },
        (remote_state_table(kind, raw_state@) matches Some(state) && !is_terminal_state(state))
            ==> (r matches Ok(status) && !is_terminal_state(status.state)),
{
    match crate::status::parse_remote_state(kind, raw_state) {
        Ok(state) => Ok(JobStatus { state, reason, output }),
        Err(e) => Err(e),
    }
}

/// What a polling loop does after it has observed a snapshot.
#[derive(Debug, Clone, Copy, PartialEq, Eq, Structural)]
pub enum PollAction {
    /// Stop and hand the latest snapshot to the caller.
    Finish,
    /// Wait for the caller-configured interval, then poll again.
    SleepAndRetry,
}

/// Decides whether a polling loop stops after its latest poll: it stops
/// on a terminal state, or once the attempt budget is spent — in that
/// case the caller receives the last observed non-terminal status and
/// may resume polling later.
pub fn poll_step(polls_made: usize, max_attempts: usize, latest: &JobStatus) -> (r: PollAction)
    requires
        polls_made >= 1,
    ensures
        r == PollAction::Finish <==> (is_terminal_state(latest.state) || polls_made
            > max_attempts),
{
    if latest.is_terminal() || polls_made > max_attempts {
        PollAction::Finish
    } else {
        PollAction::SleepAndRetry
    }
}

/// Polls until a terminal state or until the attempt budget is spent,
/// over the sequence of snapshots that successive polls observe, and
/// returns the last observed status with the number of polls made.
/// Sleeps happen only between polls, so a budget of zero returns
/// whatever the first poll reports, without sleeping.
///
/// `reports[i]` is the snapshot the `i`-th poll would observe; the
/// sequence must cover the worst case of `max_attempts + 1` polls.
pub fn poll_until_terminal(reports: &Vec<JobStatus>, max_attempts: usize) -> (r: (
    JobStatus,
    usize,
))
    requires
        max_attempts < reports@.len(),
    ensures
        1 <= r.1 <= max_attempts + 1,
        r.0 == reports@[r.1 - 1],
        forall|j: int| 0 <= j < r.1 - 1 ==> !is_terminal_state(reports@[j].state),
        r.1 <= max_attempts ==> is_terminal_state(r.0.state),
        !is_terminal_state(r.0.state) ==> r.1 == max_attempts + 1,
        max_attempts == 0 ==> r.1 == 1 && r.0 == reports@[0],
{
    let n = reports.len();
    let mut i: usize = 0;
    while i < max_attempts
        invariant
            max_attempts < n == reports@.len(),
            i <= max_attempts,
            forall|j: int| 0 <= j < i ==> !is_terminal_state(reports@[j].state),
        decreases max_attempts - i,
    {
        let latest = &reports[i];
        match poll_step(i + 1, max_attempts, latest) {
            PollAction::Finish => {
                return (latest.duplicate(), i + 1);
            },
            PollAction::SleepAndRetry => {},
        }
        i += 1;
    }
    (reports[max_attempts].duplicate(), max_attempts + 1)
}

} // verus!
