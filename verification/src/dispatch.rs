//! The job dispatcher: issues a fresh identifier for each submission and
//! builds the worker-process invocation that the caller schedules in the
//! background, after the identifier has already been handed back. The
//! dispatcher itself performs no I/O, so issuing an identifier never waits on
//! a worker. Submissions are independent: no queue, no concurrency limit, no
//! retry — an unbounded number of workers may run at once, and a worker's
//! exit status is only turned into a log line, never acted on.

use vstd::prelude::*;
use crate::category::{Category, joined_spec};
use crate::request::GenerationRequest;
use crate::text::{dec_seq, int_dec_seq, i32_to_dec, lemma_dec_seq_injective, u64_to_dec};

verus! {

/// The text of a job identifier: a fixed prefix followed by the decimal
/// rendering of the submission counter.
pub open spec fn job_id_seq(n: nat) -> Seq<char> {
    "job-"@ + dec_seq(n)
}

/// Renders the identifier of the `n`-th submission.
pub fn make_job_id(n: u64) -> (s: String)
    ensures
        s@ == job_id_seq(n as nat),
{
    let mut s = String::from_str("job-");
    let d = u64_to_dec(n);
    s.append(d.as_str());
    s
}

/// Distinct submission counters yield distinct job identifiers, so no two
/// submissions ever share one.
pub proof fn lemma_job_ids_distinct(a: nat, b: nat)
    requires
        a != b,
    ensures
        job_id_seq(a) != job_id_seq(b),
{
    if job_id_seq(a) == job_id_seq(b) {
        let p = "job-"@;
        assert((p + dec_seq(a)).len() == p.len() + dec_seq(a).len());
        assert((p + dec_seq(b)).len() == p.len() + dec_seq(b).len());
        assert(dec_seq(a).len() == dec_seq(b).len());
        assert forall|i: int| 0 <= i < dec_seq(a).len() implies dec_seq(a)[i] == dec_seq(b)[i] by {
            assert((p + dec_seq(a))[p.len() + i] == dec_seq(a)[i]);
            assert((p + dec_seq(b))[p.len() + i] == dec_seq(b)[i]);
        }
        assert(dec_seq(a) =~= dec_seq(b));
        lemma_dec_seq_injective(a, b);
    }
}

/// One worker-process invocation: a program and its arguments as discrete
/// tokens, never passed through a shell.
pub struct WorkerInvocation {
    pub program: String,
    pub args: Vec<String>,
}

/// The categories argument: the joined display texts behind one flag.
pub open spec fn categories_arg_seq(cats: Seq<Category>) -> Seq<char> {
    "--categories="@ + joined_spec(cats)
}

/// The prompt argument: the prompt text, verbatim, behind one flag.
pub open spec fn prompt_arg_seq(p: Seq<char>) -> Seq<char> {
    "--prompt="@ + p
}

/// The argument tokens derived from a request: the worker script, the video
/// URL as a positional argument, the joined categories behind one flag, and
/// — exactly when a prompt was supplied — the prompt behind a second flag.
/// A request without a prompt produces no prompt-related token at all.
pub open spec fn worker_args_ok(req: GenerationRequest, args: Seq<String>) -> bool {
    &&& args.len() == if req.user_prompt is Some { 4int } else { 3int }
    &&& args[0]@ == "fufufafaethon.py"@
    &&& args[1]@ == req.video_url@
    &&& args[2]@ == categories_arg_seq(req.categories@)
    &&& (req.user_prompt matches Some(p) ==> args[3]@ == prompt_arg_seq(p@))
}

/// Builds the worker invocation for a request.
pub fn build_invocation(req: &GenerationRequest) -> (inv: WorkerInvocation)
    ensures
        inv.program@ == "python"@,
        worker_args_ok(*req, inv.args@),
{
    let mut args: Vec<String> = Vec::new();
    args.push(String::from_str("fufufafaethon.py"));
    args.push(req.video_url.clone());
    let mut cat_arg = String::from_str("--categories=");
    let joined = crate::category::join_display(&req.categories);
    cat_arg.append(joined.as_str());
    args.push(cat_arg);
    match &req.user_prompt {
        Some(p) => {
            let mut prompt_arg = String::from_str("--prompt=");
            prompt_arg.append(p.as_str());
            args.push(prompt_arg);
        },
        None => {},
    }
    WorkerInvocation { program: String::from_str("python"), args }
}

/// A submission accepted by the dispatcher: the identifier returned to the
/// caller and the invocation to run detached in the background.
pub struct SubmittedJob {
    pub job_id: String,
    pub invocation: WorkerInvocation,
}

/// Issues job identifiers from a monotonically increasing counter. The
/// counter only ever grows, so every submission gets a fresh identifier.
pub struct Dispatcher {
    pub next_job: u64,
}

impl Dispatcher {
    /// A dispatcher that has accepted no submission yet.
    pub fn new() -> (d: Dispatcher)
        ensures
            d.next_job == 0,
    {
        Dispatcher { next_job: 0 }
    }

    /// Accepts one validated request: issues the next identifier and builds
    /// the worker invocation. Running the invocation — and everything after
    /// it, including observing the exit status — is the caller's detached
    /// background work; the identifier is complete before any of it starts.
    pub fn submit(&mut self, req: &GenerationRequest) -> (job: SubmittedJob)
        requires
            old(self).next_job < u64::MAX,
        ensures
            final(self).next_job == old(self).next_job + 1,
            job.job_id@ == job_id_seq(old(self).next_job as nat),
            job.invocation.program@ == "python"@,
            worker_args_ok(*req, job.invocation.args@),
    {
        let job_id = make_job_id(self.next_job);
        self.next_job = self.next_job + 1;
        let invocation = build_invocation(req);
        SubmittedJob { job_id, invocation }
    }
}

/// The success response body returned to the HTTP caller. The identifier is
/// emitted verbatim; generated identifiers contain only letters, digits and
/// a hyphen, so no JSON escaping is needed.
pub open spec fn response_body_seq(id: Seq<char>) -> Seq<char> {
    "{\"data\":{\"jobId\":\""@ + id + "\"}}"@
}

/// Renders the success response body carrying a job identifier.
pub fn response_body(job_id: &str) -> (r: String)
    ensures
        r@ == response_body_seq(job_id@),
{
    let mut r = String::from_str("{\"data\":{\"jobId\":\"");
    r.append(job_id);
    r.append("\"}}");
    proof {
        assert(r@ =~= response_body_seq(job_id@));
    }
    r
}

/// How a detached background job ended: its process could not be started at
/// all, or it exited, with a status code unless a signal ended it.
pub enum JobOutcome {
    SpawnFailed(String),
    Exited(Option<i32>),
}

/// The log line written when a job starts.
pub open spec fn start_log_seq(id: Seq<char>) -> Seq<char> {
    "Starting new job ("@ + id + ")"@
}

/// Renders the log line for a job's start.
pub fn start_log_line(job_id: &str) -> (r: String)
    ensures
        r@ == start_log_seq(job_id@),
{
    let mut r = String::from_str("Starting new job (");
    r.append(job_id);
    r.append(")");
    proof {
        assert(r@ =~= start_log_seq(job_id@));
    }
    r
}

/// The log line written when a job ends. A failure to start is logged and
/// goes no further: no retry, no escalation, and the HTTP response — already
/// sent — is unaffected.
pub open spec fn outcome_log_seq(id: Seq<char>, outcome: JobOutcome) -> Seq<char> {
    match outcome {
        JobOutcome::SpawnFailed(e) => "Job "@ + id + " could not start: "@ + e@,
        JobOutcome::Exited(Some(code)) => "Job "@ + id + " exited with status "@ + int_dec_seq(
            code as int,
        ),
        JobOutcome::Exited(None) => "Job "@ + id + " exited without a status code"@,
    }
}

/// Renders the log line for a job's outcome.
pub fn outcome_log_line(job_id: &str, outcome: &JobOutcome) -> (r: String)
    ensures
        r@ == outcome_log_seq(job_id@, *outcome),
{
    match outcome {
        JobOutcome::SpawnFailed(e) => {
            let mut r = String::from_str("Job ");
            r.append(job_id);
            r.append(" could not start: ");
            r.append(e.as_str());
            proof {
                assert(r@ =~= outcome_log_seq(job_id@, *outcome));
            }
            r
        },
        JobOutcome::Exited(Some(code)) => {
            let mut r = String::from_str("Job ");
            r.append(job_id);
            r.append(" exited with status ");
            let d = i32_to_dec(*code);
            r.append(d.as_str());
            proof {
                assert(r@ =~= outcome_log_seq(job_id@, *outcome));
            }
            r
        },
        JobOutcome::Exited(None) => {
            let mut r = String::from_str("Job ");
            r.append(job_id);
            r.append(" exited without a status code");
            proof {
                assert(r@ =~= outcome_log_seq(job_id@, *outcome));
            }
            r
        },
    }
}

} // verus!
