use vstd::prelude::*;
use vstd::string::StringExecFns;

use hearth_interconnect::messages::Message;

use crate::messages::{
    lemma_filter_other_than, lemma_push_distinct, other_than, remove_all, string_views, ErrorReport, ErrorReportView, Job, JobRequest, JobRequestView, JobView,
};

verus! {

// ---------------------------------------------------------------------------
// Job identifiers
// ---------------------------------------------------------------------------

/// The symbols of the URL-safe alphabet that job identifiers are drawn from.
pub open spec fn is_id_symbol(c: char) -> bool {
    ||| c == '_'
    ||| c == '-'
    ||| ('0' <= c && c <= '9')
    ||| ('a' <= c && c <= 'z')
    ||| ('A' <= c && c <= 'Z')
}

/// A job identifier: 21 symbols of the URL-safe alphabet.
pub open spec fn is_job_id(id: Seq<char>) -> bool {
    &&& id.len() == 21
    &&& forall|i: int| 0 <= i < id.len() ==> is_id_symbol(#[trigger] id[i])
}

/// Draws a fresh random job identifier with `nanoid::format` over the
/// URL-safe alphabet `nanoid::alphabet::SAFE` and length 21 (what the
/// `nanoid!()` macro expands to). The source pushes only symbols of that
/// alphabet and returns once 21 have been pushed; which ones is random.
#[verifier::external_body]
fn new_job_id() -> (id: String)
    ensures
        is_job_id(id@),
{
    nanoid::format(nanoid::rngs::default, &nanoid::alphabet::SAFE, 21)
}

// ---------------------------------------------------------------------------
// Scheduler state
// ---------------------------------------------------------------------------

/// The workers that answered a ping, in the order in which they answered, and
/// the position of the worker that gets the next job.
pub struct SchedulerState {
    workers: Vec<String>,
    round_robin_index: usize,
}

pub struct SchedulerView {
    pub workers: Seq<Seq<char>>,
    pub index: nat,
}

impl SchedulerView {
    /// No worker is registered twice, and the next position names a worker
    /// whenever there is one (it is 0 when there is none).
    pub open spec fn valid(self) -> bool {
        &&& self.workers.no_duplicates()
        &&& (self.index == 0 || self.index < self.workers.len())
    }
}

impl View for SchedulerState {
    type V = SchedulerView;

    closed spec fn view(&self) -> SchedulerView {
        SchedulerView { workers: string_views(self.workers@), index: self.round_robin_index as nat }
    }
}

/// Why a job could not be handed to a worker.
#[derive(Debug, Clone, Copy, PartialEq, Eq, Structural)]
pub enum DistributeError {
    NoWorkersRegistered,
}

impl DistributeError {
    pub open spec fn spec_message(self) -> Seq<char> {
        match self {
            DistributeError::NoWorkersRegistered => "No Workers Registered! Can't distribute Job!"@,
        }
    }

    /// The text of the error, as it is reported.
    pub fn message(&self) -> (m: String)
        ensures
            m@ == self.spec_message(),
    {
        match self {
            DistributeError::NoWorkersRegistered => String::from_str(
                "No Workers Registered! Can't distribute Job!",
            ),
        }
    }
}

// ---------------------------------------------------------------------------
// Transitions, stated over views
// ---------------------------------------------------------------------------

/// A worker that answers a ping is added at the end, unless it is known.
pub open spec fn spec_register(v: SchedulerView, worker_id: Seq<char>) -> SchedulerView {
    if v.workers.contains(worker_id) {
        v
    } else {
        SchedulerView { workers: v.workers.push(worker_id), index: v.index }
    }
}

/// A worker that shuts down is dropped, and the rotation starts over.
pub open spec fn spec_remove(v: SchedulerView, worker_id: Seq<char>) -> SchedulerView {
    SchedulerView { workers: v.workers.filter(other_than(worker_id)), index: 0 }
}

/// The position after the one that just got a job, wrapping at the end.
pub open spec fn spec_advance(v: SchedulerView) -> SchedulerView {
    SchedulerView {
        workers: v.workers,
        index: if v.index + 1 == v.workers.len() { 0 } else { (v.index + 1) as nat },
    }
}

/// The worker that gets the next job.
pub open spec fn spec_assignee(v: SchedulerView) -> Seq<char> {
    v.workers[v.index as int]
}

/// Handing a job to the next worker in turn; refused when no worker is known.
pub open spec fn spec_assign(v: SchedulerView, request: JobRequestView, job_id: Seq<char>) -> (
    SchedulerView,
    Result<JobView, DistributeError>,
) {
    if v.workers.len() == 0 {
        (v, Err(DistributeError::NoWorkersRegistered))
    } else {
        (
            spec_advance(v),
            Ok(
                JobView {
                    job_id,
                    worker_id: spec_assignee(v),
                    request_id: request.request_id,
                    guild_id: request.guild_id,
                },
            ),
        )
    }
}

// ---------------------------------------------------------------------------
// Messages the scheduler reacts to, and what it does
// ---------------------------------------------------------------------------

/// What the scheduler reads of a message from the bus.
#[derive(Debug)]
pub enum SchedulerEvent {
    /// A client asks for a job in a guild.
    ExternalQueueJob(JobRequest),
    /// A worker announces that it shuts down.
    WorkerShutdownAlert { worker_id: String },
    /// A worker answers a ping.
    InternalPongResponse { worker_id: String },
    /// Any other message; the scheduler ignores it.
    Ignored,
}

pub enum SchedulerEventView {
    ExternalQueueJob(JobRequestView),
    WorkerShutdownAlert(Seq<char>),
    InternalPongResponse(Seq<char>),
    Ignored,
}

impl View for SchedulerEvent {
    type V = SchedulerEventView;

    open spec fn view(&self) -> SchedulerEventView {
        match self {
            SchedulerEvent::ExternalQueueJob(r) => SchedulerEventView::ExternalQueueJob(r@),
            SchedulerEvent::WorkerShutdownAlert { worker_id } => SchedulerEventView::WorkerShutdownAlert(
                worker_id@,
            ),
            SchedulerEvent::InternalPongResponse { worker_id } => SchedulerEventView::InternalPongResponse(
                worker_id@,
            ),
            SchedulerEvent::Ignored => SchedulerEventView::Ignored,
        }
    }
}

/// What the scheduler asks the application to do after a message.
#[derive(Debug)]
pub enum SchedulerAction {
    Nothing,
    /// Publish the job to the workers (`InternalWorkerQueueJob`).
    QueueJob(Job),
    /// Log and publish the error report.
    ReportError(ErrorReport),
    /// Log that this worker was added.
    WorkerAdded { worker_id: String },
}

pub enum SchedulerActionView {
    Nothing,
    QueueJob(JobView),
    ReportError(ErrorReportView),
    WorkerAdded(Seq<char>),
}

impl View for SchedulerAction {
    type V = SchedulerActionView;

    open spec fn view(&self) -> SchedulerActionView {
        match self {
            SchedulerAction::Nothing => SchedulerActionView::Nothing,
            SchedulerAction::QueueJob(j) => SchedulerActionView::QueueJob(j@),
            SchedulerAction::ReportError(e) => SchedulerActionView::ReportError(e@),
            SchedulerAction::WorkerAdded { worker_id } => SchedulerActionView::WorkerAdded(worker_id@),
        }
    }
}

/// The report sent when a requested job cannot be distributed.
pub open spec fn spec_distribution_report(request: JobRequestView, err: DistributeError) -> ErrorReportView {
    ErrorReportView {
        error: err.spec_message(),
        request_id: request.request_id,
        job_id: "N/A"@,
        guild_id: request.guild_id,
    }
}

/// One step of the scheduler: the next state and the action, for a message
/// and the identifier that a new job would get.
pub open spec fn scheduler_step(v: SchedulerView, e: SchedulerEventView, job_id: Seq<char>) -> (
    SchedulerView,
    SchedulerActionView,
) {
    match e {
        SchedulerEventView::ExternalQueueJob(request) => {
            let (next, r) = spec_assign(v, request, job_id);
            match r {
                Ok(job) => (next, SchedulerActionView::QueueJob(job)),
                Err(err) => (
                    next,
                    SchedulerActionView::ReportError(spec_distribution_report(request, err)),
                ),
            }
        },
        SchedulerEventView::WorkerShutdownAlert(w) => (spec_remove(v, w), SchedulerActionView::Nothing),
        SchedulerEventView::InternalPongResponse(w) => (
            spec_register(v, w),
            if v.workers.contains(w) {
                SchedulerActionView::Nothing
            } else {
                SchedulerActionView::WorkerAdded(w)
            },
        ),
        SchedulerEventView::Ignored => (v, SchedulerActionView::Nothing),
    }
}

/// What the scheduler reads of a payload from the bus: `None` when it is not
/// a message of the wire format (JSON, tagged by `type`).
pub uninterp spec fn wire_scheduler_event(payload: Seq<u8>) -> Option<SchedulerEventView>;

/// `serde_json::from_slice::<hearth_interconnect::messages::Message>`, with
/// the message also turned into what the scheduler reads of it (field by
/// field; every other kind of message is `Ignored`). The result is a function
/// of the bytes alone, named `wire_scheduler_event`.
#[verifier::external_body]
fn parse_scheduler_event(payload: &[u8]) -> (r: Result<(SchedulerEvent, Message), serde_json::Error>)
    ensures
        r is Err <==> wire_scheduler_event(payload@) is None,
        r matches Ok((e, _)) ==> wire_scheduler_event(payload@) == Some(e@),
{
    let m = serde_json::from_slice::<Message>(payload)?;
    let e = match &m {
        Message::ExternalQueueJob(j) => SchedulerEvent::ExternalQueueJob(
            JobRequest { request_id: j.request_id.clone(), guild_id: j.guild_id.clone() },
        ),
        Message::WorkerShutdownAlert(a) => SchedulerEvent::WorkerShutdownAlert { worker_id: a.worker_id.clone() },
        Message::InternalPongResponse(p) => SchedulerEvent::InternalPongResponse { worker_id: p.worker_id.clone() },
        _ => SchedulerEvent::Ignored,
    };
    Ok((e, m))
}

/// The identifier of the job that an action hands out (empty for the others).
pub open spec fn action_job_id(a: SchedulerActionView) -> Seq<char> {
    match a {
        SchedulerActionView::QueueJob(job) => job.job_id,
        _ => Seq::empty(),
    }
}

// ---------------------------------------------------------------------------
// Executable scheduler
// ---------------------------------------------------------------------------

impl SchedulerState {
    #[verifier::type_invariant]
    closed spec fn inv(self) -> bool {
        self@.valid()
    }

    /// No worker known, rotation at the start.
    pub fn new() -> (s: Self)
        ensures
            s@.workers == Seq::<Seq<char>>::empty(),
            s@.index == 0,
            s@.valid(),
    {
        let s = SchedulerState { workers: Vec::new(), round_robin_index: 0 };
        assert(s@.workers =~= Seq::<Seq<char>>::empty());
        s
    }

    /// The identifiers of the registered workers, in order.
    pub fn workers(&self) -> (w: Vec<String>)
        ensures
            string_views(w@) == self@.workers,
    {
        self.workers.clone()
    }

    /// The position of the worker that gets the next job.
    pub fn round_robin_index(&self) -> (i: usize)
        ensures
            i == self@.index,
    {
        self.round_robin_index
    }

    /// Whether a worker is registered.
    pub fn is_registered(&self, worker_id: &String) -> (b: bool)
        ensures
            b == self@.workers.contains(worker_id@),
    {
        let n = self.workers.len();
        let mut i: usize = 0;
        while i < n
            invariant
                n == self.workers@.len(),
                0 <= i <= n,
                forall|k: int| 0 <= k < i ==> self@.workers[k] != worker_id@,
            decreases n - i,
        {
            if self.workers[i] == *worker_id {
                assert(self@.workers[i as int] == worker_id@);
                return true;
            }
            i = i + 1;
        }
        false
    }

    /// A worker answered a ping: it is added at the end unless it is known.
    /// Returns whether it was added.
    pub fn register_worker(&mut self, worker_id: String) -> (added: bool)
        ensures
            final(self)@ == spec_register(old(self)@, worker_id@),
            added == !old(self)@.workers.contains(worker_id@),
            final(self)@.valid(),
    {
        proof {
            use_type_invariant(&*self);
        }
        if self.is_registered(&worker_id) {
            false
        } else {
            let ghost before = self@;
            let mut workers = self.workers.clone();
            workers.push(worker_id);
            proof {
                assert(string_views(workers@) =~= before.workers.push(worker_id@));
                lemma_push_distinct(before.workers, worker_id@);
            }
            *self = SchedulerState { workers, round_robin_index: self.round_robin_index };
            true
        }
    }

    /// A worker shut down: every entry of it is dropped and the rotation starts
    /// over at the first worker.
    pub fn remove_worker(&mut self, worker_id: &String)
        ensures
            final(self)@ == spec_remove(old(self)@, worker_id@),
            final(self)@.valid(),
    {
        proof {
            use_type_invariant(&*self);
        }
        let kept = remove_all(&self.workers, worker_id);
        proof {
            lemma_filter_other_than(self@.workers, worker_id@);
        }
        *self = SchedulerState { workers: kept, round_robin_index: 0 };
    }

    /// Hands a job with the given identifier to the next worker in turn and
    /// moves the rotation on; refused, with the state unchanged, when no worker
    /// is registered.
    pub fn assign_job(&mut self, request: &JobRequest, job_id: String) -> (r: Result<
        Job,
        DistributeError,
    >)
        ensures
            (final(self)@, match r {
                Ok(job) => Ok(job@),
                Err(e) => Err(e),
            }) == spec_assign(old(self)@, request@, job_id@),
            final(self)@.valid(),
    {
        proof {
            use_type_invariant(&*self);
        }
        let n = self.workers.len();
        if n == 0 {
            return Err(DistributeError::NoWorkersRegistered);
        }
        let index = self.round_robin_index;
        let worker_id = self.workers[index].clone();
        let job = Job {
            job_id,
            worker_id,
            request_id: request.request_id.clone(),
            guild_id: request.guild_id.clone(),
        };
        let mut next = index + 1;
        if next == n {
            next = 0;
        }
        let workers = self.workers.clone();
        *self = SchedulerState { workers, round_robin_index: next };
        Ok(job)
    }

    /// Hands a job with a fresh random identifier to the next worker in turn.
    /// The identifier is drawn only when some worker is registered.
    pub fn distribute_job(&mut self, request: &JobRequest) -> (r: Result<Job, DistributeError>)
        ensures
            (final(self)@, match r {
                Ok(job) => Ok(job@),
                Err(e) => Err(e),
            }) == spec_assign(
                old(self)@,
                request@,
                match r {
                    Ok(job) => job@.job_id,
                    Err(_) => Seq::empty(),
                },
            ),
            r is Err <==> old(self)@.workers.len() == 0,
            r matches Ok(job) ==> is_job_id(job@.job_id),
            final(self)@.valid(),
    {
        proof {
            use_type_invariant(&*self);
        }
        if self.workers.len() == 0 {
            return Err(DistributeError::NoWorkersRegistered);
        }
        let job_id = new_job_id();
        self.assign_job(request, job_id)
    }

    /// Reacts to one message, with the identifier that a new job gets given.
    pub fn handle_event_with_job_id(&mut self, event: SchedulerEvent, job_id: String) -> (a:
        SchedulerAction)
        ensures
            (final(self)@, a@) == scheduler_step(old(self)@, event@, job_id@),
            final(self)@.valid(),
    {
        proof {
            use_type_invariant(&*self);
        }
        match event {
            SchedulerEvent::ExternalQueueJob(request) => {
                match self.assign_job(&request, job_id) {
                    Ok(job) => SchedulerAction::QueueJob(job),
                    Err(e) => SchedulerAction::ReportError(distribution_report(&request, &e)),
                }
            },
            SchedulerEvent::WorkerShutdownAlert { worker_id } => {
                self.remove_worker(&worker_id);
                SchedulerAction::Nothing
            },
            SchedulerEvent::InternalPongResponse { worker_id } => {
                let logged = worker_id.clone();
                if self.register_worker(worker_id) {
                    SchedulerAction::WorkerAdded { worker_id: logged }
                } else {
                    SchedulerAction::Nothing
                }
            },
            SchedulerEvent::Ignored => SchedulerAction::Nothing,
        }
    }

    /// Reacts to one message from the bus: a job request is handed to the next
    /// worker under a fresh random identifier (or answered with an error report
    /// when no worker is known), a shutdown alert drops the worker, a pong
    /// registers a new worker, anything else is ignored.
    pub fn handle_event(&mut self, event: SchedulerEvent) -> (a: SchedulerAction)
        ensures
            (final(self)@, a@) == scheduler_step(old(self)@, event@, action_job_id(a@)),
            a@ matches SchedulerActionView::QueueJob(job) ==> is_job_id(job.job_id),
            final(self)@.valid(),
    {
        proof {
            use_type_invariant(&*self);
        }
        match event {
            SchedulerEvent::ExternalQueueJob(request) => {
                match self.distribute_job(&request) {
                    Ok(job) => SchedulerAction::QueueJob(job),
                    Err(e) => SchedulerAction::ReportError(distribution_report(&request, &e)),
                }
            },
            other => self.handle_event_with_job_id(other, String::new()),
        }
    }

    /// Reacts to one payload from the bus: one that is not a message is
    /// refused with the parse error and changes nothing; a message is handled
    /// as `handle_event` does, and handed back with the action.
    pub fn handle_payload(&mut self, payload: &[u8]) -> (r: Result<
        (SchedulerAction, Message),
        serde_json::Error,
    >)
        ensures
            match wire_scheduler_event(payload@) {
                None => r is Err && final(self)@ == old(self)@,
                Some(e) => r matches Ok((a, _)) && (final(self)@, a@) == scheduler_step(
                    old(self)@,
                    e,
                    action_job_id(a@),
                ) && (a@ matches SchedulerActionView::QueueJob(job) ==> is_job_id(job.job_id)),
            },
            final(self)@.valid(),
    {
        proof {
            use_type_invariant(&*self);
        }
        match parse_scheduler_event(payload) {
            Ok((event, message)) => Ok((self.handle_event(event), message)),
            Err(e) => Err(e),
        }
    }
}

/// The error report for a request that could not be distributed: the error's
/// text, the request's identifiers, and "N/A" for the job.
pub fn distribution_report(request: &JobRequest, err: &DistributeError) -> (report: ErrorReport)
    ensures
        report@ == spec_distribution_report(request@, *err),
{
    ErrorReport {
        error: err.message(),
        request_id: request.request_id.clone(),
        job_id: String::from_str("N/A"),
        guild_id: request.guild_id.clone(),
    }
}

// ---------------------------------------------------------------------------
// Looking for workers at start-up
// ---------------------------------------------------------------------------

/// How the ping round at start-up goes on after a ping has been sent.
#[derive(Debug, Clone, Copy, PartialEq, Eq, Structural)]
pub enum PingOutcome {
    /// Wait for the next tick and ping again.
    Continue,
    /// The round is over and no worker answered.
    StoppedWithoutWorkers,
    /// The round is over; this many workers are registered.
    StoppedWithWorkers(usize),
}

/// After the `pings_sent`-th ping the round goes on until five pings have
/// been sent; then it stops and tells whether any worker is registered.
pub open spec fn spec_after_ping(pings_sent: nat, workers: nat) -> PingOutcome {
    if pings_sent <= 4 {
        PingOutcome::Continue
    } else if workers == 0 {
        PingOutcome::StoppedWithoutWorkers
    } else {
        PingOutcome::StoppedWithWorkers(workers as usize)
    }
}

/// Counts a ping that was just sent and decides whether the round goes on.
pub fn after_ping(pings_before: u32, workers: usize) -> (r: (u32, PingOutcome))
    requires
        pings_before < u32::MAX,
    ensures
        r.0 == pings_before + 1,
        r.1 == spec_after_ping(r.0 as nat, workers as nat),
{
    let sent = pings_before + 1;
    if sent > 4 {
        if workers == 0 {
            (sent, PingOutcome::StoppedWithoutWorkers)
        } else {
            (sent, PingOutcome::StoppedWithWorkers(workers))
        }
    } else {
        (sent, PingOutcome::Continue)
    }
}

/// The ping round at start-up sends exactly five pings: it goes on after each
/// of the first four and stops after the fifth.
pub proof fn lemma_ping_round_length(workers: nat)
    ensures
        forall|k: nat| 1 <= k <= 4 ==> #[trigger] spec_after_ping(k, workers) == PingOutcome::Continue,
        spec_after_ping(5, workers) != PingOutcome::Continue,
{
}

} // verus!
