use vstd::prelude::*;

use hearth_interconnect::messages::Message;

use crate::messages::{
    lemma_filter_other_than, lemma_push_distinct, opt_view, other_than, remove_all, string_views,
    Job, JobView,
};

verus! {

/// What a worker keeps about itself: its configured identifier, the guilds of
/// the jobs it started (one entry per start), and the jobs that have a channel
/// to their processor.
pub struct WorkerState {
    worker_id: Option<String>,
    guild_ids: Vec<String>,
    job_ids: Vec<String>,
}

pub struct WorkerView {
    pub worker_id: Option<Seq<char>>,
    pub guild_ids: Seq<Seq<char>>,
    pub job_ids: Seq<Seq<char>>,
}

impl WorkerView {
    /// Each job has at most one channel.
    pub open spec fn valid(self) -> bool {
        self.job_ids.no_duplicates()
    }
}

impl View for WorkerState {
    type V = WorkerView;

    closed spec fn view(&self) -> WorkerView {
        WorkerView {
            worker_id: opt_view(self.worker_id),
            guild_ids: string_views(self.guild_ids@),
            job_ids: string_views(self.job_ids@),
        }
    }
}

/// What the worker reads of a direct message about a running job.
#[derive(Debug)]
pub struct DirectMessage {
    pub job_id: String,
    pub guild_id: String,
    pub worker_id: String,
    pub request_id: Option<String>,
}

pub struct DirectMessageView {
    pub job_id: Seq<char>,
    pub guild_id: Seq<char>,
    pub worker_id: Seq<char>,
    pub request_id: Option<Seq<char>>,
}

impl View for DirectMessage {
    type V = DirectMessageView;

    open spec fn view(&self) -> DirectMessageView {
        DirectMessageView {
            job_id: self.job_id@,
            guild_id: self.guild_id@,
            worker_id: self.worker_id@,
            request_id: opt_view(self.request_id),
        }
    }
}

/// What a worker reads of a message from the bus.
#[derive(Debug)]
pub enum WorkerEvent {
    /// An action for a job (`DirectWorkerCommunication`).
    DirectWorkerCommunication(DirectMessage),
    /// The scheduler looks for workers.
    InternalPingPongRequest,
    /// The scheduler hands a job to a worker.
    InternalWorkerQueueJob(Job),
    /// Any other message; the worker ignores it.
    Ignored,
}

pub enum WorkerEventView {
    DirectWorkerCommunication(DirectMessageView),
    InternalPingPongRequest,
    InternalWorkerQueueJob(JobView),
    Ignored,
}

impl View for WorkerEvent {
    type V = WorkerEventView;

    open spec fn view(&self) -> WorkerEventView {
        match self {
            WorkerEvent::DirectWorkerCommunication(d) => WorkerEventView::DirectWorkerCommunication(d@),
            WorkerEvent::InternalPingPongRequest => WorkerEventView::InternalPingPongRequest,
            WorkerEvent::InternalWorkerQueueJob(j) => WorkerEventView::InternalWorkerQueueJob(j@),
            WorkerEvent::Ignored => WorkerEventView::Ignored,
        }
    }
}

/// What the worker asks the application to do after a message.
#[derive(Debug)]
pub enum WorkerAction {
    Nothing,
    /// Forward the direct message to the channel of this job.
    RouteToJob { job_id: String },
    /// Open a channel for this job and start processing it.
    StartJob(Job),
    /// No channel was found for a direct message: report that, then open a
    /// channel for the job and start processing it.
    RestartJob(Job),
    /// Publish a pong with this worker identifier.
    SendPong { worker_id: String },
}

pub enum WorkerActionView {
    Nothing,
    RouteToJob(Seq<char>),
    StartJob(JobView),
    RestartJob(JobView),
    SendPong(Seq<char>),
}

impl View for WorkerAction {
    type V = WorkerActionView;

    open spec fn view(&self) -> WorkerActionView {
        match self {
            WorkerAction::Nothing => WorkerActionView::Nothing,
            WorkerAction::RouteToJob { job_id } => WorkerActionView::RouteToJob(job_id@),
            WorkerAction::StartJob(j) => WorkerActionView::StartJob(j@),
            WorkerAction::RestartJob(j) => WorkerActionView::RestartJob(j@),
            WorkerAction::SendPong { worker_id } => WorkerActionView::SendPong(worker_id@),
        }
    }
}

// ---------------------------------------------------------------------------
// Transitions, stated over views
// ---------------------------------------------------------------------------

/// A job is taken when it names this worker: its guild is recorded and the job
/// gets a channel (a job that already has one keeps a single entry).
pub open spec fn spec_accept(v: WorkerView, job: JobView) -> (WorkerView, bool) {
    if v.worker_id == Some(job.worker_id) {
        (
            WorkerView {
                worker_id: v.worker_id,
                guild_ids: v.guild_ids.push(job.guild_id),
                job_ids: if v.job_ids.contains(job.job_id) {
                    v.job_ids
                } else {
                    v.job_ids.push(job.job_id)
                },
            },
            true,
        )
    } else {
        (v, false)
    }
}

/// A job that ended loses its channel; nothing else changes.
pub open spec fn spec_end_job(v: WorkerView, job_id: Seq<char>) -> WorkerView {
    WorkerView {
        worker_id: v.worker_id,
        guild_ids: v.guild_ids,
        job_ids: v.job_ids.filter(other_than(job_id)),
    }
}

/// The job that a direct message for a job without a channel starts again.
pub open spec fn spec_recovered_job(d: DirectMessageView) -> JobView {
    JobView {
        job_id: d.job_id,
        worker_id: d.worker_id,
        request_id: d.request_id.unwrap(),
        guild_id: d.guild_id,
    }
}

/// The messages on which the worker does not fail: those that it acts on need
/// its configured identifier, and a direct message for a job without a channel
/// needs a request identifier to start the job again.
pub open spec fn worker_step_defined(v: WorkerView, e: WorkerEventView) -> bool {
    match e {
        WorkerEventView::DirectWorkerCommunication(d) => {
            &&& v.worker_id is Some
            &&& (v.worker_id == Some(d.worker_id) && !v.job_ids.contains(d.job_id))
                ==> d.request_id is Some
        },
        WorkerEventView::InternalPingPongRequest => v.worker_id is Some,
        WorkerEventView::InternalWorkerQueueJob(_) => v.worker_id is Some,
        WorkerEventView::Ignored => true,
    }
}

/// One step of a worker: the next state and the action, for a message.
pub open spec fn worker_step(v: WorkerView, e: WorkerEventView) -> (WorkerView, WorkerActionView) {
    match e {
        WorkerEventView::DirectWorkerCommunication(d) => {
            if v.worker_id == Some(d.worker_id) {
                if v.job_ids.contains(d.job_id) {
                    (v, WorkerActionView::RouteToJob(d.job_id))
                } else {
                    let job = spec_recovered_job(d);
                    (spec_accept(v, job).0, WorkerActionView::RestartJob(job))
                }
            } else {
                (v, WorkerActionView::Nothing)
            }
        },
        WorkerEventView::InternalPingPongRequest => (
            v,
            WorkerActionView::SendPong(v.worker_id.unwrap()),
        ),
        WorkerEventView::InternalWorkerQueueJob(job) => {
            let (next, taken) = spec_accept(v, job);
            if taken {
                (next, WorkerActionView::StartJob(job))
            } else {
                (next, WorkerActionView::Nothing)
            }
        },
        WorkerEventView::Ignored => (v, WorkerActionView::Nothing),
    }
}

/// What a worker reads of a payload from the bus: `None` when it is not a
/// message of the wire format (JSON, tagged by `type`).
pub uninterp spec fn wire_worker_event(payload: Seq<u8>) -> Option<WorkerEventView>;

/// `serde_json::from_slice::<hearth_interconnect::messages::Message>`, with
/// the message also turned into what a worker reads of it (field by field;
/// every other kind of message is `Ignored`). The result is a function of the
/// bytes alone, named `wire_worker_event`.
#[verifier::external_body]
fn parse_worker_event(payload: &[u8]) -> (r: Result<(WorkerEvent, Message), serde_json::Error>)
    ensures
        r is Err <==> wire_worker_event(payload@) is None,
        r matches Ok((e, _)) ==> wire_worker_event(payload@) == Some(e@),
{
    let m = serde_json::from_slice::<Message>(payload)?;
    let e = match &m {
        Message::DirectWorkerCommunication(d) => WorkerEvent::DirectWorkerCommunication(
            DirectMessage { job_id: d.job_id.clone(), guild_id: d.guild_id.clone(),
                worker_id: d.worker_id.clone(), request_id: d.request_id.clone() },
        ),
        Message::InternalPingPongRequest => WorkerEvent::InternalPingPongRequest,
        Message::InternalWorkerQueueJob(j) => WorkerEvent::InternalWorkerQueueJob(
            Job { job_id: j.job_id.clone(), worker_id: j.worker_id.clone(),
                request_id: j.request_id.clone(), guild_id: j.guild_id.clone() },
        ),
        _ => WorkerEvent::Ignored,
    };
    Ok((e, m))
}

/// What became of a message that a worker read.
pub enum WorkerPayload {
    /// The message was handled; the action is to be carried out.
    Handled(WorkerAction, Message),
    /// The worker cannot answer this message (see `worker_step_defined`): it
    /// has no identifier, or a job without a channel would have to be started
    /// again without a request identifier. Nothing changed.
    Unanswerable(WorkerEvent, Message),
}

// ---------------------------------------------------------------------------
// Executable worker
// ---------------------------------------------------------------------------

impl WorkerState {
    #[verifier::type_invariant]
    closed spec fn inv(self) -> bool {
        self@.valid()
    }

    /// A worker with the identifier from its configuration (which may be
    /// missing), no guild and no job.
    pub fn new(worker_id: Option<String>) -> (s: Self)
        ensures
            s@.worker_id == opt_view(worker_id),
            s@.guild_ids == Seq::<Seq<char>>::empty(),
            s@.job_ids == Seq::<Seq<char>>::empty(),
            s@.valid(),
    {
        let s = WorkerState { worker_id, guild_ids: Vec::new(), job_ids: Vec::new() };
        assert(s@.guild_ids =~= Seq::<Seq<char>>::empty());
        assert(s@.job_ids =~= Seq::<Seq<char>>::empty());
        s
    }

    /// The configured identifier of this worker.
    pub fn worker_id(&self) -> (w: Option<String>)
        ensures
            opt_view(w) == self@.worker_id,
    {
        match &self.worker_id {
            Some(w) => Some(w.clone()),
            None => None,
        }
    }

    /// The guilds of the jobs started on this worker, one entry per start.
    pub fn guild_ids(&self) -> (g: Vec<String>)
        ensures
            string_views(g@) == self@.guild_ids,
    {
        self.guild_ids.clone()
    }

    /// The jobs that have a channel to their processor.
    pub fn job_ids(&self) -> (j: Vec<String>)
        ensures
            string_views(j@) == self@.job_ids,
    {
        self.job_ids.clone()
    }

    /// Whether a job has a channel to its processor.
    pub fn has_job(&self, job_id: &String) -> (b: bool)
        ensures
            b == self@.job_ids.contains(job_id@),
    {
        let n = self.job_ids.len();
        let mut i: usize = 0;
        while i < n
            invariant
                n == self.job_ids@.len(),
                0 <= i <= n,
                forall|k: int| 0 <= k < i ==> self@.job_ids[k] != job_id@,
            decreases n - i,
        {
            if self.job_ids[i] == *job_id {
                assert(self@.job_ids[i as int] == job_id@);
                return true;
            }
            i = i + 1;
        }
        false
    }

    /// Whether a message names this worker.
    fn is_me(&self, worker_id: &String) -> (b: bool)
        requires
            self@.worker_id is Some,
        ensures
            b == (self@.worker_id == Some(worker_id@)),
    {
        match &self.worker_id {
            Some(me) => *me == *worker_id,
            None => false,
        }
    }

    /// Whether the worker can answer a message (`worker_step_defined`).
    pub fn can_handle(&self, event: &WorkerEvent) -> (b: bool)
        ensures
            b == worker_step_defined(self@, event@),
    {
        if self.worker_id.is_none() {
            return match event {
                WorkerEvent::Ignored => true,
                _ => false,
            };
        }
        match event {
            WorkerEvent::DirectWorkerCommunication(d) => {
                !(self.is_me(&d.worker_id) && !self.has_job(&d.job_id)) || d.request_id.is_some()
            },
            _ => true,
        }
    }

    /// A job ended, or its channel is gone: the job no longer has a channel, so
    /// the next direct message for it starts it again.
    pub fn end_job(&mut self, job_id: &String)
        ensures
            final(self)@ == spec_end_job(old(self)@, job_id@),
            final(self)@.valid(),
    {
        proof {
            use_type_invariant(&*self);
            lemma_filter_other_than(self@.job_ids, job_id@);
        }
        let job_ids = remove_all(&self.job_ids, job_id);
        let guild_ids = self.guild_ids.clone();
        let worker_id = self.worker_id();
        *self = WorkerState { worker_id, guild_ids, job_ids };
    }

    /// Takes a job that names this worker: records its guild and gives the job
    /// a channel. Returns whether the job was taken.
    pub fn accept_job(&mut self, job: &Job) -> (taken: bool)
        requires
            old(self)@.worker_id is Some,
        ensures
            (final(self)@, taken) == spec_accept(old(self)@, job@),
            final(self)@.valid(),
    {
        proof {
            use_type_invariant(&*self);
        }
        if !self.is_me(&job.worker_id) {
            return false;
        }
        let ghost before = self@;
        let known = self.has_job(&job.job_id);
        let mut guild_ids = self.guild_ids.clone();
        guild_ids.push(job.guild_id.clone());
        let mut job_ids = self.job_ids.clone();
        if !known {
            job_ids.push(job.job_id.clone());
            proof {
                assert(string_views(job_ids@) =~= before.job_ids.push(job@.job_id));
                lemma_push_distinct(before.job_ids, job@.job_id);
            }
        }
        proof {
            assert(string_views(guild_ids@) =~= before.guild_ids.push(job@.guild_id));
        }
        let worker_id = self.worker_id();
        *self = WorkerState { worker_id, guild_ids, job_ids };
        true
    }

    /// Reacts to one message from the bus: a direct message for this worker is
    /// routed to its job, or starts the job again when it has no channel; a
    /// ping is answered with a pong; a job for this worker is started; anything
    /// else (and anything for another worker) is ignored.
    pub fn handle_event(&mut self, event: WorkerEvent) -> (a: WorkerAction)
        requires
            worker_step_defined(old(self)@, event@),
        ensures
            (final(self)@, a@) == worker_step(old(self)@, event@),
            final(self)@.valid(),
    {
        proof {
            use_type_invariant(&*self);
        }
        match event {
            WorkerEvent::DirectWorkerCommunication(d) => {
                if !self.is_me(&d.worker_id) {
                    return WorkerAction::Nothing;
                }
                if self.has_job(&d.job_id) {
                    return WorkerAction::RouteToJob { job_id: d.job_id };
                }
                let request_id = d.request_id.unwrap();
                let job = Job {
                    job_id: d.job_id,
                    worker_id: d.worker_id,
                    request_id,
                    guild_id: d.guild_id,
                };
                let _ = self.accept_job(&job);
                WorkerAction::RestartJob(job)
            },
            WorkerEvent::InternalPingPongRequest => {
                WorkerAction::SendPong { worker_id: self.worker_id().unwrap() }
            },
            WorkerEvent::InternalWorkerQueueJob(job) => {
                if self.accept_job(&job) {
                    WorkerAction::StartJob(job)
                } else {
                    WorkerAction::Nothing
                }
            },
            WorkerEvent::Ignored => WorkerAction::Nothing,
        }
    }

    /// Reacts to one payload from the bus: one that is not a message is
    /// refused with the parse error; a message that the worker cannot answer
    /// is handed back as such; any other message is handled as `handle_event`
    /// does. Only a handled message changes the state.
    pub fn handle_payload(&mut self, payload: &[u8]) -> (r: Result<WorkerPayload, serde_json::Error>)
        ensures
            match wire_worker_event(payload@) {
                None => r is Err && final(self)@ == old(self)@,
                Some(e) => if worker_step_defined(old(self)@, e) {
                    r matches Ok(WorkerPayload::Handled(a, _)) && (final(self)@, a@) == worker_step(
                        old(self)@,
                        e,
                    )
                } else {
                    r matches Ok(WorkerPayload::Unanswerable(u, _)) && u@ == e && final(self)@
                        == old(self)@
                },
            },
            final(self)@.valid(),
    {
        proof {
            use_type_invariant(&*self);
        }
        match parse_worker_event(payload) {
            Ok((event, message)) => {
                if self.can_handle(&event) {
                    Ok(WorkerPayload::Handled(self.handle_event(event), message))
                } else {
                    Ok(WorkerPayload::Unanswerable(event, message))
                }
            },
            Err(e) => Err(e),
        }
    }
}

} // verus!
