use vstd::prelude::*;

use crate::messages::{lemma_filter_other_than, lemma_push_distinct, JobView};
use crate::worker::{
    spec_accept, spec_end_job, worker_step, worker_step_defined, DirectMessageView, WorkerActionView,
    WorkerEventView, WorkerView,
};

verus! {

/// Taking a job keeps every job with at most one channel, and keeps the jobs
/// that had a channel.
proof fn lemma_accept_keeps(v: WorkerView, job: JobView)
    requires
        v.valid(),
    ensures
        spec_accept(v, job).0.valid(),
        spec_accept(v, job).0.worker_id == v.worker_id,
        forall|j: Seq<char>| v.job_ids.contains(j) ==> #[trigger] spec_accept(v, job).0.job_ids.contains(j),
        spec_accept(v, job).1 ==> spec_accept(v, job).0.job_ids.contains(job.job_id),
{
    if v.worker_id == Some(job.worker_id) && !v.job_ids.contains(job.job_id) {
        let r = v.job_ids.push(job.job_id);
        lemma_push_distinct(v.job_ids, job.job_id);
        assert forall|j: Seq<char>| v.job_ids.contains(j) implies #[trigger] r.contains(j) by {
            let k = choose|k: int| 0 <= k < v.job_ids.len() && v.job_ids[k] == j;
            assert(r[k] == j);
        }
        assert(r[r.len() - 1] == job.job_id);
    }
}

/// Every message a worker acts on keeps each job with at most one channel.
pub proof fn lemma_worker_step_preserves_valid(v: WorkerView, e: WorkerEventView)
    requires
        v.valid(),
        worker_step_defined(v, e),
    ensures
        worker_step(v, e).0.valid(),
{
    match e {
        WorkerEventView::DirectWorkerCommunication(d) => {
            if v.worker_id == Some(d.worker_id) && !v.job_ids.contains(d.job_id) {
                lemma_accept_keeps(v, crate::worker::spec_recovered_job(d));
            }
        },
        WorkerEventView::InternalWorkerQueueJob(job) => {
            lemma_accept_keeps(v, job);
        },
        _ => {},
    }
}

/// A message addressed to another worker changes nothing and asks for nothing.
pub proof fn lemma_other_worker_ignored(v: WorkerView, e: WorkerEventView)
    requires
        v.worker_id is Some,
        match e {
            WorkerEventView::DirectWorkerCommunication(d) => v.worker_id != Some(d.worker_id),
            WorkerEventView::InternalWorkerQueueJob(job) => v.worker_id != Some(job.worker_id),
            _ => false,
        },
    ensures
        worker_step(v, e) == (v, WorkerActionView::Nothing),
{
}

/// A job that this worker started gets the direct messages for it: they are
/// routed to its channel, and it is not started a second time.
pub proof fn lemma_started_job_receives_messages(v: WorkerView, job: JobView, d: DirectMessageView)
    requires
        v.valid(),
        v.worker_id == Some(job.worker_id),
        d.worker_id == job.worker_id,
        d.job_id == job.job_id,
    ensures
        worker_step(v, WorkerEventView::InternalWorkerQueueJob(job)).1 == WorkerActionView::StartJob(
            job,
        ),
        worker_step(
            worker_step(v, WorkerEventView::InternalWorkerQueueJob(job)).0,
            WorkerEventView::DirectWorkerCommunication(d),
        ) == (
            worker_step(v, WorkerEventView::InternalWorkerQueueJob(job)).0,
            WorkerActionView::RouteToJob(job.job_id),
        ),
{
    lemma_accept_keeps(v, job);
}

/// A direct message for a job without a channel starts that job again once;
/// the next direct message for it is routed to the new channel.
pub proof fn lemma_restarted_job_receives_messages(v: WorkerView, d: DirectMessageView)
    requires
        v.valid(),
        v.worker_id == Some(d.worker_id),
        !v.job_ids.contains(d.job_id),
        d.request_id is Some,
    ensures
        worker_step(v, WorkerEventView::DirectWorkerCommunication(d)).1
            is RestartJob,
        worker_step(
            worker_step(v, WorkerEventView::DirectWorkerCommunication(d)).0,
            WorkerEventView::DirectWorkerCommunication(d),
        ).1 == WorkerActionView::RouteToJob(d.job_id),
{
    lemma_accept_keeps(v, crate::worker::spec_recovered_job(d));
}

/// Once a job has ended, the next direct message for it starts it again, and
/// the message after that is routed to the new channel.
pub proof fn lemma_ended_job_restarts(v: WorkerView, d: DirectMessageView)
    requires
        v.valid(),
        v.worker_id == Some(d.worker_id),
        d.request_id is Some,
    ensures
        spec_end_job(v, d.job_id).valid(),
        worker_step(spec_end_job(v, d.job_id), WorkerEventView::DirectWorkerCommunication(d)).1
            is RestartJob,
        worker_step(
            worker_step(spec_end_job(v, d.job_id), WorkerEventView::DirectWorkerCommunication(d)).0,
            WorkerEventView::DirectWorkerCommunication(d),
        ).1 == WorkerActionView::RouteToJob(d.job_id),
{
    lemma_filter_other_than(v.job_ids, d.job_id);
    lemma_restarted_job_receives_messages(spec_end_job(v, d.job_id), d);
}

/// A ping is answered with this worker's own identifier, and changes nothing.
pub proof fn lemma_ping_answered(v: WorkerView)
    requires
        v.worker_id is Some,
    ensures
        worker_step(v, WorkerEventView::InternalPingPongRequest) == (
            v,
            WorkerActionView::SendPong(v.worker_id.unwrap()),
        ),
{
}

/// A direct message for this worker about a job that has a channel is always
/// answered, whatever its request identifier: it is routed to that job, and
/// nothing changes.
pub proof fn lemma_running_job_routed(v: WorkerView, d: DirectMessageView)
    requires
        v.worker_id == Some(d.worker_id),
        v.job_ids.contains(d.job_id),
    ensures
        worker_step_defined(v, WorkerEventView::DirectWorkerCommunication(d)),
        worker_step(v, WorkerEventView::DirectWorkerCommunication(d)) == (
            v,
            WorkerActionView::RouteToJob(d.job_id),
        ),
{
}

/// A worker with an identifier answers every queued job: it starts a job
/// that names it, recording the job's guild and giving the job a channel, and
/// ignores a job that names another worker.
pub proof fn lemma_queued_job_answered(v: WorkerView, job: JobView)
    requires
        v.valid(),
        v.worker_id is Some,
    ensures
        worker_step_defined(v, WorkerEventView::InternalWorkerQueueJob(job)),
        v.worker_id == Some(job.worker_id) ==> ({
            let (next, action) = worker_step(v, WorkerEventView::InternalWorkerQueueJob(job));
            &&& action == WorkerActionView::StartJob(job)
            &&& next.worker_id == v.worker_id
            &&& next.guild_ids == v.guild_ids.push(job.guild_id)
            &&& next.job_ids.contains(job.job_id)
            &&& forall|j: Seq<char>| v.job_ids.contains(j) ==> #[trigger] next.job_ids.contains(j)
        }),
        v.worker_id != Some(job.worker_id) ==> worker_step(
            v,
            WorkerEventView::InternalWorkerQueueJob(job),
        ) == (v, WorkerActionView::Nothing),
{
    lemma_accept_keeps(v, job);
}

} // verus!
