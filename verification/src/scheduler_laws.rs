use vstd::prelude::*;

use crate::messages::{
    lemma_filter_other_than, lemma_push_distinct, other_than, JobRequestView, JobView,
};
use crate::scheduler::{
    scheduler_step, spec_advance, spec_assign, spec_assignee,
    spec_distribution_report, spec_register, spec_remove, DistributeError, SchedulerActionView,
    SchedulerEventView, SchedulerView,
};

verus! {

/// The rotation after `k` jobs in a row, with no other message in between.
pub open spec fn spec_advance_n(v: SchedulerView, k: nat) -> SchedulerView
    decreases k,
{
    if k == 0 {
        v
    } else {
        spec_advance(spec_advance_n(v, (k - 1) as nat))
    }
}

/// Dropping a worker that is not registered changes no entry.
proof fn lemma_filter_absent(s: Seq<Seq<char>>, w: Seq<char>)
    requires
        !s.contains(w),
    ensures
        s.filter(other_than(w)) == s,
    decreases s.len(),
{
    reveal(Seq::filter);
    if s.len() == 0 {
        assert(s.filter(other_than(w)) =~= s);
    } else {
        let init = s.drop_last();
        assert(!init.contains(w)) by {
            if init.contains(w) {
                let k = choose|k: int| 0 <= k < init.len() && init[k] == w;
                assert(s[k] == w);
            }
        }
        lemma_filter_absent(init, w);
        assert(s.last() != w) by {
            assert(s[s.len() - 1] == s.last());
        }
        assert(init.push(s.last()) =~= s);
    }
}

/// Every message keeps the scheduler valid: no worker is registered twice, and
/// the next position names a registered worker whenever there is one, so a
/// job is never handed to a position outside the list.
pub proof fn lemma_step_preserves_valid(v: SchedulerView, e: SchedulerEventView, job_id: Seq<char>)
    requires
        v.valid(),
    ensures
        scheduler_step(v, e, job_id).0.valid(),
{
    match e {
        SchedulerEventView::WorkerShutdownAlert(w) => {
            lemma_filter_other_than(v.workers, w);
        },
        SchedulerEventView::InternalPongResponse(w) => {
            if !v.workers.contains(w) {
                lemma_push_distinct(v.workers, w);
            }
        },
        _ => {},
    }
}

/// Every job request is answered: with a job for a registered worker, under
/// the request's identifiers, when some worker is registered; otherwise with
/// an error report, and the state is left as it was.
pub proof fn lemma_request_answered(v: SchedulerView, request: JobRequestView, job_id: Seq<char>)
    requires
        v.valid(),
    ensures
        ({
            let (next, action) = scheduler_step(v, SchedulerEventView::ExternalQueueJob(request), job_id);
            if v.workers.len() > 0 {
                action matches SchedulerActionView::QueueJob(job) && v.workers.contains(job.worker_id)
                    && job.job_id == job_id && job.request_id == request.request_id && job.guild_id
                    == request.guild_id && next.workers == v.workers
            } else {
                action == SchedulerActionView::ReportError(
                    spec_distribution_report(request, DistributeError::NoWorkersRegistered),
                ) && next == v
            }
        }),
{
    if v.workers.len() > 0 {
        assert(v.workers[v.index as int] == spec_assignee(v));
    }
}

/// A worker that answers a ping twice is registered once.
pub proof fn lemma_register_idempotent(v: SchedulerView, worker_id: Seq<char>)
    ensures
        spec_register(spec_register(v, worker_id), worker_id) == spec_register(v, worker_id),
{
    if !v.workers.contains(worker_id) {
        let r = v.workers.push(worker_id);
        assert(r[r.len() - 1] == worker_id);
    }
}

/// Once a worker has shut down it is no longer registered, so no job goes to
/// it until it answers a ping again.
pub proof fn lemma_removed_worker_gone(v: SchedulerView, worker_id: Seq<char>)
    requires
        v.valid(),
    ensures
        !spec_remove(v, worker_id).workers.contains(worker_id),
        forall|x: Seq<char>|
            #[trigger] spec_remove(v, worker_id).workers.contains(x) <==> (v.workers.contains(x)
                && x != worker_id),
        spec_remove(v, worker_id).index == 0,
{
    lemma_filter_other_than(v.workers, worker_id);
}

/// A new worker that registers and then shuts down leaves the list of workers
/// as it was (the rotation starts over).
pub proof fn lemma_remove_undoes_register(v: SchedulerView, worker_id: Seq<char>)
    requires
        v.valid(),
        !v.workers.contains(worker_id),
    ensures
        spec_remove(spec_register(v, worker_id), worker_id).workers == v.workers,
        spec_remove(spec_register(v, worker_id), worker_id).index == 0,
{
    reveal(Seq::filter);
    let r = v.workers.push(worker_id);
    assert(r.drop_last() =~= v.workers);
    lemma_filter_absent(v.workers, worker_id);
}

/// After `k` jobs in a row the list of workers is unchanged and the next
/// position is the start position moved on by `k`, wrapping around.
pub proof fn lemma_advance_n(v: SchedulerView, k: nat)
    requires
        v.valid(),
        v.workers.len() > 0,
    ensures
        spec_advance_n(v, k).workers == v.workers,
        spec_advance_n(v, k).index == (v.index as int + k as int) % (v.workers.len() as int),
        spec_advance_n(v, k).valid(),
    decreases k,
{
    let n = v.workers.len() as int;
    if k == 0 {
        vstd::arithmetic::div_mod::lemma_small_mod(v.index, n as nat);
        assert(v.index as int + 0int == v.index as int);
    } else {
        lemma_advance_n(v, (k - 1) as nat);
        let prev = spec_advance_n(v, (k - 1) as nat);
        let i = v.index as int;
        let a = (i + k - 1) % n;
        assert(prev.index == a);
        assert(0 <= a < n) by {
            vstd::arithmetic::div_mod::lemma_mod_bound(i + k - 1, n);
        }
        vstd::arithmetic::div_mod::lemma_add_mod_noop_right(1, i + k - 1, n);
        assert(1 + (i + k - 1) == i + k);
        if a + 1 == n {
            vstd::arithmetic::div_mod::lemma_mod_self_0(n);
        } else {
            vstd::arithmetic::div_mod::lemma_small_mod((a + 1) as nat, n as nat);
        }
    }
}

/// A job handed out in a run of consecutive jobs goes to the worker at the
/// start position moved on by the number of jobs before it.
pub proof fn lemma_assign_in_run(
    v: SchedulerView,
    k: nat,
    request: JobRequestView,
    job_id: Seq<char>,
)
    requires
        v.valid(),
        v.workers.len() > 0,
    ensures
        spec_assign(spec_advance_n(v, k), request, job_id).0 == spec_advance_n(v, k + 1),
        spec_assign(spec_advance_n(v, k), request, job_id).1 matches Ok(job) && job.worker_id
            == v.workers[(v.index as int + k as int) % (v.workers.len() as int)],
{
    lemma_advance_n(v, k);
    assert(spec_advance_n(v, k + 1) == spec_advance(spec_advance_n(v, k)));
}

/// How many jobs in a row pass before the worker at position `m` gets one.
pub open spec fn turns_until(v: SchedulerView, m: int) -> nat {
    if m >= v.index {
        (m - v.index) as nat
    } else {
        (m - v.index + v.workers.len()) as nat
    }
}

/// Round robin: in a run of as many consecutive jobs as there are workers,
/// every registered worker gets exactly one job.
pub proof fn lemma_round_robin_fair(v: SchedulerView)
    requires
        v.valid(),
        v.workers.len() > 0,
    ensures
        forall|j1: nat, j2: nat|
            j1 < j2 < v.workers.len() ==> spec_assignee(#[trigger] spec_advance_n(v, j1))
                != spec_assignee(#[trigger] spec_advance_n(v, j2)),
        forall|m: int|
            0 <= m < v.workers.len() ==> #[trigger] turns_until(v, m) < v.workers.len()
                && spec_assignee(spec_advance_n(v, turns_until(v, m))) == v.workers[m],
{
    let n = v.workers.len() as int;
    let i = v.index as int;
    assert forall|j1: nat, j2: nat| j1 < j2 < n implies spec_assignee(
        #[trigger] spec_advance_n(v, j1),
    ) != spec_assignee(#[trigger] spec_advance_n(v, j2)) by {
        lemma_advance_n(v, j1);
        lemma_advance_n(v, j2);
        let a = (i + j1) % n;
        let b = (i + j2) % n;
        vstd::arithmetic::div_mod::lemma_mod_bound(i + j1, n);
        vstd::arithmetic::div_mod::lemma_mod_bound(i + j2, n);
        if a == b {
            vstd::arithmetic::div_mod::lemma_fundamental_div_mod(i + j1, n);
            vstd::arithmetic::div_mod::lemma_fundamental_div_mod(i + j2, n);
            let q1 = (i + j1) / n;
            let q2 = (i + j2) / n;
            assert(n * (q2 - q1) == j2 - j1) by (nonlinear_arith)
                requires
                    i + j1 == n * q1 + a,
                    i + j2 == n * q2 + b,
                    a == b,
            ;
            assert(false) by (nonlinear_arith)
                requires
                    n * (q2 - q1) == j2 - j1,
                    0 < j2 - j1 < n,
            ;
        }
    }
    assert forall|m: int| 0 <= m < n implies #[trigger] turns_until(v, m) < n && spec_assignee(
        spec_advance_n(v, turns_until(v, m)),
    ) == v.workers[m] by {
        let j = turns_until(v, m);
        lemma_advance_n(v, j);
        if m >= i {
            vstd::arithmetic::div_mod::lemma_small_mod(m as nat, n as nat);
        } else {
            vstd::arithmetic::div_mod::lemma_mod_add_multiples_vanish(m, n);
            vstd::arithmetic::div_mod::lemma_small_mod(m as nat, n as nat);
        }
        assert(spec_advance_n(v, j).index == m);
    }
}

/// A job request, with some worker registered, goes to the worker at the
/// current position, under the request's identifiers and the given job id,
/// and moves the position on by one, back to the first worker after the last.
/// The list of workers does not change.
pub proof fn lemma_job_request_rotates(v: SchedulerView, request: JobRequestView, job_id: Seq<char>)
    requires
        v.valid(),
        v.workers.len() > 0,
    ensures
        scheduler_step(v, SchedulerEventView::ExternalQueueJob(request), job_id).0 == (SchedulerView {
            workers: v.workers,
            index: ((v.index as int + 1) % (v.workers.len() as int)) as nat,
        }),
        scheduler_step(v, SchedulerEventView::ExternalQueueJob(request), job_id).1
            == SchedulerActionView::QueueJob(
            JobView {
                job_id,
                worker_id: v.workers[v.index as int],
                request_id: request.request_id,
                guild_id: request.guild_id,
            },
        ),
{
    let n = v.workers.len() as int;
    if v.index + 1 == n {
        vstd::arithmetic::div_mod::lemma_mod_self_0(n);
    } else {
        vstd::arithmetic::div_mod::lemma_small_mod((v.index + 1) as nat, n as nat);
    }
}

/// The state after `k` job requests in a row, with no other message between.
pub open spec fn after_requests(
    v: SchedulerView,
    request: JobRequestView,
    job_id: Seq<char>,
    k: nat,
) -> SchedulerView
    decreases k,
{
    if k == 0 {
        v
    } else {
        scheduler_step(
            after_requests(v, request, job_id, (k - 1) as nat),
            SchedulerEventView::ExternalQueueJob(request),
            job_id,
        ).0
    }
}

/// Round robin over messages: after `k` job requests in a row the workers are
/// unchanged, the position has moved on by `k` (wrapping around), and the
/// next request goes to the worker `k` places after the start position.
pub proof fn lemma_requests_rotate(
    v: SchedulerView,
    request: JobRequestView,
    job_id: Seq<char>,
    k: nat,
)
    requires
        v.valid(),
        v.workers.len() > 0,
    ensures
        after_requests(v, request, job_id, k).workers == v.workers,
        after_requests(v, request, job_id, k).index == (v.index as int + k as int) % (
        v.workers.len() as int),
        scheduler_step(
            after_requests(v, request, job_id, k),
            SchedulerEventView::ExternalQueueJob(request),
            job_id,
        ).1 matches SchedulerActionView::QueueJob(job) && job.worker_id == v.workers[(v.index as int
            + k as int) % (v.workers.len() as int)],
    decreases k,
{
    let n = v.workers.len() as int;
    let i = v.index as int;
    if k == 0 {
        vstd::arithmetic::div_mod::lemma_small_mod(v.index, n as nat);
        assert(i + 0 == i);
    } else {
        lemma_requests_rotate(v, request, job_id, (k - 1) as nat);
        let prev = after_requests(v, request, job_id, (k - 1) as nat);
        let a = (i + k - 1) % n;
        vstd::arithmetic::div_mod::lemma_mod_bound(i + k - 1, n);
        assert(prev.valid()) by {
            assert(prev.workers == v.workers);
            assert(prev.index == a);
        }
        lemma_job_request_rotates(prev, request, job_id);
        vstd::arithmetic::div_mod::lemma_add_mod_noop_right(1, i + k - 1, n);
        assert(1 + (i + k - 1) == i + k);
    }
    let cur = after_requests(v, request, job_id, k);
    assert(cur.valid()) by {
        vstd::arithmetic::div_mod::lemma_mod_bound(i + k, n);
    }
    lemma_job_request_rotates(cur, request, job_id);
}

/// Whether `x` stands before `y` in a list without duplicates.
pub open spec fn comes_before(s: Seq<Seq<char>>, x: Seq<char>, y: Seq<char>) -> bool {
    s.index_of(x) < s.index_of(y)
}

/// In a list without duplicates, the entry at a position is found there.
proof fn lemma_index_of_distinct(s: Seq<Seq<char>>, k: int)
    requires
        s.no_duplicates(),
        0 <= k < s.len(),
    ensures
        s.index_of(s[k]) == k,
{
    assert(s[k] == s[k]);
    let j = s.index_of(s[k]);
    assert(0 <= j < s.len() && s[j] == s[k]);
}

/// Dropping the entries equal to `w` keeps the others in their order.
proof fn lemma_filter_keeps_order(s: Seq<Seq<char>>, w: Seq<char>)
    requires
        s.no_duplicates(),
    ensures
        forall|a: int, b: int|
            0 <= a < b < s.filter(other_than(w)).len() ==> comes_before(
                s,
                #[trigger] s.filter(other_than(w))[a],
                #[trigger] s.filter(other_than(w))[b],
            ),
    decreases s.len(),
{
    reveal(Seq::filter);
    let f = other_than(w);
    if s.len() > 0 {
        let init = s.drop_last();
        assert(init.no_duplicates()) by {
            assert forall|i: int, j: int|
                0 <= i < init.len() && 0 <= j < init.len() && i != j implies init[i] != init[j] by {
                assert(init[i] == s[i] && init[j] == s[j]);
            }
        }
        lemma_filter_keeps_order(init, w);
        lemma_filter_other_than(init, w);
        let sub = init.filter(f);
        let r = s.filter(f);
        assert forall|x: Seq<char>| #[trigger] init.contains(x) implies s.index_of(x)
            == init.index_of(x) && s.index_of(x) < s.len() - 1 by {
            let k = choose|k: int| 0 <= k < init.len() && init[k] == x;
            lemma_index_of_distinct(init, k);
            assert(s[k] == x);
            lemma_index_of_distinct(s, k);
        }
        lemma_index_of_distinct(s, s.len() - 1);
        assert forall|a: int, b: int| 0 <= a < b < r.len() implies comes_before(
            s,
            #[trigger] r[a],
            #[trigger] r[b],
        ) by {
            assert(sub.contains(sub[a]));
            assert(init.contains(sub[a]));
            if b < sub.len() {
                assert(r[a] == sub[a] && r[b] == sub[b]);
                assert(comes_before(init, sub[a], sub[b]));
                assert(sub.contains(sub[b]));
                assert(init.contains(sub[b]));
            } else {
                assert(f(s.last()));
                assert(r[b] == s.last());
                assert(r[a] == sub[a]);
            }
        }
    }
}

/// A worker that shuts down leaves the other workers in the order they had:
/// of two remaining workers, the one that answered the ping first still comes
/// first.
pub proof fn lemma_remove_keeps_order(v: SchedulerView, worker_id: Seq<char>)
    requires
        v.valid(),
    ensures
        forall|a: int, b: int|
            0 <= a < b < spec_remove(v, worker_id).workers.len() ==> comes_before(
                v.workers,
                #[trigger] spec_remove(v, worker_id).workers[a],
                #[trigger] spec_remove(v, worker_id).workers[b],
            ),
{
    lemma_filter_keeps_order(v.workers, worker_id);
}

} // verus!
