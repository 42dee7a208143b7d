//! What holds of the pool in every state it can reach.
//!
//! A fresh pool satisfies the invariant and every operation preserves it.
//! From the invariant follow the guarantees of the pool: a job is run once,
//! by one worker; a pool whose workers have all terminated has run every job
//! it accepted; a pool under disposal accepts nothing.
use crate::channel::Received;
use crate::message::Message;
use crate::model::{live_count, JobStatus, PoolView};
use crate::worker::{state_after, Action, WorkerState, WorkerView};
use vstd::prelude::*;

verus! {

/// Replacing one worker changes the count of live workers by that worker's
/// own change.
pub proof fn lemma_live_count_update(ws: Seq<WorkerView>, i: int, w: WorkerView)
    requires
        0 <= i < ws.len(),
    ensures
        live_count(ws.update(i, w)) + (if ws[i].live() {
            1int
        } else {
            0int
        }) == live_count(ws) + (if w.live() {
            1int
        } else {
            0int
        }),
    decreases ws.len(),
{
    let us = ws.update(i, w);
    if i == ws.len() - 1 {
        assert(us.drop_last() =~= ws.drop_last());
    } else {
        assert(us.drop_last() =~= ws.drop_last().update(i, w));
        lemma_live_count_update(ws.drop_last(), i, w);
    }
}

/// Where every worker is live, the count of live workers is their number.
pub proof fn lemma_live_count_all(ws: Seq<WorkerView>)
    requires
        forall|i: int| 0 <= i < ws.len() ==> (#[trigger] ws[i]).live(),
    ensures
        live_count(ws) == ws.len(),
    decreases ws.len(),
{
    if ws.len() > 0 {
        let init = ws.drop_last();
        assert forall|i: int| 0 <= i < init.len() implies (#[trigger] init[i]).live() by {
            assert(init[i] == ws[i]);
        }
        lemma_live_count_all(init);
    }
}

/// The count of live workers is zero exactly where every worker has
/// terminated.
pub proof fn lemma_live_count_zero(ws: Seq<WorkerView>)
    ensures
        live_count(ws) == 0 <==> forall|i: int| 0 <= i < ws.len() ==> !(#[trigger] ws[i]).live(),
    decreases ws.len(),
{
    if ws.len() > 0 {
        let init = ws.drop_last();
        lemma_live_count_zero(init);
        if live_count(ws) == 0 {
            assert forall|i: int| 0 <= i < ws.len() implies !(#[trigger] ws[i]).live() by {
                if i < init.len() {
                    assert(init[i] == ws[i]);
                }
            }
        }
        if forall|i: int| 0 <= i < ws.len() ==> !(#[trigger] ws[i]).live() {
            assert forall|i: int| 0 <= i < init.len() implies !(#[trigger] init[i]).live() by {
                assert(init[i] == ws[i]);
            }
            assert(!ws[ws.len() - 1].live());
        }
    }
}

/// A fresh pool satisfies the invariant.
pub proof fn lemma_fresh_wf<J>(size: nat)
    requires
        size > 0,
    ensures
        PoolView::<J>::fresh(size).wf(),
{
    let v = PoolView::<J>::fresh(size);
    assert(v.terminators() == 0);
}

/// Submission preserves the invariant.
pub proof fn lemma_execute_wf<J>(v: PoolView<J>, job: J)
    requires
        v.wf(),
    ensures
        v.execute(job).wf(),
{
    let n = v.execute(job);
    if v.accepts() {
        assert(n.terminators() == 0);
        assert(n.waiting() == v.waiting() + 1);
        assert(n.started() == v.started());
        assert forall|i: int| 0 <= i < n.waiting() implies #[trigger] n.channel.pending[i]
            == Message::NewJob(n.jobs[n.started() + i].job) by {
            if i < v.waiting() {
                assert(n.channel.pending[i] == v.channel.pending[i]);
            }
        }
        assert forall|t: int| 0 <= t < n.jobs.len() implies ((#[trigger] n.jobs[t]).status is Pending
            <==> t >= n.started()) by {
            if t < v.jobs.len() {
                assert(n.jobs[t] == v.jobs[t]);
            }
        }
        assert forall|t: int| 0 <= t < n.jobs.len() implies match (#[trigger] n.jobs[t]).status {
            JobStatus::Pending => true,
            JobStatus::Running(w) => {
                &&& 0 <= w < n.workers.len()
                &&& n.workers[w].state is Executing
                &&& n.running[w] == Some(t)
            },
            JobStatus::Done(w) => 0 <= w < n.workers.len(),
        } by {
            if t < v.jobs.len() {
                assert(n.jobs[t] == v.jobs[t]);
            }
        }
        assert forall|w: int|
            0 <= w < n.workers.len() && (#[trigger] n.workers[w]).state is Executing implies {
            &&& n.running[w] is Some
            &&& 0 <= n.running[w]->0 < n.jobs.len()
            &&& n.jobs[n.running[w]->0].status == JobStatus::Running(w)
        } by {
            assert(v.workers[w].state is Executing);
            assert(n.jobs[v.running[w]->0] == v.jobs[v.running[w]->0]);
        }
    }
}

/// Completion of a job preserves the invariant.
pub proof fn lemma_complete_wf<J>(v: PoolView<J>, id: int)
    requires
        v.wf(),
        0 <= id < v.size(),
    ensures
        v.complete(id).wf(),
{
    let n = v.complete(id);
    if v.workers[id].state is Executing {
        let t = v.running[id]->0;
        lemma_live_count_update(v.workers, id, v.workers[id].completed());
        assert(live_count(n.workers) == live_count(v.workers));
        assert(n.waiting() == v.waiting());
        assert(n.started() == v.started());
        assert(v.jobs[t].status == JobStatus::Running(id));
        assert forall|i: int| 0 <= i < n.waiting() implies #[trigger] n.channel.pending[i]
            == Message::NewJob(n.jobs[n.started() + i].job) by {
            assert(v.channel.pending[i] == Message::NewJob(v.jobs[v.started() + i].job));
        }
        assert forall|t2: int| 0 <= t2 < n.jobs.len() implies match (#[trigger] n.jobs[t2]).status {
            JobStatus::Pending => true,
            JobStatus::Running(w) => {
                &&& 0 <= w < n.workers.len()
                &&& n.workers[w].state is Executing
                &&& n.running[w] == Some(t2)
            },
            JobStatus::Done(w) => 0 <= w < n.workers.len(),
        } by {
            if t2 != t {
                assert(n.jobs[t2] == v.jobs[t2]);
            }
        }
        assert forall|t2: int| 0 <= t2 < n.jobs.len() implies ((#[trigger] n.jobs[t2]).status is Pending
            <==> t2 >= n.started()) by {
            if t2 != t {
                assert(n.jobs[t2] == v.jobs[t2]);
            } else {
                assert(!(v.jobs[t].status is Pending));
            }
        }
        assert forall|w: int|
            0 <= w < n.workers.len() && (#[trigger] n.workers[w]).state is Executing implies {
            &&& n.running[w] is Some
            &&& 0 <= n.running[w]->0 < n.jobs.len()
            &&& n.jobs[n.running[w]->0].status == JobStatus::Running(w)
        } by {
            assert(w != id);
            assert(v.workers[w].state is Executing);
            assert(v.running[w]->0 != t);
        }
        assert forall|w: int| 0 <= w < n.workers.len() implies (#[trigger] n.workers[w]).id
            == w by {
            assert(v.workers[w].id == w);
        }
        assert forall|w: int| 0 <= w < n.workers.len() implies ((#[trigger] n.workers[w]).joined
            <==> w < n.joined) by {
            assert(v.workers[w].joined <==> w < v.joined);
        }
        assert forall|w: int| 0 <= w < n.joined implies (#[trigger] n.workers[w]).state is Terminated by {
            assert(v.workers[w].state is Terminated);
        }
        assert(!n.channel.closed ==> forall|w: int|
            0 <= w < n.workers.len() ==> (#[trigger] n.workers[w]).live());
    }
}

/// The beginning of disposal preserves the invariant.
pub proof fn lemma_shutdown_wf<J>(v: PoolView<J>)
    requires
        v.wf(),
    ensures
        v.shutdown().wf(),
{
    let n = v.shutdown();
    if !v.channel.closed {
        lemma_live_count_all(v.workers);
        assert(n.terminators() == v.size());
        assert(n.channel.pending.len() == v.channel.pending.len() + v.size());
        assert(n.waiting() == v.waiting());
        assert(n.started() == v.started());
        assert forall|i: int| 0 <= i < n.waiting() implies #[trigger] n.channel.pending[i]
            == Message::NewJob(n.jobs[n.started() + i].job) by {
            assert(n.channel.pending[i] == v.channel.pending[i]);
        }
    }
}

/// The end of a wait on a terminated worker preserves the invariant.
pub proof fn lemma_join_wf<J>(v: PoolView<J>)
    requires
        v.wf(),
        v.next_join() is Some,
        v.workers[v.joined as int].state is Terminated,
    ensures
        v.join().wf(),
{
    let n = v.join();
    let id = v.joined as int;
    lemma_live_count_update(v.workers, id, v.workers[id].joined());
    assert(live_count(n.workers) == live_count(v.workers));
    assert(n.waiting() == v.waiting());
    assert(n.started() == v.started());
    assert forall|w: int| 0 <= w < n.workers.len() implies (#[trigger] n.workers[w]).id == w by {
        assert(v.workers[w].id == w);
    }
    assert forall|w: int|
        0 <= w < n.workers.len() && (#[trigger] n.workers[w]).state is Executing implies {
        &&& n.running[w] is Some
        &&& 0 <= n.running[w]->0 < n.jobs.len()
        &&& n.jobs[n.running[w]->0].status == JobStatus::Running(w)
    } by {
        assert(v.workers[w].state is Executing);
    }
    assert forall|w: int| 0 <= w < n.workers.len() implies ((#[trigger] n.workers[w]).joined
        <==> w < n.joined) by {
        assert(v.workers[w].joined <==> w < v.joined);
    }
    assert forall|w: int| 0 <= w < n.joined implies (#[trigger] n.workers[w]).state is Terminated by {
        if w < v.joined {
            assert(v.workers[w].state is Terminated);
        }
    }
    assert forall|i: int| 0 <= i < n.waiting() implies #[trigger] n.channel.pending[i]
        == Message::NewJob(n.jobs[n.started() + i].job) by {
        assert(v.channel.pending[i] == Message::NewJob(v.jobs[v.started() + i].job));
    }
}

/// A worker that has not terminated leaves the channel of a pool under
/// disposal non-empty: its own order to terminate is still in it.
pub proof fn lemma_live_worker_has_order<J>(v: PoolView<J>, id: int)
    requires
        v.wf(),
        0 <= id < v.size(),
        v.workers[id].live(),
        v.channel.closed,
    ensures
        v.channel.pending.len() > 0,
{
    lemma_live_count_zero(v.workers);
}

/// A dequeue by a worker preserves the invariant.
pub proof fn lemma_receive_wf<J>(v: PoolView<J>, id: int)
    requires
        v.wf(),
        0 <= id < v.size(),
    ensures
        v.receive(id).wf(),
{
    let n = v.receive(id);
    if v.workers[id].state is Idle {
        let r = v.channel.received();
        let t = v.started();
        if v.channel.closed {
            lemma_live_worker_has_order(v, id);
        }
        lemma_live_count_update(v.workers, id, v.workers[id].with_state(state_after(r)));
        assert forall|w: int| 0 <= w < n.workers.len() implies (#[trigger] n.workers[w]).id
            == w by {
            assert(v.workers[w].id == w);
        }
        assert forall|w: int| 0 <= w < n.workers.len() implies ((#[trigger] n.workers[w]).joined
            <==> w < n.joined) by {
            assert(v.workers[w].joined <==> w < v.joined);
        }
        assert(!v.workers[id].joined) by {
            if id < v.joined {
                assert(v.workers[id].state is Terminated);
            }
        }
        assert forall|w: int| 0 <= w < n.joined implies (#[trigger] n.workers[w]).state is Terminated by {
            assert(v.workers[w].state is Terminated);
        }
        match r {
            Received::Empty => {
                assert(n.workers =~= v.workers);
                assert(n == v);
            },
            Received::Disconnected => {
                assert(false);
            },
            Received::Message(Message::NewJob(job)) => {
                assert(v.waiting() > 0) by {
                    if v.waiting() <= 0 {
                        assert(v.channel.pending[0] is Terminate);
                    }
                }
                assert(v.channel.pending[0] == Message::NewJob(v.jobs[t + 0].job));
                assert(live_count(n.workers) == live_count(v.workers));
                assert(n.waiting() == v.waiting() - 1);
                assert(n.started() == t + 1);
                assert(v.jobs[t].status is Pending);
                assert forall|i: int| 0 <= i < n.waiting() implies #[trigger] n.channel.pending[i]
                    == Message::NewJob(n.jobs[n.started() + i].job) by {
                    assert(n.channel.pending[i] == v.channel.pending[i + 1]);
                    assert(v.channel.pending[i + 1] == Message::NewJob(
                        v.jobs[v.started() + (i + 1)].job,
                    ));
                }
                assert forall|i: int|
                    n.waiting() <= i < n.channel.pending.len() implies #[trigger] n.channel.pending[i] is Terminate by {
                    assert(n.channel.pending[i] == v.channel.pending[i + 1]);
                }
                assert forall|t2: int| 0 <= t2 < n.jobs.len() implies ((#[trigger] n.jobs[t2]).status is Pending
                    <==> t2 >= n.started()) by {
                    if t2 != t {
                        assert(n.jobs[t2] == v.jobs[t2]);
                    }
                }
                assert forall|t2: int| 0 <= t2 < n.jobs.len() implies match (#[trigger] n.jobs[t2]).status {
                    JobStatus::Pending => true,
                    JobStatus::Running(w) => {
                        &&& 0 <= w < n.workers.len()
                        &&& n.workers[w].state is Executing
                        &&& n.running[w] == Some(t2)
                    },
                    JobStatus::Done(w) => 0 <= w < n.workers.len(),
                } by {
                    if t2 != t {
                        assert(n.jobs[t2] == v.jobs[t2]);
                    }
                }
                assert forall|w: int|
                    0 <= w < n.workers.len() && (#[trigger] n.workers[w]).state is Executing implies {
                    &&& n.running[w] is Some
                    &&& 0 <= n.running[w]->0 < n.jobs.len()
                    &&& n.jobs[n.running[w]->0].status == JobStatus::Running(w)
                } by {
                    if w != id {
                        assert(v.workers[w].state is Executing);
                        assert(v.running[w]->0 != t);
                    }
                }
                assert(!n.channel.closed ==> forall|w: int|
                    0 <= w < n.workers.len() ==> (#[trigger] n.workers[w]).live()) by {
                    if !n.channel.closed {
                        assert forall|w: int| 0 <= w < n.workers.len() implies (
                        #[trigger] n.workers[w]).live() by {
                            assert(v.workers[w].live());
                        }
                    }
                }
                assert(live_count(n.workers) > 0) by {
                    lemma_live_count_zero(n.workers);
                    assert(n.workers[id].live());
                }
            },
            Received::Message(Message::Terminate) => {
                assert(v.waiting() == 0) by {
                    if v.waiting() > 0 {
                        assert(v.channel.pending[0] == Message::NewJob(v.jobs[t + 0].job));
                    }
                }
                assert(v.channel.closed);
                assert(live_count(n.workers) == live_count(v.workers) - 1);
                assert(n.waiting() == 0);
                assert(n.started() == t);
                assert forall|i: int|
                    n.waiting() <= i < n.channel.pending.len() implies #[trigger] n.channel.pending[i] is Terminate by {
                    assert(n.channel.pending[i] == v.channel.pending[i + 1]);
                }
                assert forall|w: int|
                    0 <= w < n.workers.len() && (#[trigger] n.workers[w]).state is Executing implies {
                    &&& n.running[w] is Some
                    &&& 0 <= n.running[w]->0 < n.jobs.len()
                    &&& n.jobs[n.running[w]->0].status == JobStatus::Running(w)
                } by {
                    assert(w != id);
                    assert(v.workers[w].state is Executing);
                }
                assert forall|t2: int| 0 <= t2 < n.jobs.len() implies match (#[trigger] n.jobs[t2]).status {
                    JobStatus::Pending => true,
                    JobStatus::Running(w) => {
                        &&& 0 <= w < n.workers.len()
                        &&& n.workers[w].state is Executing
                        &&& n.running[w] == Some(t2)
                    },
                    JobStatus::Done(w) => 0 <= w < n.workers.len(),
                } by {
                    match v.jobs[t2].status {
                        JobStatus::Running(w) => {
                            assert(v.workers[w].state is Executing);
                            assert(w != id);
                        },
                        _ => {},
                    }
                }
            },
        }
    }
}

/// Once every worker has terminated, the channel is empty and every job that
/// the pool ever accepted has been run to its end.
pub proof fn lemma_terminated_pool_ran_every_job<J>(v: PoolView<J>)
    requires
        v.wf(),
        forall|w: int| 0 <= w < v.size() ==> (#[trigger] v.workers[w]).state is Terminated,
    ensures
        v.channel.closed,
        v.channel.pending.len() == 0,
        forall|t: int| 0 <= t < v.jobs.len() ==> v.done(t),
{
    assert(!v.workers[0].live());
    lemma_live_count_zero(v.workers);
    assert(live_count(v.workers) == 0);
    assert(v.started() == v.jobs.len());
    assert forall|t: int| 0 <= t < v.jobs.len() implies v.done(t) by {
        match v.jobs[t].status {
            JobStatus::Pending => {},
            JobStatus::Running(w) => {
                assert(v.workers[w].state is Terminated);
            },
            JobStatus::Done(_) => {},
        }
    }
}

/// Once disposal is complete, no worker is idle or executing, the channel is
/// empty and every job that the pool ever accepted has been run to its end.
pub proof fn lemma_disposed_pool_is_quiet<J>(v: PoolView<J>)
    requires
        v.wf(),
        v.disposed(),
    ensures
        forall|w: int| 0 <= w < v.size() ==> (#[trigger] v.workers[w]).state is Terminated,
        v.channel.pending.len() == 0,
        forall|t: int| 0 <= t < v.jobs.len() ==> v.done(t),
{
    lemma_terminated_pool_ran_every_job(v);
}

/// Once disposal has begun, every submission is refused and changes nothing.
pub proof fn lemma_shutdown_refuses_submission<J>(v: PoolView<J>, job: J)
    ensures
        !v.shutdown().accepts(),
        v.shutdown().execute(job) == v.shutdown(),
        v.shutdown().shutdown() == v.shutdown(),
{
}

/// No operation reopens a pool: one that refuses submissions refuses them
/// after any further operation.
pub proof fn lemma_closed_stays_closed<J>(v: PoolView<J>, id: int, job: J)
    requires
        !v.accepts(),
    ensures
        !v.execute(job).accepts(),
        !v.receive(id).accepts(),
        !v.complete(id).accepts(),
        !v.shutdown().accepts(),
        !v.join().accepts(),
{
}

/// Every operation continues the ledger: no job is lost or replaced, a job
/// that a worker has taken stays with that worker, and a job that is done
/// stays done. So a job is run at most once, and by one worker.
pub proof fn lemma_ledger_only_advances<J>(v: PoolView<J>, id: int, job: J)
    requires
        v.wf(),
        0 <= id < v.size(),
    ensures
        v.continued_by(v.execute(job)),
        v.continued_by(v.receive(id)),
        v.continued_by(v.complete(id)),
        v.continued_by(v.shutdown()),
        v.continued_by(v.join()),
{
    if v.workers[id].state is Idle && v.channel.pending.len() > 0
        && v.channel.pending[0] is NewJob {
        assert(v.waiting() > 0) by {
            if v.waiting() <= 0 {
                assert(v.channel.pending[0] is Terminate);
            }
        }
        assert(v.jobs[v.started()].status is Pending);
    }
    if v.workers[id].state is Executing {
        assert(v.jobs[v.running[id]->0].status == JobStatus::Running(id));
    }
}

/// Continuation is transitive, so what holds of one operation holds of any
/// sequence of them.
pub proof fn lemma_continuation_is_transitive<J>(a: PoolView<J>, b: PoolView<J>, c: PoolView<J>)
    requires
        a.continued_by(b),
        b.continued_by(c),
    ensures
        a.continued_by(c),
{
    assert forall|t: int| 0 <= t < a.jobs.len() implies {
        &&& (#[trigger] c.jobs[t]).job == a.jobs[t].job
        &&& a.jobs[t].status.leads_to(c.jobs[t].status)
    } by {
        assert(b.jobs[t].job == a.jobs[t].job);
    }
}

/// Jobs leave the channel in the order of their acceptance: the job that a
/// worker is handed is the oldest pending one, and the dequeue records it as
/// running on that worker and touches no other job.
pub proof fn lemma_receive_hands_out_oldest<J>(v: PoolView<J>, id: int)
    requires
        v.wf(),
        0 <= id < v.size(),
        v.action(id) is Run,
    ensures
        0 <= v.started() < v.jobs.len(),
        v.jobs[v.started()].status is Pending,
        v.action(id) == Action::Run(v.jobs[v.started()].job),
        v.receive(id).jobs[v.started()].status == JobStatus::Running(id),
        v.receive(id).started() == v.started() + 1,
        forall|t: int|
            0 <= t < v.jobs.len() && t != v.started() ==> v.receive(id).jobs[t] == v.jobs[t],
{
    assert(v.waiting() > 0) by {
        if v.waiting() <= 0 {
            assert(v.channel.pending[0] is Terminate);
        }
    }
    assert(v.channel.pending[0] == Message::NewJob(v.jobs[v.started() + 0].job));
    lemma_live_count_update(v.workers, id, v.workers[id].with_state(WorkerState::Executing));
}

/// An idle worker never waits while anything is pending: it is handed the
/// oldest message, which thereby leaves the channel.
pub proof fn lemma_idle_worker_takes_pending<J>(v: PoolView<J>, id: int)
    requires
        v.wf(),
        0 <= id < v.size(),
        v.workers[id].state is Idle,
        v.channel.pending.len() > 0,
    ensures
        !(v.action(id) is Wait),
        v.receive(id).channel.pending == v.channel.pending.drop_first(),
        !(v.receive(id).workers[id].state is Idle),
{
}

/// A job that a worker completes is done: the job it was running, and no
/// other, moves from running to done, and the worker is idle again.
pub proof fn lemma_complete_finishes_running_job<J>(v: PoolView<J>, id: int)
    requires
        v.wf(),
        0 <= id < v.size(),
        v.workers[id].state is Executing,
    ensures
        v.running[id] is Some,
        v.jobs[v.running[id]->0].status == JobStatus::Running(id),
        v.complete(id).jobs[v.running[id]->0].status == JobStatus::Done(id),
        v.complete(id).workers[id].state is Idle,
        forall|t: int|
            0 <= t < v.jobs.len() && t != v.running[id]->0 ==> v.complete(id).jobs[t] == v.jobs[t],
{
}

} // verus!
