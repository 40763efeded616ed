//! The worker pool: a fixed set of worker threads draining one shared FIFO
//! queue of control messages. Each queued job is claimed by exactly one
//! worker; shutdown is an in-band `Terminate` message per worker, followed by
//! a join of every worker thread.
use vstd::prelude::*;
use crate::channel::JobSender;
use crate::channel::SharedReceiver;
use crate::channel::control_channel;

verus! {

/// What the pool's queue transports: either one job, or the order to stop.
/// Shutdown is expressed in-band, so a worker drains the jobs queued before it
/// and never abandons one.
pub enum ControlMessage<J> {
    NewJob(J),
    Terminate,
}

/// What a worker does with one received control message.
pub enum WorkerAction<J> {
    Run(J),
    Exit,
}

/// The step a worker takes on one message: run the job, or exit the loop.
pub open spec fn spec_worker_step<J>(message: ControlMessage<J>) -> WorkerAction<J> {
    match message {
        ControlMessage::NewJob(job) => WorkerAction::Run(job),
        ControlMessage::Terminate => WorkerAction::Exit,
    }
}

/// Decides what a worker does with one control message.
pub fn worker_step<J>(message: ControlMessage<J>) -> (action: WorkerAction<J>)
    ensures
        action == spec_worker_step(message),
{
    match message {
        ControlMessage::NewJob(job) => WorkerAction::Run(job),
        ControlMessage::Terminate => WorkerAction::Exit,
    }
}

/// The queue a sequence of submitted jobs becomes.
pub open spec fn submission<J>(jobs: Seq<J>) -> Seq<ControlMessage<J>> {
    jobs.map_values(|job: J| ControlMessage::NewJob(job))
}

/// The jobs that run when a queue of messages is fully drained, each message
/// claimed exactly once, in order. A `Terminate` stops one worker, not the
/// draining: the remaining workers keep claiming messages.
pub open spec fn executed_jobs<J>(messages: Seq<ControlMessage<J>>) -> Seq<J>
    decreases messages.len(),
{
    if messages.len() == 0 {
        Seq::empty()
    } else {
        match spec_worker_step(messages[0]) {
            WorkerAction::Run(job) => seq![job] + executed_jobs(messages.drop_first()),
            WorkerAction::Exit => executed_jobs(messages.drop_first()),
        }
    }
}

/// The jobs one worker runs from the messages delivered to it, in order: every
/// job until the first `Terminate`, and nothing after it.
pub open spec fn runs_until_exit<J>(messages: Seq<ControlMessage<J>>) -> Seq<J>
    decreases messages.len(),
{
    if messages.len() == 0 {
        Seq::empty()
    } else {
        match spec_worker_step(messages[0]) {
            WorkerAction::Run(job) => seq![job] + runs_until_exit(messages.drop_first()),
            WorkerAction::Exit => Seq::empty(),
        }
    }
}

/// Whether a worker delivered these messages reaches its exit.
pub open spec fn reaches_exit<J>(messages: Seq<ControlMessage<J>>) -> bool
    decreases messages.len(),
{
    if messages.len() == 0 {
        false
    } else {
        match spec_worker_step(messages[0]) {
            WorkerAction::Run(_) => reaches_exit(messages.drop_first()),
            WorkerAction::Exit => true,
        }
    }
}

/// Submitting a sequence of jobs makes every job execute exactly once,
/// whatever the pool size: draining the queue those submissions build runs
/// exactly the submitted jobs, in submission order.
pub proof fn lemma_jobs_execute_exactly_once<J>(jobs: Seq<J>)
    ensures
        executed_jobs(submission(jobs)) == jobs,
    decreases jobs.len(),
{
    if jobs.len() == 0 {
        assert(executed_jobs(submission(jobs)) =~= jobs);
    } else {
        lemma_jobs_execute_exactly_once(jobs.drop_first());
        assert(submission(jobs).drop_first() =~= submission(jobs.drop_first()));
        assert(executed_jobs(submission(jobs)) =~= jobs);
    }
}

/// The subsequence of messages claimed by one side, when each message of the
/// queue is claimed by exactly one of two sides (a worker, and the rest of the
/// pool), `claimed` saying which.
pub open spec fn claims<J>(
    messages: Seq<ControlMessage<J>>,
    claimed: Seq<bool>,
    flag: bool,
) -> Seq<ControlMessage<J>>
    decreases messages.len(),
{
    if messages.len() == 0 {
        Seq::empty()
    } else {
        let rest = claims(messages.drop_first(), claimed.drop_first(), flag);
        if claimed[0] == flag {
            seq![messages[0]] + rest
        } else {
            rest
        }
    }
}

/// One claimed message ahead of a stream: the jobs run are the head's job, if
/// it carries one, and then the stream's.
proof fn lemma_executed_jobs_cons<J>(m: ControlMessage<J>, rest: Seq<ControlMessage<J>>)
    ensures
        executed_jobs(seq![m] + rest) == match spec_worker_step(m) {
            WorkerAction::Run(job) => seq![job] + executed_jobs(rest),
            WorkerAction::Exit => executed_jobs(rest),
        },
{
    assert((seq![m] + rest).drop_first() =~= rest);
    assert((seq![m] + rest)[0] == m);
}

/// How the queue's messages are divided among claimants does not matter: split
/// the queue between one worker and the rest of the pool, each message claimed
/// by exactly one side, and the jobs the two sides run are together exactly
/// the jobs of the whole queue — the same multiset, so every job still runs
/// exactly once, whatever the pool size.
pub proof fn lemma_claims_split_preserves_jobs<J>(
    messages: Seq<ControlMessage<J>>,
    claimed: Seq<bool>,
)
    requires
        claimed.len() == messages.len(),
    ensures
        executed_jobs(claims(messages, claimed, true)).to_multiset().add(
            executed_jobs(claims(messages, claimed, false)).to_multiset(),
        ) == executed_jobs(messages).to_multiset(),
    decreases messages.len(),
{
    broadcast use vstd::multiset::group_multiset_axioms;
    broadcast use vstd::seq_lib::group_to_multiset_ensures;

    if messages.len() == 0 {
        assert(executed_jobs(claims(messages, claimed, true)).to_multiset().len() == 0);
        assert(executed_jobs(claims(messages, claimed, false)).to_multiset().len() == 0);
        assert(executed_jobs(messages).to_multiset().len() == 0);
        assert(executed_jobs(claims(messages, claimed, true)).to_multiset().add(
            executed_jobs(claims(messages, claimed, false)).to_multiset(),
        ) =~= executed_jobs(messages).to_multiset());
    } else {
        let m = messages[0];
        let tail = messages.drop_first();
        let claimed_tail = claimed.drop_first();
        lemma_claims_split_preserves_jobs(tail, claimed_tail);
        lemma_executed_jobs_cons(m, tail);
        assert(messages =~= seq![m] + tail);
        let side = claimed[0];
        lemma_executed_jobs_cons(m, claims(tail, claimed_tail, side));
        assert(claims(messages, claimed, side) == seq![m] + claims(tail, claimed_tail, side));
        assert(claims(messages, claimed, !side) == claims(tail, claimed_tail, !side));
        match spec_worker_step(m) {
            WorkerAction::Run(job) => {
                vstd::seq_lib::lemma_multiset_commutative(
                    seq![job],
                    executed_jobs(claims(tail, claimed_tail, side)),
                );
                vstd::seq_lib::lemma_multiset_commutative(seq![job], executed_jobs(tail));
                assert(executed_jobs(claims(messages, claimed, side)).to_multiset()
                    == seq![job].to_multiset().add(
                    executed_jobs(claims(tail, claimed_tail, side)).to_multiset(),
                ));
                assert(executed_jobs(messages).to_multiset() == seq![job].to_multiset().add(
                    executed_jobs(tail).to_multiset(),
                ));
                assert(executed_jobs(claims(messages, claimed, true)).to_multiset().add(
                    executed_jobs(claims(messages, claimed, false)).to_multiset(),
                ) =~= executed_jobs(messages).to_multiset());
            },
            WorkerAction::Exit => {
                assert(executed_jobs(claims(messages, claimed, true)).to_multiset().add(
                    executed_jobs(claims(messages, claimed, false)).to_multiset(),
                ) =~= executed_jobs(messages).to_multiset());
            },
        }
    }
}

/// Once shutdown's `Terminate` is behind the queued jobs, a worker delivered
/// that stream drains exactly the jobs queued before the `Terminate`, then
/// exits; no message delivered after it runs.
pub proof fn lemma_shutdown_drains_then_stops<J>(queued: Seq<J>, later: Seq<ControlMessage<J>>)
    ensures
        runs_until_exit(submission(queued) + seq![ControlMessage::<J>::Terminate] + later)
            == queued,
        reaches_exit(submission(queued) + seq![ControlMessage::<J>::Terminate] + later),
    decreases queued.len(),
{
    let stream = submission(queued) + seq![ControlMessage::<J>::Terminate] + later;
    if queued.len() == 0 {
        assert(stream[0] == ControlMessage::<J>::Terminate);
        assert(runs_until_exit(stream) =~= queued);
    } else {
        lemma_shutdown_drains_then_stops(queued.drop_first(), later);
        assert(stream.drop_first() =~= submission(queued.drop_first()) + seq![
            ControlMessage::<J>::Terminate,
        ] + later);
        assert(stream[0] == ControlMessage::NewJob(queued[0]));
        assert(runs_until_exit(stream) =~= queued);
    }
}

/// Error returned when using pool methods.
#[derive(Debug, Clone, Copy, PartialEq, Eq, Structural)]
pub enum PoolError {
    /// The pool was asked for zero workers.
    ZeroWorkers,
    /// The queue is gone: every worker has exited and released it.
    QueueClosed,
}

/// One worker, before its thread exists: its stable identifier and its
/// handle on the shared queue. The caller gives each worker a thread of
/// execution and has it run [`Worker::run`] there.
#[verifier::reject_recursive_types(J)]
pub struct Worker<J> {
    id: usize,
    receiver: SharedReceiver<ControlMessage<J>>,
}

impl<J> Worker<J> {
    /// The worker's stable identifier.
    pub closed spec fn spec_id(&self) -> usize {
        self.id
    }

    /// The worker's identifier.
    pub fn id(&self) -> (id: usize)
        ensures
            id == self.spec_id(),
    {
        self.id
    }

    /// One turn of the worker's loop: block until a control message is
    /// claimed, run the job it carries synchronously, and say whether the
    /// worker should keep going. It stops on `Terminate` and once the queue is
    /// gone; the thread that drives the worker loops while this returns true.
    /// Every failure path returns normally; nothing here can panic the
    /// worker's thread.
    pub fn run_one<F: Fn(J)>(&self, handler: F) -> (proceed: bool)
        requires
            forall|job: J| call_requires(handler, (job,)),
        ensures
            proceed ==> exists|job: J| call_ensures(handler, (job,), ()),
    {
        match self.receiver.recv() {
            Some(message) => match worker_step(message) {
                WorkerAction::Run(job) => {
                    handler(job);
                    true
                },
                WorkerAction::Exit => false,
            },
            None => false,
        }
    }
}

/// The sending side of a fixed collection of workers bound to one shared job
/// queue. Jobs submitted with [`ThreadPool::execute`] are each claimed by
/// exactly one worker; [`ThreadPool::signal_shutdown`] queues one `Terminate`
/// per worker, after which every worker's [`Worker::run`] returns. The owner
/// of the worker threads joins them once the shutdown is signalled.
#[verifier::reject_recursive_types(J)]
pub struct ThreadPool<J> {
    sender: JobSender<ControlMessage<J>>,
    n_workers: usize,
}

impl<J> ThreadPool<J> {
    /// How many workers were bound to this pool's queue.
    pub closed spec fn worker_count(&self) -> usize {
        self.n_workers
    }

    /// Creates a new pool of `n_threads` workers bound to one shared queue,
    /// and hands the workers out for the caller to run, one thread each.
    /// Fails exactly when `n_threads` is zero.
    pub fn new(n_threads: usize) -> (r: Result<(ThreadPool<J>, Vec<Worker<J>>), PoolError>)
        ensures
            r is Ok <==> n_threads >= 1,
            r matches Ok(pool) ==> {
                &&& pool.0.worker_count() == n_threads
                &&& pool.1@.len() == n_threads
                &&& forall|i: int| 0 <= i < n_threads ==> (#[trigger] pool.1@[i]).spec_id() == i
            },
            r matches Err(e) ==> e == PoolError::ZeroWorkers,
    {
        if n_threads == 0 {
            return Err(PoolError::ZeroWorkers);
        }
        let channel_ends = control_channel::<ControlMessage<J>>();
        let sender = channel_ends.0;
        let receiver = channel_ends.1;
        let mut workers: Vec<Worker<J>> = Vec::new();
        let mut id: usize = 0;
        while id < n_threads
            invariant
                id <= n_threads,
                workers@.len() == id,
                forall|i: int| 0 <= i < id ==> (#[trigger] workers@[i]).spec_id() == i,
            decreases n_threads - id,
        {
            workers.push(Worker { id, receiver: receiver.duplicate() });
            id += 1;
        }
        Ok((ThreadPool { sender, n_workers: n_threads }, workers))
    }

    /// Enqueues one job and returns immediately; the job is later claimed and
    /// run by exactly one worker. Fails only when the queue is gone, which
    /// means every worker has already stopped.
    pub fn execute(&self, job: J) -> (r: Result<(), PoolError>)
        ensures
            r matches Err(e) ==> e == PoolError::QueueClosed,
    {
        if self.sender.send(ControlMessage::NewJob(job)) {
            Ok(())
        } else {
            Err(PoolError::QueueClosed)
        }
    }

    /// Signals shutdown: queues exactly one `Terminate` message per worker.
    /// Workers drain the jobs queued before these messages, then stop; the
    /// owner of the worker threads joins them after this call.
    pub fn signal_shutdown(&self) {
        let n = self.n_workers;
        let mut sent: usize = 0;
        while sent < n
            invariant
                sent <= n,
            decreases n - sent,
        {
            let _ = self.sender.send(ControlMessage::Terminate);
            sent += 1;
        }
    }
}

} // verus!
