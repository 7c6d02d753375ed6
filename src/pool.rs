//! The fixed-size worker pool: one submission endpoint and one thread handle
//! per worker, with job submission and the teardown order.
//!
//! The pool is generic over the submission endpoint `S` (the sending half of
//! the work queue) and the thread handle `H`; the caller spawns the threads and
//! sends the jobs through the closures it hands in.
use vstd::prelude::*;

verus! {

/// One worker: its identity within the pool and, until teardown takes it,
/// the handle of its thread.
struct Worker<H> {
    id: usize,
    thread: Option<H>,
}

/// A pool of a fixed, positive number of workers and one submission endpoint.
pub struct ThreadPool<S, H> {
    workers: Vec<Worker<H>>,
    sender: Option<S>,
}

/// What became of a submitted job.
pub enum Submission<E> {
    /// The job was handed to the work queue.
    Queued,
    /// The work queue refused the job; it is dropped.
    Failed(E),
    /// The submission endpoint was already retired; the job is dropped.
    Retired,
}

/// The thread handles still held, each paired with its worker's id (its
/// position), in creation order.
pub open spec fn held<H>(threads: Seq<Option<H>>) -> Seq<(usize, H)>
    decreases threads.len(),
{
    if threads.len() == 0 {
        seq![]
    } else {
        let rest = held(threads.drop_last());
        match threads.last() {
            Some(h) => rest.push(((threads.len() - 1) as usize, h)),
            None => rest,
        }
    }
}

impl<S, H> ThreadPool<S, H> {
    /// The number of workers.
    pub closed spec fn size(&self) -> nat {
        self.workers@.len()
    }

    /// The thread handle held for each worker, by id.
    pub closed spec fn threads(&self) -> Seq<Option<H>> {
        self.workers@.map_values(|w: Worker<H>| w.thread)
    }

    /// The submission endpoint, until teardown retires it.
    pub closed spec fn endpoint(&self) -> Option<S> {
        self.sender
    }

    /// The pool has at least one worker and each worker's id is its position.
    pub closed spec fn wf(&self) -> bool {
        &&& self.workers@.len() > 0
        &&& forall|i: int| 0 <= i < self.workers@.len() ==> #[trigger] self.workers@[i].id == i
    }

    /// Starts a pool of `size` workers: worker `id` runs the thread that
    /// `spawn(id)` starts, for each `id` below `size`, and jobs go out through
    /// `sender`.
    pub fn new<F: Fn(usize) -> H>(size: usize, sender: S, spawn: F) -> (pool: Self)
        requires
            size > 0,
            forall|id: usize| id < size ==> #[trigger] spawn.requires((id,)),
        ensures
            pool.wf(),
            pool.size() == size,
            pool.endpoint() == Some(sender),
            forall|id: int|
                0 <= id < size ==> #[trigger] pool.threads()[id] is Some && spawn.ensures(
                    (id as usize,),
                    pool.threads()[id]->0,
                ),
    {
        let mut workers: Vec<Worker<H>> = Vec::with_capacity(size);
        let mut id: usize = 0;
        while id < size
            invariant
                id <= size,
                workers@.len() == id,
                forall|id: usize| id < size ==> #[trigger] spawn.requires((id,)),
                forall|i: int| 0 <= i < id ==> #[trigger] workers@[i].id == i,
                forall|i: int|
                    0 <= i < id ==> #[trigger] workers@[i].thread is Some && spawn.ensures(
                        (i as usize,),
                        workers@[i].thread->0,
                    ),
            decreases size - id,
        {
            let thread = spawn(id);
            workers.push(Worker { id, thread: Some(thread) });
            id = id + 1;
        }
        ThreadPool { workers, sender: Some(sender) }
    }

    /// Submits `job`: while the endpoint is held, the job goes out through
    /// `send` and the result says whether the queue took it; once the endpoint
    /// is retired, `send` is not called and the job is dropped.
    pub fn execute<J, E, F: FnOnce(&S, J) -> Result<(), E>>(&self, job: J, send: F) -> (r:
        Submission<E>)
        requires
            self.endpoint() is Some ==> send.requires((&self.endpoint()->0, job)),
        ensures
            self.endpoint() is None <==> r is Retired,
            r is Queued ==> send.ensures((&self.endpoint()->0, job), Ok(())),
            r matches Submission::Failed(e) ==> send.ensures((&self.endpoint()->0, job), Err(e)),
    {
        match &self.sender {
            Some(sender) => {
                let res = send(sender, job);
                match res {
                    Ok(_unit) => {
                        assert(res == Ok::<(), E>(()));
                        Submission::Queued
                    },
                    Err(e) => Submission::Failed(e),
                }
            },
            None => Submission::Retired,
        }
    }

    /// Tears the pool down: first retires the submission endpoint, so that the
    /// work queue reports closure once it is drained, then takes each worker's
    /// thread handle, in creation order, for the caller to wait on. Each handle
    /// is handed out once: afterwards the pool holds none.
    pub fn shutdown(&mut self) -> (r: Vec<(usize, H)>)
        requires
            old(self).wf(),
        ensures
            final(self).wf(),
            final(self).size() == old(self).size(),
            final(self).endpoint() is None,
            forall|i: int| 0 <= i < final(self).size() ==> #[trigger] final(self).threads()[i] is None,
            r@ == held(old(self).threads()),
    {
        self.sender = None;
        let ghost before = self.threads();
        assert(forall|j: int| 0 <= j < before.len() ==> #[trigger] before[j] == self.workers@[j].thread);
        let mut taken: Vec<(usize, H)> = Vec::new();
        let mut i: usize = 0;
        while i < self.workers.len()
            invariant
                self.wf(),
                self.size() == before.len(),
                i <= before.len(),
                self.endpoint() is None,
                forall|j: int| 0 <= j < i ==> #[trigger] self.workers@[j].thread is None,
                forall|j: int|
                    i <= j < before.len() ==> #[trigger] self.workers@[j].thread == before[j],
                taken@ == held(before.take(i as int)),
            decreases before.len() - i,
        {
            let thread = self.workers[i].thread.take();
            assert(before.take(i + 1).drop_last() =~= before.take(i as int));
            match thread {
                Some(h) => taken.push((i, h)),
                None => {},
            }
            i = i + 1;
        }
        assert(before.take(before.len() as int) =~= before);
        assert(forall|j: int| 0 <= j < self.size() ==> #[trigger] self.threads()[j] == self.workers@[j].thread);
        taken
    }
}

} // verus!
