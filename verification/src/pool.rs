//! The pool itself: which worker a submitted task goes to, and when a join may return.
use crate::channel::ChannelData;
use crate::channel::JobReceiver;
use crate::counts::Candidate;
use crate::counts::WorkerCountData;
use crate::naming::default_pool_name;
use crate::naming::Numbering;
use crate::task::Evaluation;
use crate::task::Execution;
use crate::task::Job;
use crate::task::JoinHandle;
use crate::task::Task;
use crate::worker::share;
use crate::worker::Worker;
use crate::worker::WorkerData;
use std::sync::Arc;
use std::time::Duration;
use vstd::prelude::*;

verus! {

/// A pool may have these sizes: there may be at least one worker, and all core workers may be
/// there.
pub open spec fn valid_sizes(core_size: u32, max_size: u32) -> bool {
    max_size > 0 && max_size >= core_size
}

/// Whether a pool may have these sizes.
pub fn are_valid_sizes(core_size: u32, max_size: u32) -> (valid: bool)
    ensures
        valid == valid_sizes(core_size, max_size),
        valid <==> 1 <= max_size && core_size <= max_size,
{
    !(max_size == 0 || max_size < core_size)
}

/// With these counts the core pool is not full.
pub open spec fn core_needed(core_size: u32, counts: (u32, u32)) -> bool {
    counts.0 < core_size
}

/// With these counts there is no idle worker, and room for one more worker.
pub open spec fn extra_needed(max_size: u32, counts: (u32, u32)) -> bool {
    counts.0 < max_size && counts.1 == 0
}

/// Where a task has to go.
pub enum Placement {
    /// To a new worker of the core pool.
    Core,
    /// To a new worker beyond the core pool.
    Extra,
    /// To the channel.
    Channel,
}

/// Where a task has to go that is submitted while the counts are these: if the core pool is not
/// full, always to a new core worker; else to a new worker if there is room for one and nobody
/// is idle; else to the channel.
pub open spec fn placement(core_size: u32, max_size: u32, counts: (u32, u32)) -> Placement {
    if core_needed(core_size, counts) {
        Placement::Core
    } else if extra_needed(max_size, counts) {
        Placement::Extra
    } else {
        Placement::Channel
    }
}

/// With these counts every worker is idle.
pub open spec fn all_idle(counts: (u32, u32)) -> bool {
    counts.0 == counts.1
}

/// What becomes of a submitted task.
pub enum Dispatch {
    /// It is the first task of a new worker, whose thread has to be started.
    Start { worker: Worker, task: Job },
    /// It waits in the channel for a worker.
    Queued,
}

/// The task could not be sent to the workers, and comes back.
pub struct SendError(pub Job);

/// What a thread that joins a pool has to do.
pub enum JoinAction {
    /// Return at once: there is nothing to wait for.
    Return,
    /// Wait to be notified, for as long as it takes or for no longer than the time-out, and then
    /// return. To wake up without having been notified is no reason to return.
    Wait(Option<Duration>),
}

/// What a thread that joins a pool has to do, by the counts and the state of the channel.
pub open spec fn join_action(
    counts: (u32, u32),
    channel_empty: bool,
    time_out: Option<Duration>,
) -> JoinAction {
    if all_idle(counts) && channel_empty {
        JoinAction::Return
    } else {
        JoinAction::Wait(time_out)
    }
}

/// Self growing / shrinking `ThreadPool` based on crossbeam's multi-producer multi-consumer
/// channels that enables awaiting the result of a task.
///
/// This `ThreadPool` has two different pool sizes; a core pool size filled with
/// threads that live for as long as the channel and a max pool size which describes
/// the maximum amount of worker threads that may live at the same time.
/// Those additional non-core threads have a specific keep_alive time described when
/// creating the `ThreadPool` that defines how long such threads may be idle for
/// without receiving any work before giving up and terminating their work loop.
///
/// When creating a new worker this `ThreadPool` always re-checks whether the new worker
/// is still required before it is started and passed the submitted task, in case
/// an idle thread has opened up in the meantime or another thread has already created
/// the worker. If the re-check failed for a core worker the pool will try creating a
/// new non-core worker before deciding no new worker is needed.
///
/// The pool starts no thread and blocks no thread by itself: it hands out the workers that
/// have to be started, and says what a thread that joins it has to wait for.
pub struct ThreadPool {
    core_size: u32,
    max_size: u32,
    keep_alive: Duration,
    channel_data: Arc<ChannelData>,
    worker_data: Arc<WorkerData>,
}

impl ThreadPool {
    #[verifier::type_invariant]
    spec fn sizes_valid(&self) -> bool {
        valid_sizes(self.core_size, self.max_size)
    }

    /// The number of workers that stay for as long as the channel.
    pub closed spec fn core_bound(&self) -> u32 {
        self.core_size
    }

    /// The number of workers that there may be at the same time.
    pub closed spec fn max_bound(&self) -> u32 {
        self.max_size
    }

    /// For how long a worker beyond the core pool waits for work.
    pub closed spec fn limit(&self) -> Duration {
        self.keep_alive
    }

    /// The data that it shares with its workers.
    pub closed spec fn data(&self) -> WorkerData {
        *self.worker_data
    }

    /// The end of its channel that its workers take jobs from.
    pub closed spec fn receiver(&self) -> JobReceiver {
        self.channel_data.receiver()
    }

    /// A pool with these parameters and no workers yet.
    pub open spec fn fresh(
        &self,
        name: Seq<char>,
        core_size: u32,
        max_size: u32,
        keep_alive: Duration,
    ) -> bool {
        &&& self.core_bound() == core_size
        &&& self.max_bound() == max_size
        &&& self.limit() == keep_alive
        &&& self.data().name() == name
        &&& self.data().counts()@.len() > 0
        &&& self.data().counts()@[0] == (0u32, 0u32)
        &&& self.data().numbering()@.len() > 0
        &&& self.data().numbering()@[0] == 1
    }

    /// With these counts a core worker, or one beyond the core pool, is needed.
    pub open spec fn needs(&self, is_core: bool, counts: (u32, u32)) -> bool {
        if is_core {
            core_needed(self.core_bound(), counts)
        } else {
            extra_needed(self.max_bound(), counts)
        }
    }

    /// The worker is one of this pool, in the core pool or beyond it.
    pub open spec fn employs(&self, worker: &Worker, is_core: bool) -> bool {
        &&& worker.data() == self.data()
        &&& worker.receiver().same_channel(&self.receiver())
        &&& worker.limit() == (if is_core {
            None
        } else {
            Some(self.limit())
        })
    }

    /// A worker was counted in while the counts were `old`, and by these it was still needed.
    pub open spec fn hired(&self, is_core: bool, old: (u32, u32)) -> bool {
        self.data().counts().moved(old, 1, 0) && self.needs(is_core, old)
    }

    /// A worker was counted in while the counts were `old`. By these it was no longer needed, so
    /// it was counted out again.
    pub open spec fn turned_down(&self, is_core: bool, old: (u32, u32)) -> bool {
        &&& self.data().counts().moved(old, 1, 0)
        &&& !self.needs(is_core, old)
        &&& self.counted_out(is_core, old)
        &&& exists|back: (u32, u32)| #[trigger] self.data().counts().moved(back, -1, 0)
    }

    /// The worker that was counted in while the counts were `old` has been turned down, and what
    /// follows has been decided by these counts.
    pub closed spec fn counted_out(&self, is_core: bool, old: (u32, u32)) -> bool {
        exists|candidate: Candidate, declined: (Job, bool)|
            {
                &&& candidate.is_core() == is_core
                &&& candidate.found() == old
                &&& #[trigger] call_ensures(ThreadPool::turn_down, (self, candidate), declined)
            }
    }

    /// The attempt to create a worker has come to this: the worker that the task goes to, or
    /// the task. Where the attempt to create a core worker failed at counts by which a worker
    /// beyond the core pool was needed, such a worker was tried as well.
    pub open spec fn creation(
        &self,
        is_core: bool,
        task: Job,
        created: Result<(Worker, Job), Job>,
    ) -> bool {
        match created {
            Ok((worker, first)) => first == task && exists|as_core: bool, old: (u32, u32)|
                {
                    &&& #[trigger] self.hired(as_core, old)
                    &&& self.employs(&worker, as_core)
                    &&& as_core != is_core ==> is_core && self.passed_on()
                },
            Err(back) => back == task && if is_core {
                self.passed_over() || (self.passed_on() && exists|old: (u32, u32)| #[trigger]
                    self.turned_down(false, old))
            } else {
                exists|old: (u32, u32)| #[trigger] self.turned_down(false, old)
            },
        }
    }

    /// A core worker was turned down at counts by which one beyond the core pool was needed.
    pub open spec fn passed_on(&self) -> bool {
        exists|old: (u32, u32)| #[trigger]
            self.turned_down(true, old) && extra_needed(self.max_bound(), old)
    }

    /// A core worker was turned down at counts by which no other worker was needed either.
    pub open spec fn passed_over(&self) -> bool {
        exists|old: (u32, u32)| #[trigger]
            self.turned_down(true, old) && !extra_needed(self.max_bound(), old)
    }

    /// The task has got to a worker that was tried to be created for it, or else to the channel.
    pub open spec fn created_or_queued(&self, is_core: bool, task: Job, dispatch: Dispatch) -> bool {
        match dispatch {
            Dispatch::Start { worker, task: first } => self.creation(
                is_core,
                task,
                Ok((worker, first)),
            ),
            Dispatch::Queued => self.creation(is_core, task, Err(task))
                && self.receiver().carried().contains(task),
        }
    }

    /// The task was submitted while the counts were `seen`: a worker was tried to be created for
    /// it if by these a worker was needed, a core worker in the first place. Otherwise it has
    /// gone to the channel.
    pub open spec fn dispatched(&self, seen: (u32, u32), task: Job, dispatch: Dispatch) -> bool {
        match placement(self.core_bound(), self.max_bound(), seen) {
            Placement::Core => self.created_or_queued(true, task, dispatch),
            Placement::Extra => self.created_or_queued(false, task, dispatch),
            Placement::Channel => dispatch == Dispatch::Queued
                && self.receiver().carried().contains(task),
        }
    }

    /// The task has been submitted to this pool.
    pub open spec fn submitted(&self, task: Job, dispatch: Dispatch) -> bool {
        exists|seen: (u32, u32)| #[trigger]
            self.data().counts().held(seen) && self.looked(task, seen) && self.dispatched(
                seen,
                task,
                dispatch,
            )
    }

    /// The counts `seen` were found on behalf of the task.
    pub closed spec fn looked(&self, task: Job, seen: (u32, u32)) -> bool {
        call_ensures(ThreadPool::look, (self, &task), seen)
    }

    /// Construct a new `ThreadPool` with the specified core pool size, max pool size
    /// and keep_alive time for non-core threads. This `ThreadPool` will receive a default name
    /// in the following format: "rusty_pool_" + pool number, where the pool number is the next
    /// one of `pool_counter`.
    ///
    /// `core_size` specifies the amount of threads to keep alive for as long as
    /// the `ThreadPool` exists and its channel remains connected.
    ///
    /// `max_size` specifies the maximum number of worker threads that may exist
    /// at the same time.
    ///
    /// `keep_alive` specifies the duration for which to keep non-core pool
    /// worker threads alive while they do not receive any work.
    pub fn new(
        pool_counter: &Numbering,
        core_size: u32,
        max_size: u32,
        keep_alive: Duration,
    ) -> (pool: ThreadPool)
        requires
            valid_sizes(core_size, max_size),
        ensures
            exists|number: usize| #[trigger]
                pool_counter.handed_out(number) && pool.fresh(
                    crate::naming::pool_name(number as nat),
                    core_size,
                    max_size,
                    keep_alive,
                ),
            pool.core_bound() == core_size,
            pool.max_bound() == max_size,
            pool.limit() == keep_alive,
    {
        let number: usize = pool_counter.take();
        ThreadPool::new_named(default_pool_name(number), core_size, max_size, keep_alive)
    }

    /// Construct a new `ThreadPool` with the specified name, core pool size, max pool size
    /// and keep_alive time for non-core threads.
    ///
    /// `name` the name of the `ThreadPool` that will be used as prefix for each
    /// thread.
    ///
    /// `core_size` specifies the amount of threads to keep alive for as long as
    /// the `ThreadPool` exists and its channel remains connected.
    ///
    /// `max_size` specifies the maximum number of worker threads that may exist
    /// at the same time.
    ///
    /// `keep_alive` specifies the duration for which to keep non-core pool
    /// worker threads alive while they do not receive any work.
    pub fn new_named(
        name: String,
        core_size: u32,
        max_size: u32,
        keep_alive: Duration,
    ) -> (pool: ThreadPool)
        requires
            valid_sizes(core_size, max_size),
        ensures
            pool.fresh(name@, core_size, max_size, keep_alive),
            pool.core_bound() == core_size,
            pool.max_bound() == max_size,
            pool.limit() == keep_alive,
            pool.data().name() == name@,
            pool.data().counts()@[0] == (0u32, 0u32),
    {
        ThreadPool {
            core_size,
            max_size,
            keep_alive,
            channel_data: Arc::new(ChannelData::new()),
            worker_data: Arc::new(WorkerData::new(name)),
        }
    }

    /// Get the number of live workers, includes all workers waiting for work or executing tasks.
    ///
    /// This counter is incremented when creating a new worker even before re-checking whether
    /// the worker is still needed. Once the worker count is updated the previous value returned
    /// by the atomic operation is analysed to check whether it still represents a value that
    /// would require a new worker. If that is not the case this counter will be decremented
    /// and the worker will never spawn a thread and start its working loop. Else this counter
    /// is decremented when a worker reaches the end of its working loop, which for non-core
    /// threads might happen if it does not receive any work during its keep alive time,
    /// for core threads this only happens once the channel is disconnected.
    pub fn get_current_worker_count(&self) -> (total: u32)
        ensures
            exists|idle: u32| #[trigger] self.data().counts().held((total, idle)),
        opens_invariants none
    {
        let counts: &WorkerCountData = self.worker_data.worker_count_data();
        let total: u32 = counts.get_total_worker_count();
        proof {
            let idle = choose|idle: u32| #[trigger] counts.held((total, idle));
            assert(self.data().counts().held((total, idle)));
        }
        total
    }

    /// Get the number of workers currently waiting for work. Those threads are currently
    /// polling from the crossbeam receiver. Core threads wait indefinitely and might remain
    /// in this state until the `ThreadPool` is dropped. The remaining threads give up after
    /// waiting for the specified keep_alive time.
    pub fn get_idle_worker_count(&self) -> (idle: u32)
        ensures
            exists|total: u32| #[trigger] self.data().counts().held((total, idle)),
        opens_invariants none
    {
        let counts: &WorkerCountData = self.worker_data.worker_count_data();
        let idle: u32 = counts.get_idle_worker_count();
        proof {
            let total = choose|total: u32| #[trigger] counts.held((total, idle));
            assert(self.data().counts().held((total, idle)));
        }
        idle
    }

    /// Return the name of this pool, used as prefix for each worker thread.
    pub fn get_name(&self) -> (name: &str)
        ensures
            name@ == self.data().name(),
    {
        self.worker_data.pool_name()
    }

    /// The worker counters of this pool.
    pub(crate) fn counters(&self) -> (counters: &WorkerCountData)
        ensures
            *counters == self.data().counts(),
        opens_invariants none
    {
        self.worker_data.worker_count_data()
    }

    /// Whether by the counts `(total, idle)` a core worker is needed: the core pool is not full.
    pub fn recheck_core(&self, old_val: (u32, u32)) -> (needed: bool)
        ensures
            needed == core_needed(self.core_bound(), old_val),
            needed <==> old_val.0 < self.core_bound(),
        opens_invariants none
    {
        old_val.0 < self.core_size
    }

    /// Whether by the counts `(total, idle)` a worker beyond the core pool is needed: there is
    /// room for one, and nobody is idle.
    pub fn recheck_non_core(&self, old_val: (u32, u32)) -> (needed: bool)
        ensures
            needed == extra_needed(self.max_bound(), old_val),
            needed <==> old_val.1 == 0 && old_val.0 < self.max_bound(),
        opens_invariants none
    {
        let (old_worker_total, old_worker_idle): (u32, u32) = old_val;
        old_worker_total < self.max_size && old_worker_idle == 0
    }

    /// Where a task has to go that is submitted while the counts `(total, idle)` are these.
    pub fn place(&self, counts: (u32, u32)) -> (place: Placement)
        ensures
            place == placement(self.core_bound(), self.max_bound(), counts),
            place is Core <==> counts.0 < self.core_bound(),
            place is Extra <==> self.core_bound() <= counts.0 < self.max_bound() && counts.1 == 0,
        opens_invariants none
    {
        if self.recheck_core(counts) {
            Placement::Core
        } else if self.recheck_non_core(counts) {
            Placement::Extra
        } else {
            Placement::Channel
        }
    }

    /// Looks at the counters on behalf of a task that is at hand: while a worker is counted in for
    /// a task, the task is with that worker.
    fn look(&self, task: &Job) -> (seen: (u32, u32))
        ensures
            self.data().counts().held(seen),
        opens_invariants none
    {
        self.counters().get_both()
    }

    /// Counts a worker out again that is not needed by the counts from just before it was counted
    /// in. Gives its task back, and says whether to try creating a non-core worker instead.
    fn turn_down(&self, candidate: Candidate) -> (declined: (Job, bool))
        ensures
            declined == (
                candidate.task(),
                candidate.is_core() && extra_needed(self.max_bound(), candidate.found()),
            ),
            exists|back: (u32, u32)| #[trigger] self.data().counts().moved(back, -1, 0),
        opens_invariants [crate::counts::step(-1, 0)]
    {
        let (is_core, old_val): (bool, (u32, u32)) = candidate.claim();
        let try_non_core: bool = is_core && self.recheck_non_core(old_val);
        (candidate.turn_down(self), try_non_core)
    }

    /// Create a new worker then check whether it is still needed. If this applies the worker gets
    /// the submitted task directly as its initial task. Else this method returns the task, which
    /// will be given to the main channel instead.
    fn create_worker(&self, is_core: bool, task: Job) -> (created: Result<(Worker, Job), Job>)
        ensures
            self.creation(is_core, task, created),
        decreases is_core as int,
        opens_invariants [crate::counts::step(1, 0), crate::counts::step(-1, 0)]
    {
        let worker: Worker = Worker::new(
            self.channel_data.borrow_receiver().another(),
            share(&self.worker_data),
            !is_core,
            if is_core {
                None
            } else {
                Some(self.keep_alive)
            },
        );

        let candidate: Candidate = Candidate::count_in(self, is_core, task);
        let old_val: (u32, u32) = candidate.claim().1;
        let still_needed: bool = if is_core {
            self.recheck_core(old_val)
        } else {
            self.recheck_non_core(old_val)
        };
        if still_needed {
            // new worker is still needed after checking again, give it the task
            assert(self.hired(is_core, old_val));
            Ok((worker, candidate.hire(self)))
        } else {
            // either there is an idle thread now (and is_core is false) or the worker has already
            // been created by another thread
            let ghost turned_down = candidate;
            let declined: (Job, bool) = self.turn_down(candidate);
            assert(call_ensures(ThreadPool::turn_down, (self, turned_down), declined));
            assert(self.turned_down(is_core, old_val));
            let (task, try_non_core): (Job, bool) = declined;
            if try_non_core {
                // if trying to create core thread failed try creating non-core thread instead
                self.create_worker(false, task)
            } else {
                Err(task)
            }
        }
    }

    /// Sends the task to the main channel.
    fn send_task_to_channel(&self, task: Job) -> (sent: Result<Dispatch, SendError>)
        ensures
            sent == Ok::<Dispatch, SendError>(Dispatch::Queued),
            self.receiver().carried().contains(task),
        opens_invariants [crate::channel::sending()]
    {
        match self.channel_data.send(task) {
            Ok(()) => Ok(Dispatch::Queued),
            Err(task) => Err(SendError(task)),
        }
    }

    /// Finds out where a task goes: to a new worker if there are fewer workers than the core
    /// pool has room for, or if nobody is idle and there is room for another worker. Otherwise,
    /// or if the worker turns out not to be needed any more, the task goes to the channel.
    ///
    /// All that it may do to the counters is to count a worker in that is needed, and out again
    /// if it turns out not to be.
    fn try_execute_task(&self, task: Job) -> (sent: Result<Dispatch, SendError>)
        ensures
            sent matches Ok(dispatch) && self.submitted(task, dispatch),
        opens_invariants [crate::counts::step(1, 0), crate::counts::step(-1, 0), crate::channel::sending()]
    {
        let curr: (u32, u32) = self.look(&task);
        assert(self.data().counts().held(curr) && self.looked(task, curr));
        let created: Result<(Worker, Job), Job> = match self.place(curr) {
            Placement::Core => self.create_worker(true, task),
            Placement::Extra => self.create_worker(false, task),
            Placement::Channel => Err(task),
        };
        match created {
            Ok((worker, task)) => Ok(Dispatch::Start { worker, task }),
            Err(task) => self.send_task_to_channel(task),
        }
    }

    /// Send a new task to the worker threads. This function is responsible for sending the message
    /// through the channel and creating new workers if needed. If the current worker count is
    /// lower than the core pool size this function will always create a new worker. If the
    /// current worker count is equal to or greater than the core pool size this function only
    /// creates a new worker if the worker count is below the max pool size and there are no idle
    /// threads.
    ///
    /// After constructing the worker but before handing it out this function checks again whether
    /// the new worker is still needed by analysing the old value returned by atomically
    /// incrementing the worker counter and checking if the worker is still needed or if another
    /// thread has already created it, for non-core threads this additionally checks whether there
    /// are idle threads now. When the recheck condition still applies the new worker will receive
    /// the task directly as first task. If trying to create a new core worker failed the next
    /// step is to try creating a non-core worker instead. When all checks still fail the task
    /// will simply be sent to the main channel instead.
    ///
    /// The task always gets through: the pool keeps its channel connected for as long as it is
    /// there itself, so `try_execute` does not return an error.
    ///
    /// A closure that may be called may be submitted: see `task::law_closure_is_task`.
    pub fn execute<T: Task<()> + 'static>(&self, task: T) -> (dispatch: Dispatch)
        requires
            task.runnable(),
        ensures
            self.executes(task, dispatch),
    {
        self.try_execute(task).ok().unwrap()
    }

    /// Send a new task to the worker threads, as `execute` does.
    pub fn try_execute<T: Task<()> + 'static>(&self, task: T) -> (sent: Result<Dispatch, SendError>)
        requires
            task.runnable(),
        ensures
            sent matches Ok(dispatch) && self.executes(task, dispatch),
    {
        let is_fn: bool = task.is_fn();
        let job: Job = if is_fn {
            task.as_fn().unwrap()
        } else {
            Execution::job(task)
        };
        self.try_execute_task(job)
    }

    /// The task has been submitted to this pool, as the job that it is executed by.
    pub open spec fn executes<T: Task<()>>(&self, task: T, dispatch: Dispatch) -> bool {
        exists|job: Job| #[trigger] self.submitted(job, dispatch) && crate::task::job_of(task, job)
    }

    /// Send a new task to the worker threads and return a `JoinHandle` that may be used to await
    /// the result. The task gets to a worker in the same way as with `execute`.
    pub fn evaluate<R: Send + Sync + 'static, T: Task<R> + 'static>(&self, task: T) -> (sent: (
        Dispatch,
        JoinHandle<R>,
    ))
        requires
            task.runnable(),
        ensures
            self.evaluates(task, sent.0, sent.1),
    {
        self.try_evaluate(task).ok().unwrap()
    }

    /// Send a new task to the worker threads and return a `JoinHandle` that may be used to await
    /// the result, as `evaluate` does.
    pub fn try_evaluate<R: Send + Sync + 'static, T: Task<R> + 'static>(&self, task: T) -> (sent:
        Result<(Dispatch, JoinHandle<R>), SendError>)
        requires
            task.runnable(),
        ensures
            sent matches Ok((dispatch, handle)) && self.evaluates(task, dispatch, handle),
    {
        let (job, join_handle): (Job, JoinHandle<R>) = Evaluation::job(task);
        match self.try_execute_task(job) {
            Ok(dispatch) => Ok((dispatch, join_handle)),
            Err(error) => Err(error),
        }
    }

    /// The task has been submitted to this pool, as a job that sends the result to the handle.
    pub open spec fn evaluates<R: Send + Sync, T: Task<R>>(
        &self,
        task: T,
        dispatch: Dispatch,
        handle: JoinHandle<R>,
    ) -> bool {
        exists|job: Job| #[trigger]
            self.submitted(job, dispatch) && crate::task::evaluation_of(task, job, handle)
    }

    /// Says what the current thread has to do to join this pool: to block until there aren't any
    /// non-idle threads anymore, except if all threads are idle and the channel is empty at the
    /// time of calling this function, in which case it may return.
    ///
    /// A thread asks while it holds the lock under which the workers notify, and gives the lock up
    /// only by waiting. Then no notification gets lost. Once it is notified, it returns.
    ///
    /// A thread that waits is notified by workers when they complete a job and notice
    /// that the channel is currently empty and it was the last thread to finish the current
    /// generation of work (i.e. when incrementing the idle worker counter brings the value
    /// up to the total worker counter, meaning it's the last thread to become idle).
    pub fn join(&self) -> (action: JoinAction)
        ensures
            joined(self.data(), self.receiver(), None, action),
            action == JoinAction::Return || action == JoinAction::Wait(None),
        opens_invariants none
    {
        self.inner_join(None)
    }

    /// Like `join`, but the thread waits for no longer than the specified time_out Duration.
    pub fn join_timeout(&self, time_out: Duration) -> (action: JoinAction)
        ensures
            joined(self.data(), self.receiver(), Some(time_out), action),
            action == JoinAction::Return || action == JoinAction::Wait(Some(time_out)),
        opens_invariants none
    {
        self.inner_join(Some(time_out))
    }

    /// Destroy this `ThreadPool` by claiming ownership and dropping the value,
    /// causing the `Sender` to drop thus disconnecting the channel.
    /// Threads in this pool that are currently executing a task will finish what
    /// they're doing until they check the channel, discovering that it has been
    /// disconnected from the sender and thus terminate their work loop.
    ///
    /// If other clones of this `ThreadPool` exist the sender will remain intact
    /// and tasks submitted to those clones will succeed.
    pub fn shutdown(self)
        opens_invariants none
    {
    }

    /// Destroy this `ThreadPool` like `shutdown`, and then say what the current thread has to
    /// do to join all workers that are left, as `join` does. If other live clones of this
    /// `ThreadPool` exist, tasks submitted to one of the clones will be joined as well.
    ///
    /// This asks right after the pool is dropped. To ask at a time of one's own, under the lock
    /// that `join` speaks of, use `into_join_point`.
    pub fn shutdown_join(self) -> (action: JoinAction)
        ensures
            self.left_to_join(None, action),
            action == JoinAction::Return || action == JoinAction::Wait(None),
        opens_invariants none
    {
        self.inner_shutdown_join(None)
    }

    /// Like `shutdown_join`, but the thread waits for no longer than the specified timeout. To ask
    /// under the lock, use `into_join_point` here too.
    pub fn shutdown_join_timeout(self, timeout: Duration) -> (action: JoinAction)
        ensures
            self.left_to_join(Some(timeout), action),
            action == JoinAction::Return || action == JoinAction::Wait(Some(timeout)),
        opens_invariants none
    {
        self.inner_shutdown_join(Some(timeout))
    }

    fn inner_join(&self, time_out: Option<Duration>) -> (action: JoinAction)
        ensures
            joined(self.data(), self.receiver(), time_out, action),
            action == JoinAction::Return || action == JoinAction::Wait(time_out),
        opens_invariants none
    {
        do_join(&self.worker_data, self.channel_data.borrow_receiver(), time_out)
    }

    /// The action is what a thread has to do that joins the workers of this pool through a taking
    /// end of its channel that outlives the pool.
    pub open spec fn left_to_join(&self, timeout: Option<Duration>, action: JoinAction) -> bool {
        exists|receiver: JobReceiver|
            receiver.same_channel(&self.receiver()) && #[trigger] joined(
                self.data(),
                receiver,
                timeout,
                action,
            )
    }

    fn inner_shutdown_join(self, timeout: Option<Duration>) -> (action: JoinAction)
        ensures
            self.left_to_join(timeout, action),
            action == JoinAction::Return || action == JoinAction::Wait(timeout),
        opens_invariants none
    {
        let point: JoinPoint = self.into_join_point();
        let action: JoinAction = point.ask(timeout);
        assert(joined(self.data(), point.receiver(), timeout, action));
        action
    }

    /// Destroy this `ThreadPool` like `shutdown`, and keep what it takes to join the workers that
    /// are left.
    pub fn into_join_point(self) -> (point: JoinPoint)
        ensures
            point.data() == self.data(),
            point.receiver().same_channel(&self.receiver()),
        opens_invariants none
    {
        let worker_data: Arc<WorkerData> = share(&self.worker_data);
        let receiver: JobReceiver = self.channel_data.borrow_receiver().another();
        self.shutdown();
        JoinPoint { worker_data, receiver }
    }
}

/// What is left of a pool that is shut down, for a thread that joins its workers.
pub struct JoinPoint {
    worker_data: Arc<WorkerData>,
    receiver: JobReceiver,
}

impl JoinPoint {
    /// The data that the workers share.
    pub closed spec fn data(&self) -> WorkerData {
        *self.worker_data
    }

    /// A taking end of the channel that the workers take jobs from.
    pub closed spec fn receiver(&self) -> JobReceiver {
        self.receiver
    }

    /// Says what the current thread has to do to join the workers, as `ThreadPool::join` does.
    pub fn ask(&self, time_out: Option<Duration>) -> (action: JoinAction)
        ensures
            joined(self.data(), self.receiver(), time_out, action),
            action == JoinAction::Return || action == JoinAction::Wait(time_out),
        opens_invariants none
    {
        do_join(&self.worker_data, &self.receiver, time_out)
    }
}

/// A task that is submitted goes one way: it is handed out with the one worker that was created
/// for it, as its first task, or it is taken in by the channel.
pub proof fn law_submission_goes_one_way(pool: ThreadPool, task: Job, dispatch: Dispatch)
    requires
        pool.submitted(task, dispatch),
    ensures
        match dispatch {
            Dispatch::Start { worker, task: first } => first == task && exists|
                as_core: bool,
                old: (u32, u32),
            | #[trigger] pool.hired(as_core, old) && pool.employs(&worker, as_core),
            Dispatch::Queued => pool.receiver().carried().contains(task),
        },
{
}

/// The action is what a joining thread has to do by counts that the pool has at some time and,
/// if all workers are idle then, by what its channel is found to be.
pub open spec fn joined(
    data: WorkerData,
    receiver: JobReceiver,
    time_out: Option<Duration>,
    action: JoinAction,
) -> bool {
    exists|counts: (u32, u32), empty: bool|
        {
            &&& data.counts().held(counts)
            &&& all_idle(counts) ==> receiver.emptiness().contains(empty)
            &&& action == #[trigger] join_action(counts, empty, time_out)
        }
}

/// What a thread that joins a pool has to do, by the counts `(total, idle)` and the state of the
/// channel: if no thread is currently doing any work and there is no work to be done, return.
pub fn decide_join(
    counts: (u32, u32),
    channel_empty: bool,
    time_out: Option<Duration>,
) -> (action: JoinAction)
    ensures
        action == join_action(counts, channel_empty, time_out),
        counts.0 == counts.1 && channel_empty ==> action == JoinAction::Return,
        counts.0 != counts.1 || !channel_empty ==> action == JoinAction::Wait(time_out),
    opens_invariants none
{
    if counts.0 == counts.1 && channel_empty {
        JoinAction::Return
    } else {
        JoinAction::Wait(time_out)
    }
}

/// What a thread that joins the workers has to do.
fn do_join(
    current_worker_data: &Arc<WorkerData>,
    receiver: &JobReceiver,
    time_out: Option<Duration>,
) -> (action: JoinAction)
    ensures
        joined(**current_worker_data, *receiver, time_out, action),
        action == JoinAction::Return || action == JoinAction::Wait(time_out),
    opens_invariants none
{
    let counts: (u32, u32) = current_worker_data.worker_count_data().get_both();
    let empty: bool = counts.0 == counts.1 && receiver.is_empty();
    assert((**current_worker_data).counts().held(counts));
    decide_join(counts, empty, time_out)
}

/// Where a task goes, in numbers: with fewer workers than the core size, to a new core worker,
/// idle workers or not; with at least as many, to another new worker only if nobody is idle and
/// there are fewer workers than the max size; in all other cases to the channel.
pub proof fn law_placement_in_numbers(core_size: u32, max_size: u32, total: u32, idle: u32)
    ensures
        placement(core_size, max_size, (total, idle)) == Placement::Core <==> total < core_size,
        placement(core_size, max_size, (total, idle)) == Placement::Extra <==> core_size <= total
            && total < max_size && idle == 0,
        total >= core_size && idle > 0 ==> placement(core_size, max_size, (total, idle))
            == Placement::Channel,
        total >= core_size && total >= max_size ==> placement(core_size, max_size, (total, idle))
            == Placement::Channel,
{
}

/// What comes of a submission while the counts stay within bounds, whatever they are in detail.
/// As long as the core pool is full and somebody is idle, or the pool is full, the task is
/// queued, and no worker is created. As long as the core pool is not full, a worker is created
/// that waits for work for as long as the channel is there. As long as the core pool is full,
/// the pool is not, and nobody is idle, a worker is created that gives up after the keep_alive
/// time.
pub proof fn law_submission_by_counts(pool: ThreadPool, task: Job, dispatch: Dispatch)
    requires
        pool.submitted(task, dispatch),
        pool.max_bound() >= pool.core_bound(),
    ensures
        (forall|counts: (u32, u32)| #[trigger]
            pool.data().counts().held(counts) ==> counts.0 >= pool.core_bound() && counts.1 > 0)
            ==> dispatch == Dispatch::Queued,
        (forall|counts: (u32, u32)| #[trigger]
            pool.data().counts().held(counts) ==> counts.0 >= pool.max_bound()) ==> dispatch
            == Dispatch::Queued,
        (forall|counts: (u32, u32)| #[trigger]
            pool.data().counts().held(counts) ==> counts.0 < pool.core_bound()) ==> (
        dispatch matches Dispatch::Start { worker, task: first } && first == task
            && worker.limit() is None),
        (forall|counts: (u32, u32)| #[trigger]
            pool.data().counts().held(counts) ==> pool.core_bound() <= counts.0 < pool.max_bound()
                && counts.1 == 0) ==> (dispatch matches Dispatch::Start { worker, task: first }
            && first == task && worker.limit() == Some(pool.limit())),
        dispatch == Dispatch::Queued ==> pool.receiver().carried().contains(task),
{
    let counters = pool.data().counts();
    let seen = choose|seen: (u32, u32)| #[trigger]
        counters.held(seen) && pool.dispatched(seen, task, dispatch);
    assert(counters.held(seen));
    assert forall|is_core: bool, found: (u32, u32)| #[trigger]
        pool.turned_down(is_core, found) implies counters.held(found) by {
        counters.lemma_moved_from_held(found, 1, 0);
    }
    assert forall|is_core: bool, found: (u32, u32)| #[trigger]
        pool.hired(is_core, found) implies counters.held(found) by {
        counters.lemma_moved_from_held(found, 1, 0);
    }
}

/// A worker that is created for a task either stays for as long as the channel, and then there
/// were fewer workers than the core size when it was counted in; or it gives up after the
/// keep_alive time of the pool, and then nobody was idle and there were fewer workers than the
/// max size.
pub proof fn law_created_workers_wait_by_kind(
    pool: ThreadPool,
    task: Job,
    worker: Worker,
    first: Job,
)
    requires
        pool.submitted(task, Dispatch::Start { worker, task: first }),
    ensures
        first == task,
        exists|total: u32, idle: u32| #[trigger]
            pool.data().counts().moved((total, idle), 1, 0) && match worker.limit() {
                None => total < pool.core_bound(),
                Some(limit) => limit == pool.limit() && idle == 0 && total < pool.max_bound(),
            },
{
    let dispatch = Dispatch::Start { worker, task: first };
    let seen = choose|seen: (u32, u32)| #[trigger]
        pool.data().counts().held(seen) && pool.dispatched(seen, task, dispatch);
    let (as_core, found) = choose|as_core: bool, found: (u32, u32)|
        #[trigger] pool.hired(as_core, found) && pool.employs(&worker, as_core);
    assert(pool.data().counts().moved((found.0, found.1), 1, 0));
}

/// Whatever the sizes of the pool, a worker of the core pool waits without a limit, and one
/// beyond it no longer than the keep_alive time of the pool.
pub proof fn law_only_workers_beyond_the_core_have_a_limit(pool: ThreadPool, worker: Worker)
    ensures
        pool.employs(&worker, true) ==> worker.limit() is None,
        pool.employs(&worker, false) ==> worker.limit() == Some(pool.limit()),
{
}

/// A join that does not return at once waits with the very time-out that it was called with, and
/// without one if it was called without.
pub proof fn law_join_waits_as_told(
    data: WorkerData,
    receiver: JobReceiver,
    time_out: Option<Duration>,
    action: JoinAction,
)
    requires
        joined(data, receiver, time_out, action),
    ensures
        action == JoinAction::Return || action == JoinAction::Wait(time_out),
{
}

/// A join returns at once only if the total has been equal to the idle count and the channel has
/// been empty. As long as the two counts differ, or the channel is not empty, it waits; as long
/// as they are equal and the channel is empty, it returns.
pub proof fn law_join_goes_by_the_counts(
    data: WorkerData,
    receiver: JobReceiver,
    time_out: Option<Duration>,
    action: JoinAction,
)
    requires
        joined(data, receiver, time_out, action),
    ensures
        action == JoinAction::Return ==> receiver.emptiness().contains(true) && exists|n: u32|
            #[trigger] data.counts().held((n, n)),
        (forall|counts: (u32, u32)| #[trigger] data.counts().held(counts) ==> counts.0 != counts.1)
            ==> action == JoinAction::Wait(time_out),
        !receiver.emptiness().contains(true) ==> action == JoinAction::Wait(time_out),
        (forall|counts: (u32, u32)| #[trigger] data.counts().held(counts) ==> counts.0 == counts.1)
            && !receiver.emptiness().contains(false) ==> action == JoinAction::Return,
{
    let (counts, empty) = choose|counts: (u32, u32), empty: bool|
        {
            &&& data.counts().held(counts)
            &&& all_idle(counts) ==> receiver.emptiness().contains(empty)
            &&& action == #[trigger] join_action(counts, empty, time_out)
        };
    assert(data.counts().held(counts));
    if action == JoinAction::Return {
        assert(data.counts().held((counts.0, counts.0)));
    }
}

/// A join after a shutdown goes by the counts and the channel of the pool that was shut down, and
/// waits as told, like a join before.
pub proof fn law_join_after_shutdown(
    pool: ThreadPool,
    timeout: Option<Duration>,
    action: JoinAction,
)
    requires
        pool.left_to_join(timeout, action),
    ensures
        action == JoinAction::Return || action == JoinAction::Wait(timeout),
        action == JoinAction::Return ==> pool.receiver().emptiness().contains(true) && exists|
            n: u32,
        | #[trigger] pool.data().counts().held((n, n)),
        (forall|counts: (u32, u32)| #[trigger]
            pool.data().counts().held(counts) ==> counts.0 != counts.1) ==> action
            == JoinAction::Wait(timeout),
{
    let receiver = choose|receiver: JobReceiver|
        receiver.same_channel(&pool.receiver()) && #[trigger] joined(
            pool.data(),
            receiver,
            timeout,
            action,
        );
    law_join_goes_by_the_counts(pool.data(), receiver, timeout, action);
}

/// Whether two joins with different time-outs wait or return does not depend on the time-outs.
pub proof fn law_joins_agree(
    counts: (u32, u32),
    channel_empty: bool,
    one: Option<Duration>,
    other: Option<Duration>,
)
    ensures
        join_action(counts, channel_empty, one) == JoinAction::Return <==> join_action(
            counts,
            channel_empty,
            other,
        ) == JoinAction::Return,
        join_action(counts, channel_empty, one) != JoinAction::Return ==> join_action(
            counts,
            channel_empty,
            one,
        ) == JoinAction::Wait(one),
        join_action(counts, channel_empty, one) == JoinAction::Return <==> counts.0 == counts.1
            && channel_empty,
{
}

impl Clone for ThreadPool {
    /// A pool with the same channel and the same workers.
    fn clone(&self) -> (clone: ThreadPool)
        ensures
            clone == *self,
    {
        proof {
            use_type_invariant(self);
        }
        ThreadPool {
            core_size: self.core_size,
            max_size: self.max_size,
            keep_alive: self.keep_alive,
            channel_data: share(&self.channel_data),
            worker_data: share(&self.worker_data),
        }
    }
}

} // verus!
