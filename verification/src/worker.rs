//! The workers of a pool: what they share, and what each of them does next.
use crate::channel::JobReceiver;
use crate::counts::WorkerCountData;
use crate::naming::worker_thread_name;
use crate::naming::Numbering;
use crate::task::Job;
use std::sync::Arc;
use std::time::Duration;
use vstd::prelude::*;

verus! {

/// Trusted: `<Arc<T> as Clone>::clone`. The clone points to the same value.
#[verifier::external_body]
pub(crate) fn share<T>(shared: &Arc<T>) -> (clone: Arc<T>)
    ensures
        clone == *shared,
    opens_invariants none
{
    Arc::clone(shared)
}

/// Data shared between the workers of a pool.
pub struct WorkerData {
    pool_name: String,
    worker_count_data: WorkerCountData,
    worker_number: Numbering,
}

impl WorkerData {
    /// The name of the pool.
    pub closed spec fn name(&self) -> Seq<char> {
        self.pool_name@
    }

    /// The worker counters of the pool.
    pub closed spec fn counts(&self) -> WorkerCountData {
        self.worker_count_data
    }

    /// The numbering of the pool's threads.
    pub closed spec fn numbering(&self) -> Numbering {
        self.worker_number
    }

    /// Data of a pool that has no workers yet.
    pub(crate) fn new(pool_name: String) -> (data: WorkerData)
        ensures
            data.name() == pool_name@,
            data.counts()@.len() > 0,
            data.counts()@[0] == (0u32, 0u32),
            data.numbering()@.len() > 0,
            data.numbering()@[0] == 1,
    {
        WorkerData {
            pool_name,
            worker_count_data: WorkerCountData::default(),
            worker_number: Numbering::new(),
        }
    }

    /// The name of the pool.
    pub fn pool_name(&self) -> (name: &str)
        ensures
            name@ == self.name(),
    {
        self.pool_name.as_str()
    }

    /// The worker counters of the pool.
    pub fn worker_count_data(&self) -> (data: &WorkerCountData)
        ensures
            *data == self.counts(),
        opens_invariants none
    {
        &self.worker_count_data
    }

    /// The name for the next thread of this pool.
    pub fn next_thread_name(&self) -> (name: String)
        ensures
            exists|number: usize| #[trigger]
                self.numbering().handed_out(number) && name@ == crate::naming::thread_name(
                    self.name(),
                    number as nat,
                ),
    {
        let number: usize = self.worker_number.take();
        assert(self.numbering().handed_out(number));
        worker_thread_name(self.pool_name.as_str(), number)
    }
}

/// With the counts `old` from just before a worker counted itself as idle, every other worker was
/// idle already.
pub open spec fn last_to_become_idle(old: (u32, u32)) -> bool {
    old.0 == old.1 + 1
}

/// The last worker has become idle, and no job is left in the channel.
pub open spec fn ends_generation(old: (u32, u32), channel_empty: bool) -> bool {
    channel_empty && last_to_become_idle(old)
}

/// Whether a worker that has just counted itself as idle was the last one to become so, i.e.
/// whether joiners have to be notified, by the counts from just before.
pub fn is_last_of_generation(old: (u32, u32), channel_empty: bool) -> (last: bool)
    ensures
        last == ends_generation(old, channel_empty),
        last <==> channel_empty && old.0 - old.1 == 1,
    opens_invariants none
{
    channel_empty && old.0 > 0 && old.0 - 1 == old.1
}

/// What a worker is doing while it may panic, so that a panic can be told apart: it either
/// executes a job or it does not.
pub struct Sentinel {
    is_working: bool,
}

impl Sentinel {
    /// The worker is executing a job.
    pub closed spec fn working(&self) -> bool {
        self.is_working
    }

    /// How a worker whose thread ends moves the counters.
    pub fn counter_move_on_end(&self, panicking: bool) -> (mv: CounterMove)
        ensures
            mv == move_on_end(self.working(), panicking),
        opens_invariants none
    {
        if panicking && self.is_working {
            CounterMove::IdleUp
        } else {
            CounterMove::Stay
        }
    }

    /// For a worker that does not execute a job.
    pub fn new() -> (sentinel: Sentinel)
        ensures
            !sentinel.working(),
    {
        Sentinel { is_working: false }
    }
}

/// What has happened to a worker.
pub enum WorkerEvent {
    /// Its thread has started, with a first job or without.
    Started(Option<Job>),
    /// It has received a job from the channel.
    Received(Job),
    /// It has executed a job.
    Finished,
    /// It has not received a job: the channel is broken because the sender disconnected, or the
    /// time for which it may wait is over.
    NothingReceived,
}

/// What a worker has to do next.
pub enum WorkerAction {
    /// Execute the job.
    Execute(Job),
    /// Notify the joiners if `notify` is set, then wait for a job from the channel, for as long
    /// as it takes or for no longer than the limit.
    Wait { limit: Option<Duration>, notify: bool },
    /// End the thread.
    Exit,
}

/// How a worker moves the counters.
pub enum CounterMove {
    /// It does not.
    Stay,
    /// It is no longer idle.
    IdleDown,
    /// It is idle.
    IdleUp,
    /// It is gone, having been idle.
    BothDown,
}

impl CounterMove {
    /// By how much the total and the idle count move.
    pub open spec fn amounts(&self) -> (int, int) {
        match self {
            CounterMove::Stay => (0, 0),
            CounterMove::IdleDown => (0, -1),
            CounterMove::IdleUp => (0, 1),
            CounterMove::BothDown => (-1, -1),
        }
    }

    /// The namespace of the step that moves the counters like this.
    pub open spec fn step(&self) -> int {
        crate::counts::step(self.amounts().0, self.amounts().1)
    }
}

/// How a worker moves the counters when something has happened to it.
pub open spec fn move_on(event: WorkerEvent) -> CounterMove {
    match event {
        WorkerEvent::Started(_) => CounterMove::Stay,
        WorkerEvent::Received(_) => CounterMove::IdleDown,
        WorkerEvent::Finished => CounterMove::IdleUp,
        WorkerEvent::NothingReceived => CounterMove::BothDown,
    }
}

/// How a worker moves the counters when something has happened to it.
pub fn counter_move_of(event: &WorkerEvent) -> (mv: CounterMove)
    ensures
        mv == move_on(*event),
    opens_invariants none
{
    match event {
        WorkerEvent::Started(_) => CounterMove::Stay,
        // no longer idle, the task is executed next
        WorkerEvent::Received(_) => CounterMove::IdleDown,
        // can already be marked as idle as the thread will continue the work loop
        WorkerEvent::Finished => CounterMove::IdleUp,
        // can decrement both at once as the thread only gets here from an idle state
        WorkerEvent::NothingReceived => CounterMove::BothDown,
    }
}

/// How a worker whose thread ends moves the counters: if it panicked while executing a task, it
/// is marked as idle, since its clone starts the work loop as idle thread.
pub open spec fn move_on_end(working: bool, panicking: bool) -> CounterMove {
    if panicking && working {
        CounterMove::IdleUp
    } else {
        CounterMove::Stay
    }
}

/// What follows a worker's panic: a worker that takes its place, without a first job. Before
/// it starts, the joiners are notified if `notify` is set.
pub struct Recovery {
    pub replacement: Worker,
    pub notify: bool,
}

/// A worker of a pool.
pub struct Worker {
    receiver: JobReceiver,
    worker_data: Arc<WorkerData>,
    can_timeout: bool,
    keep_alive: Option<Duration>,
}

impl Worker {
    #[verifier::type_invariant]
    spec fn limit_known(&self) -> bool {
        self.can_timeout ==> self.keep_alive is Some
    }

    /// The data that it shares with the other workers of its pool.
    pub closed spec fn data(&self) -> WorkerData {
        *self.worker_data
    }

    /// The end of the channel that it takes jobs from.
    pub closed spec fn receiver(&self) -> JobReceiver {
        self.receiver
    }

    /// For how long it waits for a job before it ends, if it does not wait forever.
    pub closed spec fn limit(&self) -> Option<Duration> {
        if self.can_timeout {
            self.keep_alive
        } else {
            None
        }
    }

    /// It has counted itself as idle at a time when the counts were `old`, and has then found
    /// the channel empty or not: `last` says whether it was the last one to become idle.
    pub open spec fn became_idle(&self, last: bool) -> bool {
        exists|old: (u32, u32)| #[trigger]
            self.data().counts().moved(old, 0, 1) && call_ensures(
                Worker::look_for_more,
                (self, old),
                last,
            )
    }

    /// It has moved the counters like this, and `notify` says whether by that it has become the
    /// last one to be idle.
    pub open spec fn has_counted(&self, mv: CounterMove, notify: bool) -> bool {
        match mv {
            CounterMove::Stay => !notify,
            CounterMove::IdleUp => self.became_idle(notify),
            CounterMove::IdleDown => !notify && exists|old: (u32, u32)| #[trigger]
                self.data().counts().moved(old, 0, -1),
            CounterMove::BothDown => !notify && exists|old: (u32, u32)| #[trigger]
                self.data().counts().moved(old, -1, -1),
        }
    }

    pub(crate) fn new(
        receiver: JobReceiver,
        worker_data: Arc<WorkerData>,
        can_timeout: bool,
        keep_alive: Option<Duration>,
    ) -> (worker: Worker)
        requires
            can_timeout ==> keep_alive is Some,
        ensures
            worker.receiver() == receiver,
            worker.data() == *worker_data,
            worker.limit() == (if can_timeout {
                keep_alive
            } else {
                None
            }),
        opens_invariants none
    {
        Worker { receiver, worker_data, can_timeout, keep_alive }
    }

    /// The end of the channel that it takes jobs from.
    pub fn job_receiver(&self) -> (receiver: &JobReceiver)
        ensures
            *receiver == self.receiver(),
    {
        &self.receiver
    }

    /// The name for its thread.
    pub fn thread_name(&self) -> (name: String)
        ensures
            exists|number: usize| #[trigger]
                self.data().numbering().handed_out(number) && name@ == crate::naming::thread_name(
                    self.data().name(),
                    number as nat,
                ),
    {
        let name: String = self.worker_data.next_thread_name();
        proof {
            let data = self.data();
            let number = choose|number: usize| #[trigger]
                data.numbering().handed_out(number) && name@ == crate::naming::thread_name(
                    data.name(),
                    number as nat,
                );
            assert(self.data().numbering().handed_out(number));
        }
        name
    }

    /// For how long it waits for a job before it ends, if it does not wait forever.
    pub fn wait_limit(&self) -> (limit: Option<Duration>)
        ensures
            limit == self.limit(),
        opens_invariants none
    {
        if self.can_timeout {
            self.keep_alive
        } else {
            None
        }
    }

    /// Looks at the channel, and says whether this worker, which has counted itself as idle while
    /// the counts were `old`, was the last one to finish the current generation of work.
    pub fn look_for_more(&self, old: (u32, u32)) -> (last: bool)
        ensures
            exists|empty: bool| #[trigger]
                self.receiver().emptiness().contains(empty) && last == ends_generation(old, empty),
        opens_invariants none
    {
        let empty: bool = self.receiver.is_empty();
        assert(self.receiver().emptiness().contains(empty));
        is_last_of_generation(old, empty)
    }

    /// Counts itself as idle, and says whether the joiners have to be notified: whether it was
    /// the last worker to finish the current generation of work.
    pub fn mark_idle_and_notify_joiners_if_no_work(&self) -> (notify: bool)
        ensures
            self.became_idle(notify),
        opens_invariants [crate::counts::step(0, 1)]
    {
        let old: (u32, u32) = self.worker_data.worker_count_data().idle_up();
        assert(self.data().counts().moved(old, 0, 1));
        self.look_for_more(old)
    }

    /// Moves the counters like this. Says whether the joiners have to be notified.
    fn count(&self, mv: CounterMove) -> (notify: bool)
        ensures
            self.has_counted(mv, notify),
        opens_invariants [mv.step()]
    {
        match mv {
            CounterMove::Stay => false,
            CounterMove::IdleUp => self.mark_idle_and_notify_joiners_if_no_work(),
            CounterMove::IdleDown => {
                let old: (u32, u32) = self.worker_data.worker_count_data().idle_down();
                assert(self.data().counts().moved(old, 0, -1));
                false
            },
            CounterMove::BothDown => {
                let old: (u32, u32) = self.worker_data.worker_count_data().both_down();
                assert(self.data().counts().moved(old, -1, -1));
                false
            },
        }
    }

    /// What this worker does after something has happened to it. The counters are moved along,
    /// as `counter_move_of` says: a worker that receives a job is no longer idle, one that has
    /// executed its job is idle, and one that waits in vain is gone.
    pub fn next_action(&self, sentinel: &mut Sentinel, event: WorkerEvent) -> (action: WorkerAction)
        ensures
            exists|notify: bool| #[trigger]
                self.has_counted(move_on(event), notify) && action == (match event {
                    WorkerEvent::Started(Some(job)) => WorkerAction::Execute(job),
                    WorkerEvent::Started(None) => WorkerAction::Wait {
                        limit: self.limit(),
                        notify: false,
                    },
                    WorkerEvent::Received(job) => WorkerAction::Execute(job),
                    WorkerEvent::Finished => WorkerAction::Wait { limit: self.limit(), notify },
                    WorkerEvent::NothingReceived => WorkerAction::Exit,
                }),
            final(sentinel).working() == (action is Execute),
        opens_invariants [move_on(event).step()]
    {
        // the task is done before the worker is marked as idle
        sentinel.is_working = false;
        let notify: bool = self.count(counter_move_of(&event));
        assert(self.has_counted(move_on(event), notify));
        let action: WorkerAction = match event {
            WorkerEvent::Started(first) => match first {
                Some(job) => WorkerAction::Execute(job),
                None => WorkerAction::Wait { limit: self.wait_limit(), notify: false },
            },
            WorkerEvent::Received(job) => WorkerAction::Execute(job),
            WorkerEvent::Finished => WorkerAction::Wait { limit: self.wait_limit(), notify },
            WorkerEvent::NothingReceived => WorkerAction::Exit,
        };
        if let WorkerAction::Execute(_) = &action {
            sentinel.is_working = true;
        }
        action
    }

    /// What follows when this worker's thread ends, panicking or not.
    ///
    /// If it panicked in the process of executing a submitted job, the same is done as if the
    /// job had completed normally: the worker is marked as idle, as
    /// `Sentinel::counter_move_on_end` says. A panicking worker is always cloned and replaced.
    pub fn recover(&self, sentinel: &Sentinel, panicking: bool) -> (recovery: Option<Recovery>)
        ensures
            recovery is Some <==> panicking,
            exists|notify: bool| #[trigger]
                self.has_counted(move_on_end(sentinel.working(), panicking), notify) && (
                recovery matches Some(recovery) ==> recovery.notify == notify
                    && recovery.replacement.takes_place_of(self)),
        opens_invariants [move_on_end(sentinel.working(), panicking).step()]
    {
        let notify: bool = self.count(sentinel.counter_move_on_end(panicking));
        assert(self.has_counted(move_on_end(sentinel.working(), panicking), notify));
        if panicking {
            Some(Recovery { replacement: self.replacement(), notify })
        } else {
            None
        }
    }

    /// A worker of the same pool that waits for as long.
    fn replacement(&self) -> (other: Worker)
        ensures
            other.takes_place_of(self),
        opens_invariants none
    {
        proof {
            use_type_invariant(self);
        }
        Worker {
            receiver: self.receiver.another(),
            worker_data: share(&self.worker_data),
            can_timeout: self.can_timeout,
            keep_alive: self.keep_alive,
        }
    }

    /// It serves the same pool as `other`, and waits for as long.
    pub open spec fn takes_place_of(&self, other: &Worker) -> bool {
        &&& self.data() == other.data()
        &&& self.receiver().same_channel(&other.receiver())
        &&& self.limit() == other.limit()
    }
}

/// A worker that takes the place of another serves the same pool, takes jobs from the same
/// channel, and waits for exactly as long. Whoever takes its place takes that of the other too.
pub proof fn law_replacement_is_alike(one: Worker, two: Worker, three: Worker)
    ensures
        one.takes_place_of(&two) ==> one.data() == two.data() && one.limit() == two.limit()
            && one.receiver().carried() == two.receiver().carried()
            && one.receiver().emptiness() == two.receiver().emptiness(),
        one.takes_place_of(&one),
        one.takes_place_of(&two) && two.takes_place_of(&three) ==> one.takes_place_of(&three),
{
}

/// A worker that becomes idle has raised the idle count by one and has left the total alone, and
/// it notifies the joiners if and only if it was the only one counted that was not idle, and has
/// found the channel empty.
pub proof fn law_idle_worker_notifies_in_numbers(worker: Worker, notify: bool)
    requires
        worker.became_idle(notify),
    ensures
        exists|total: u32, idle: u32| #[trigger]
            worker.data().counts().moved((total, idle), 0, 1) && (if notify {
                total - idle == 1 && worker.receiver().emptiness().contains(true)
            } else {
                total - idle != 1 || worker.receiver().emptiness().contains(false)
            }),
{
    let found = choose|found: (u32, u32)| #[trigger]
        worker.data().counts().moved(found, 0, 1) && call_ensures(
            Worker::look_for_more,
            (&worker, found),
            notify,
        );
    let empty = choose|empty: bool| #[trigger]
        worker.receiver().emptiness().contains(empty) && notify == ends_generation(found, empty);
    assert(worker.receiver().emptiness().contains(empty));
    assert(worker.data().counts().moved((found.0, found.1), 0, 1));
}

/// What a worker has done to the counters, by what has happened to it: nothing when it has
/// started, one idle worker less when it has received a job, one more when it has executed one,
/// one less in both counts when it has received nothing. Only one that has executed a job may
/// have to notify the joiners.
pub proof fn law_events_move_the_counters(worker: Worker, event: WorkerEvent, notify: bool)
    requires
        worker.has_counted(move_on(event), notify),
    ensures
        match event {
            WorkerEvent::Started(_) => !notify,
            WorkerEvent::Received(_) => !notify && exists|found: (u32, u32)| #[trigger]
                worker.data().counts().moved(found, 0, -1),
            WorkerEvent::Finished => worker.became_idle(notify),
            WorkerEvent::NothingReceived => !notify && exists|found: (u32, u32)| #[trigger]
                worker.data().counts().moved(found, -1, -1),
        },
{
}

/// What a worker whose thread ends has done to the counters: it has become idle if it panicked
/// while executing a job, and else nothing.
pub proof fn law_end_moves_the_counters(
    worker: Worker,
    working: bool,
    panicking: bool,
    notify: bool,
)
    requires
        worker.has_counted(move_on_end(working, panicking), notify),
    ensures
        working && panicking ==> worker.became_idle(notify),
        !working || !panicking ==> !notify,
{
}

impl Clone for Worker {
    /// A worker of the same pool that waits for as long.
    fn clone(&self) -> (clone: Worker)
        ensures
            clone.takes_place_of(self),
    {
        self.replacement()
    }
}

} // verus!
