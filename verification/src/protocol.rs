//! How the counters, the channel, the workers, the submitting threads and the joining threads of
//! one pool work together. Each step of the model is one operation of one thread on what they
//! share: one on the counters, one on the channel, or one on the lock under which joiners wait.
//! What a thread decides on, it decides by the same rules as the executable code, and the
//! counters move as the shared word moves.
use crate::pool::Placement;
use vstd::prelude::*;

verus! {

/// Workers of one kind, by what they are doing.
pub struct Crew {
    /// They execute a task.
    pub busy: int,
    /// They have executed a task, have counted themselves as idle, and have yet to look at the
    /// channel. They were not the last to become idle.
    pub looking: int,
    /// The same, of those that were the last to become idle.
    pub looking_last: int,
    /// They were the last to become idle and have found the channel empty. They are about to
    /// notify the joiners.
    pub notifying: int,
    /// They wait for a task.
    pub idle: int,
    /// They have taken a task out of the channel and are still counted as idle.
    pub waking: int,
    /// They have waited in vain and are still counted.
    pub leaving: int,
}

impl Crew {
    /// How many they are.
    pub open spec fn size(&self) -> int {
        self.busy + self.counted_idle()
    }

    /// How many of them will get around to taking another task.
    pub open spec fn staying(&self) -> int {
        self.size() - self.leaving
    }

    /// How many of them are counted as idle.
    pub open spec fn counted_idle(&self) -> int {
        self.looking + self.looking_last + self.notifying + self.idle + self.waking + self.leaving
    }

    /// None of these numbers is negative.
    pub open spec fn natural(&self) -> bool {
        &&& self.busy >= 0
        &&& self.looking >= 0
        &&& self.looking_last >= 0
        &&& self.notifying >= 0
        &&& self.idle >= 0
        &&& self.waking >= 0
        &&& self.leaving >= 0
    }

    pub open spec fn nobody() -> Crew {
        Crew {
            busy: 0,
            looking: 0,
            looking_last: 0,
            notifying: 0,
            idle: 0,
            waking: 0,
            leaving: 0,
        }
    }
}

/// Submissions under way, by how far they have got.
pub struct Submissions {
    /// They have yet to look at the counters.
    pub asking: int,
    /// They go on to create a core worker.
    pub to_core: int,
    /// They go on to create a worker beyond the core pool.
    pub to_extra: int,
    /// They go on to put their task into the channel.
    pub to_channel: int,
    /// They have counted a core worker in that is not needed any more. They will count it out
    /// and go on to create a worker beyond the core pool.
    pub back_to_extra: int,
    /// They have counted a worker in that is not needed any more. They will count it out and go
    /// on to put their task into the channel.
    pub back_to_channel: int,
}

impl Submissions {
    /// How many they are.
    pub open spec fn size(&self) -> int {
        self.asking + self.to_core + self.to_extra + self.to_channel + self.doomed()
    }

    /// How many workers are counted in that will never start.
    pub open spec fn doomed(&self) -> int {
        self.back_to_extra + self.back_to_channel
    }

    /// None of these numbers is negative.
    pub open spec fn natural(&self) -> bool {
        &&& self.asking >= 0
        &&& self.to_core >= 0
        &&& self.to_extra >= 0
        &&& self.to_channel >= 0
        &&& self.back_to_extra >= 0
        &&& self.back_to_channel >= 0
    }

    pub open spec fn nobody() -> Submissions {
        Submissions {
            asking: 0,
            to_core: 0,
            to_extra: 0,
            to_channel: 0,
            back_to_extra: 0,
            back_to_channel: 0,
        }
    }
}

/// Threads that join the pool, by how far they have got.
pub struct Joiners {
    /// They have called, and have yet to get the lock.
    pub calling: int,
    /// They hold the lock and have yet to look at the counters.
    pub holding: int,
    /// They hold the lock, have found every worker idle, and have yet to look at the channel.
    pub checking: int,
    /// They hold the lock and are about to wait, giving it up.
    pub settling: int,
    /// They wait.
    pub waiting: int,
    /// They have found nothing left to wait for, and have returned at once.
    pub returned: int,
    /// They have waited, have been notified, and have returned.
    pub notified: int,
}

impl Joiners {
    /// How many hold the lock.
    pub open spec fn locked(&self) -> int {
        self.holding + self.checking + self.settling
    }

    /// None of these numbers is negative.
    pub open spec fn natural(&self) -> bool {
        &&& self.calling >= 0
        &&& self.holding >= 0
        &&& self.checking >= 0
        &&& self.settling >= 0
        &&& self.waiting >= 0
        &&& self.returned >= 0
        &&& self.notified >= 0
    }

    pub open spec fn nobody() -> Joiners {
        Joiners {
            calling: 0,
            holding: 0,
            checking: 0,
            settling: 0,
            waiting: 0,
            returned: 0,
            notified: 0,
        }
    }
}

/// A pool at one time.
pub struct State {
    pub core_size: u32,
    pub max_size: u32,
    /// The counters, `(total, idle)`.
    pub counts: (u32, u32),
    /// The workers of the core pool.
    pub core_crew: Crew,
    /// The workers beyond the core pool.
    pub extra_crew: Crew,
    pub submissions: Submissions,
    pub joiners: Joiners,
    /// How many tasks wait in the channel.
    pub queued: int,
    /// How many clones of the pool are left. Each of them may send to the channel.
    pub pools: int,
    /// How many tasks have been submitted up to now.
    pub submitted: int,
    /// How many tasks have been executed up to now.
    pub finished: int,
}

/// One atomic operation of one thread. Where `core` is given, the thread is a worker of the core
/// pool, or else one beyond it.
pub enum Step {
    /// A task is submitted.
    Submit,
    /// A submission looks at the counters.
    Look,
    /// A submission counts a core worker in, and goes by the counts from just before.
    CountCoreIn,
    /// A submission counts a worker beyond the core pool in, and goes by the counts from just
    /// before.
    CountExtraIn,
    /// A submission counts a core worker out again, and goes on to create another one.
    CountOutToExtra,
    /// A submission counts a worker out again, and goes on to the channel.
    CountOutToChannel,
    /// A submission puts its task into the channel.
    Enqueue,
    /// An idle worker takes a task out of the channel.
    Take { core: bool },
    /// A worker that has taken a task counts itself as no longer idle.
    Wake { core: bool },
    /// A worker has executed its task, or has panicked in doing so and is replaced by its clone:
    /// it counts itself as idle, and goes by the counts from just before.
    Finish { core: bool },
    /// A worker that has finished, as the last one to become idle or not, looks at the channel.
    LookForMore { core: bool, last: bool },
    /// A worker notifies the joiners, under the lock, and all that wait return.
    Notify { core: bool },
    /// An idle worker finds the channel empty, and that there is no sender left or, beyond the
    /// core pool, that its time is over.
    GiveUp { core: bool },
    /// A worker that has given up counts itself out.
    Leave { core: bool },
    /// A pool is cloned.
    ClonePool,
    /// A pool is dropped.
    DropPool,
    /// A thread calls to join the pool.
    Join,
    /// A joiner gets the lock.
    JoinLock,
    /// A joiner looks at the counters.
    JoinLook,
    /// A joiner looks at the channel.
    JoinCheck,
    /// A joiner gives up the lock and waits. If it wakes up without having been notified, it goes
    /// on waiting.
    JoinWait,
    /// A joiner gives up because its time is over.
    JoinTimeOut,
}

impl Step {
    /// It is a step of a worker.
    pub open spec fn by_worker(&self) -> bool {
        match self {
            Step::Take { .. } => true,
            Step::Wake { .. } => true,
            Step::Finish { .. } => true,
            Step::LookForMore { .. } => true,
            Step::Notify { .. } => true,
            Step::GiveUp { .. } => true,
            Step::Leave { .. } => true,
            _ => false,
        }
    }
}

impl State {
    /// A new pool.
    pub open spec fn initial(core_size: u32, max_size: u32) -> State {
        State {
            core_size,
            max_size,
            counts: (0, 0),
            core_crew: Crew::nobody(),
            extra_crew: Crew::nobody(),
            submissions: Submissions::nobody(),
            joiners: Joiners::nobody(),
            queued: 0,
            pools: 1,
            submitted: 0,
            finished: 0,
        }
    }

    /// How many workers there are.
    pub open spec fn workers(&self) -> int {
        self.core_crew.size() + self.extra_crew.size()
    }

    /// How many workers execute a task.
    pub open spec fn busy(&self) -> int {
        self.core_crew.busy + self.extra_crew.busy
    }

    /// How many workers have taken a task and are still counted as idle.
    pub open spec fn waking(&self) -> int {
        self.core_crew.waking + self.extra_crew.waking
    }

    /// How many workers will get around to taking another task.
    pub open spec fn staying(&self) -> int {
        self.core_crew.staying() + self.extra_crew.staying()
    }

    /// A pool is left that may send to the channel.
    pub open spec fn open(&self) -> bool {
        self.pools > 0
    }

    /// How many workers are on the way to notify the joiners, unless there is more to do.
    pub open spec fn heralds(&self) -> int {
        self.core_crew.looking_last + self.extra_crew.looking_last + self.core_crew.notifying
            + self.extra_crew.notifying
    }

    /// How many tasks have got to the workers or the channel and have not been executed.
    pub open spec fn unfinished(&self) -> int {
        self.queued + self.busy() + self.waking()
    }

    pub open spec fn crew(&self, core: bool) -> Crew {
        if core {
            self.core_crew
        } else {
            self.extra_crew
        }
    }

    pub open spec fn with_crew(self, core: bool, crew: Crew) -> State {
        if core {
            State { core_crew: crew, ..self }
        } else {
            State { extra_crew: crew, ..self }
        }
    }

    pub open spec fn with_counts_moved(self, total: int, idle: int) -> State {
        State { counts: crate::counts::shifted(self.counts, total, idle), ..self }
    }

    /// The step can be made now. A worker can be counted in as long as the counter has room for
    /// another thread.
    pub open spec fn allows(&self, step: Step) -> bool {
        match step {
            Step::Submit => self.open(),
            Step::Look => self.submissions.asking > 0,
            Step::CountCoreIn => self.submissions.to_core > 0 && self.counts.0 < u32::MAX,
            Step::CountExtraIn => self.submissions.to_extra > 0 && self.counts.0 < u32::MAX,
            Step::CountOutToExtra => self.submissions.back_to_extra > 0,
            Step::CountOutToChannel => self.submissions.back_to_channel > 0,
            Step::Enqueue => self.submissions.to_channel > 0,
            Step::Take { core } => self.crew(core).idle > 0 && self.queued > 0,
            Step::Wake { core } => self.crew(core).waking > 0,
            Step::Finish { core } => self.crew(core).busy > 0,
            Step::GiveUp { core } => {
                &&& self.crew(core).idle > 0
                &&& self.queued == 0
                &&& core ==> !self.open()
            },
            Step::Leave { core } => self.crew(core).leaving > 0,
            Step::LookForMore { core, last } => if last {
                self.crew(core).looking_last > 0
            } else {
                self.crew(core).looking > 0
            },
            Step::Notify { core } => self.crew(core).notifying > 0 && self.joiners.locked() == 0,
            Step::ClonePool => self.open(),
            // whoever submits a task holds on to a pool
            Step::DropPool => self.open() && (self.pools > 1 || self.submissions.size() == 0),
            Step::Join => true,
            Step::JoinLock => self.joiners.calling > 0 && self.joiners.locked() == 0,
            Step::JoinLook => self.joiners.holding > 0,
            Step::JoinCheck => self.joiners.checking > 0,
            Step::JoinWait => self.joiners.settling > 0,
            Step::JoinTimeOut => self.joiners.waiting > 0,
        }
    }

    /// The state after the step.
    pub open spec fn after(self, step: Step) -> State {
        let submissions = self.submissions;
        let joiners = self.joiners;
        match step {
            Step::Submit => State {
                submissions: Submissions { asking: submissions.asking + 1, ..submissions },
                submitted: self.submitted + 1,
                ..self
            },
            Step::Look => {
                let rest = Submissions { asking: submissions.asking - 1, ..submissions };
                State {
                    submissions: match crate::pool::placement(
                        self.core_size,
                        self.max_size,
                        self.counts,
                    ) {
                        Placement::Core => Submissions { to_core: rest.to_core + 1, ..rest },
                        Placement::Extra => Submissions { to_extra: rest.to_extra + 1, ..rest },
                        Placement::Channel => Submissions {
                            to_channel: rest.to_channel + 1,
                            ..rest
                        },
                    },
                    ..self
                }
            },
            Step::CountCoreIn => {
                let rest = Submissions { to_core: submissions.to_core - 1, ..submissions };
                let counted = State { submissions: rest, ..self }.with_counts_moved(1, 0);
                if crate::pool::core_needed(self.core_size, self.counts) {
                    counted.with_crew(
                        true,
                        Crew { busy: self.core_crew.busy + 1, ..self.core_crew },
                    )
                } else if crate::pool::extra_needed(self.max_size, self.counts) {
                    State {
                        submissions: Submissions { back_to_extra: rest.back_to_extra + 1, ..rest },
                        ..counted
                    }
                } else {
                    State {
                        submissions: Submissions {
                            back_to_channel: rest.back_to_channel + 1,
                            ..rest
                        },
                        ..counted
                    }
                }
            },
            Step::CountExtraIn => {
                let rest = Submissions { to_extra: submissions.to_extra - 1, ..submissions };
                let counted = State { submissions: rest, ..self }.with_counts_moved(1, 0);
                if crate::pool::extra_needed(self.max_size, self.counts) {
                    counted.with_crew(
                        false,
                        Crew { busy: self.extra_crew.busy + 1, ..self.extra_crew },
                    )
                } else {
                    State {
                        submissions: Submissions {
                            back_to_channel: rest.back_to_channel + 1,
                            ..rest
                        },
                        ..counted
                    }
                }
            },
            Step::CountOutToExtra => State {
                submissions: Submissions {
                    back_to_extra: submissions.back_to_extra - 1,
                    to_extra: submissions.to_extra + 1,
                    ..submissions
                },
                ..self
            }.with_counts_moved(-1, 0),
            Step::CountOutToChannel => State {
                submissions: Submissions {
                    back_to_channel: submissions.back_to_channel - 1,
                    to_channel: submissions.to_channel + 1,
                    ..submissions
                },
                ..self
            }.with_counts_moved(-1, 0),
            Step::Enqueue => State {
                submissions: Submissions { to_channel: submissions.to_channel - 1, ..submissions },
                queued: self.queued + 1,
                ..self
            },
            Step::Take { core } => {
                let crew = self.crew(core);
                State { queued: self.queued - 1, ..self }.with_crew(
                    core,
                    Crew { idle: crew.idle - 1, waking: crew.waking + 1, ..crew },
                )
            },
            Step::Wake { core } => {
                let crew = self.crew(core);
                self.with_counts_moved(0, -1).with_crew(
                    core,
                    Crew { waking: crew.waking - 1, busy: crew.busy + 1, ..crew },
                )
            },
            Step::Finish { core } => {
                let crew = self.crew(core);
                State { finished: self.finished + 1, ..self }.with_counts_moved(0, 1).with_crew(
                    core,
                    if crate::worker::last_to_become_idle(self.counts) {
                        Crew {
                            busy: crew.busy - 1,
                            looking_last: crew.looking_last + 1,
                            ..crew
                        }
                    } else {
                        Crew { busy: crew.busy - 1, looking: crew.looking + 1, ..crew }
                    },
                )
            },
            Step::LookForMore { core, last } => {
                let crew = self.crew(core);
                self.with_crew(
                    core,
                    if !last {
                        Crew { looking: crew.looking - 1, idle: crew.idle + 1, ..crew }
                    } else if self.queued > 0 {
                        Crew { looking_last: crew.looking_last - 1, idle: crew.idle + 1, ..crew }
                    } else {
                        Crew {
                            looking_last: crew.looking_last - 1,
                            notifying: crew.notifying + 1,
                            ..crew
                        }
                    },
                )
            },
            Step::Notify { core } => {
                let crew = self.crew(core);
                State {
                    joiners: Joiners {
                        notified: joiners.notified + joiners.waiting,
                        waiting: 0,
                        ..joiners
                    },
                    ..self
                }.with_crew(
                    core,
                    Crew { notifying: crew.notifying - 1, idle: crew.idle + 1, ..crew },
                )
            },
            Step::GiveUp { core } => {
                let crew = self.crew(core);
                self.with_crew(
                    core,
                    Crew { idle: crew.idle - 1, leaving: crew.leaving + 1, ..crew },
                )
            },
            Step::Leave { core } => {
                let crew = self.crew(core);
                self.with_counts_moved(-1, -1).with_crew(
                    core,
                    Crew { leaving: crew.leaving - 1, ..crew },
                )
            },
            Step::ClonePool => State { pools: self.pools + 1, ..self },
            Step::DropPool => State { pools: self.pools - 1, ..self },
            Step::Join => State {
                joiners: Joiners { calling: joiners.calling + 1, ..joiners },
                ..self
            },
            Step::JoinLock => State {
                joiners: Joiners {
                    calling: joiners.calling - 1,
                    holding: joiners.holding + 1,
                    ..joiners
                },
                ..self
            },
            Step::JoinLook => State {
                joiners: if crate::pool::all_idle(self.counts) {
                    Joiners {
                        holding: joiners.holding - 1,
                        checking: joiners.checking + 1,
                        ..joiners
                    }
                } else {
                    Joiners {
                        holding: joiners.holding - 1,
                        settling: joiners.settling + 1,
                        ..joiners
                    }
                },
                ..self
            },
            Step::JoinCheck => State {
                joiners: if self.queued == 0 {
                    Joiners {
                        checking: joiners.checking - 1,
                        returned: joiners.returned + 1,
                        ..joiners
                    }
                } else {
                    Joiners {
                        checking: joiners.checking - 1,
                        settling: joiners.settling + 1,
                        ..joiners
                    }
                },
                ..self
            },
            Step::JoinWait => State {
                joiners: Joiners {
                    settling: joiners.settling - 1,
                    waiting: joiners.waiting + 1,
                    ..joiners
                },
                ..self
            },
            Step::JoinTimeOut => State {
                joiners: Joiners { waiting: joiners.waiting - 1, ..joiners },
                ..self
            },
        }
    }

    /// What holds of a pool at all times.
    pub open spec fn sound(&self) -> bool {
        &&& crate::pool::valid_sizes(self.core_size, self.max_size)
        &&& self.core_crew.natural()
        &&& self.extra_crew.natural()
        &&& self.submissions.natural()
        &&& self.joiners.natural()
        &&& self.queued >= 0
        &&& self.pools >= 0
        // the total counts the workers and those that will never start
        &&& self.counts.0 == self.workers() + self.submissions.doomed()
        // the idle count counts those that do not execute a task, as far as they have got to it
        &&& self.counts.1 == self.core_crew.counted_idle() + self.extra_crew.counted_idle()
        // the pool does not outgrow its sizes
        &&& self.core_crew.size() <= self.core_size
        &&& self.workers() <= self.max_size
        // no task gets lost, and none is executed twice
        &&& self.submitted == self.finished + self.unfinished() + self.submissions.size()
        // core workers stay for as long as the channel
        &&& self.open() ==> self.core_crew.leaving == 0
        &&& !self.open() ==> self.submissions.size() == 0
        // where there is a core pool, a task is not left to a worker beyond it alone
        &&& self.core_size > 0 && self.open() && (self.workers() > 0 || self.queued > 0
            || self.submissions.to_extra > 0 || self.submissions.to_channel > 0
            || self.submissions.doomed() > 0) ==> self.core_crew.size() > 0
        &&& self.core_size > 0 ==> self.attended()
        // one joiner at a time holds the lock
        &&& self.joiners.locked() <= 1
        // nobody waits for nothing
        &&& self.joiners.settling + self.joiners.waiting > 0 ==> self.unfinished()
            + self.submissions.size() > 0 || self.heralds() > 0
    }

    /// If a task waits in the channel, there is a worker that will get around to it.
    pub open spec fn attended(&self) -> bool {
        self.queued > 0 ==> self.staying() > 0
    }
}

/// The steps can be made one after the other from this state on.
pub open spec fn is_run(start: State, steps: Seq<Step>) -> bool
    decreases steps.len(),
{
    steps.len() > 0 ==> is_run(start, steps.drop_last()) && end_of_run(
        start,
        steps.drop_last(),
    ).allows(steps.last())
}

/// The state after the steps.
pub open spec fn end_of_run(start: State, steps: Seq<Step>) -> State
    decreases steps.len(),
{
    if steps.len() == 0 {
        start
    } else {
        end_of_run(start, steps.drop_last()).after(steps.last())
    }
}

/// By how much a step moves the counters.
pub open spec fn counter_move(step: Step) -> (int, int) {
    match step {
        Step::CountCoreIn | Step::CountExtraIn => (1, 0),
        Step::CountOutToExtra | Step::CountOutToChannel => (-1, 0),
        Step::Wake { .. } => (0, -1),
        Step::Finish { .. } => (0, 1),
        Step::Leave { .. } => (-1, -1),
        _ => (0, 0),
    }
}

/// What holds of a pool at all times holds of a new one.
pub proof fn law_new_pool_is_sound(core_size: u32, max_size: u32)
    requires
        crate::pool::valid_sizes(core_size, max_size),
    ensures
        State::initial(core_size, max_size).sound(),
{
}

/// What holds of a pool at all times is kept by every step.
pub proof fn law_step_keeps_sound(state: State, step: Step)
    requires
        state.sound(),
        state.allows(step),
    ensures
        state.after(step).sound(),
{
    match step {
        Step::Submit => lemma_submission_keeps_sound(state, step),
        Step::Look => lemma_submission_keeps_sound(state, step),
        Step::Enqueue => lemma_submission_keeps_sound(state, step),
        Step::CountCoreIn => lemma_counting_in_keeps_sound(state, step),
        Step::CountExtraIn => lemma_counting_in_keeps_sound(state, step),
        Step::CountOutToExtra => lemma_counting_out_keeps_sound(state, step),
        Step::CountOutToChannel => lemma_counting_out_keeps_sound(state, step),
        Step::Take { core } => lemma_work_keeps_sound(state, core, step),
        Step::Wake { core } => lemma_work_keeps_sound(state, core, step),
        Step::Finish { core } => lemma_finish_keeps_sound(state, core),
        Step::LookForMore { core, last } => lemma_looking_keeps_sound(state, core, last),
        Step::Notify { core } => lemma_notify_keeps_sound(state, core),
        Step::GiveUp { core } => lemma_leaving_keeps_sound(state, core, step),
        Step::Leave { core } => lemma_leaving_keeps_sound(state, core, step),
        _ => lemma_joining_keeps_sound(state, step),
    }
}

proof fn lemma_submission_keeps_sound(state: State, step: Step)
    requires
        state.sound(),
        state.allows(step),
        step is Submit || step is Look || step is Enqueue,
    ensures
        state.after(step).sound(),
{
}

proof fn lemma_counting_in_keeps_sound(state: State, step: Step)
    requires
        state.sound(),
        state.allows(step),
        step is CountCoreIn || step is CountExtraIn,
    ensures
        state.after(step).sound(),
{
    crate::counts::law_counts_move_apart(state.counts, 1, 0);
}

proof fn lemma_counting_out_keeps_sound(state: State, step: Step)
    requires
        state.sound(),
        state.allows(step),
        step is CountOutToExtra || step is CountOutToChannel,
    ensures
        state.after(step).sound(),
{
    crate::counts::law_counts_move_apart(state.counts, -1, 0);
}

proof fn lemma_work_keeps_sound(state: State, core: bool, step: Step)
    requires
        state.sound(),
        state.allows(step),
        step == (Step::Take { core }) || step == (Step::Wake { core }),
    ensures
        state.after(step).sound(),
{
    if step is Wake {
        crate::counts::law_counts_move_apart(state.counts, 0, -1);
    }
}

proof fn lemma_finish_keeps_sound(state: State, core: bool)
    requires
        state.sound(),
        state.allows(Step::Finish { core }),
    ensures
        state.after(Step::Finish { core }).sound(),
{
    crate::counts::law_counts_move_apart(state.counts, 0, 1);
}

proof fn lemma_looking_keeps_sound(state: State, core: bool, last: bool)
    requires
        state.sound(),
        state.allows(Step::LookForMore { core, last }),
    ensures
        state.after(Step::LookForMore { core, last }).sound(),
{
}

proof fn lemma_notify_keeps_sound(state: State, core: bool)
    requires
        state.sound(),
        state.allows(Step::Notify { core }),
    ensures
        state.after(Step::Notify { core }).sound(),
{
}

proof fn lemma_leaving_keeps_sound(state: State, core: bool, step: Step)
    requires
        state.sound(),
        state.allows(step),
        step == (Step::GiveUp { core }) || step == (Step::Leave { core }),
    ensures
        state.after(step).sound(),
{
    if step is Leave {
        crate::counts::law_counts_move_apart(state.counts, -1, -1);
    }
}

proof fn lemma_joining_keeps_sound(state: State, step: Step)
    requires
        state.sound(),
        state.allows(step),
        !step.by_worker(),
        counter_move(step) == (0int, 0int),
        !(step is Submit || step is Look || step is Enqueue),
    ensures
        state.after(step).sound(),
{
}

/// What holds of a pool at all times holds after any steps from a new pool on.
pub proof fn law_run_keeps_sound(core_size: u32, max_size: u32, steps: Seq<Step>)
    requires
        crate::pool::valid_sizes(core_size, max_size),
        is_run(State::initial(core_size, max_size), steps),
    ensures
        end_of_run(State::initial(core_size, max_size), steps).sound(),
        end_of_run(State::initial(core_size, max_size), steps).core_size == core_size,
        end_of_run(State::initial(core_size, max_size), steps).max_size == max_size,
    decreases steps.len(),
{
    if steps.len() > 0 {
        law_run_keeps_sound(core_size, max_size, steps.drop_last());
        law_step_keeps_sound(
            end_of_run(State::initial(core_size, max_size), steps.drop_last()),
            steps.last(),
        );
    }
}

/// There are never more workers at the same time than the max size says, nor more core workers
/// than the core size says.
pub proof fn law_sizes_are_kept(core_size: u32, max_size: u32, steps: Seq<Step>)
    requires
        crate::pool::valid_sizes(core_size, max_size),
        is_run(State::initial(core_size, max_size), steps),
    ensures
        end_of_run(State::initial(core_size, max_size), steps).workers() <= max_size,
        end_of_run(State::initial(core_size, max_size), steps).core_crew.size() <= core_size,
{
    law_run_keeps_sound(core_size, max_size, steps);
}

/// The counters never run out of their range, and there are never more workers counted as idle
/// than there are workers counted.
pub proof fn law_idle_is_part_of_total(core_size: u32, max_size: u32, steps: Seq<Step>)
    requires
        crate::pool::valid_sizes(core_size, max_size),
        is_run(State::initial(core_size, max_size), steps),
    ensures
        ({
            let state = end_of_run(State::initial(core_size, max_size), steps);
            &&& state.counts.1 <= state.counts.0
            &&& state.counts.0 - state.counts.1 == state.busy() + state.submissions.doomed()
        }),
{
    law_run_keeps_sound(core_size, max_size, steps);
}

/// A pool that nothing has been submitted to has no workers.
pub proof fn law_no_workers_without_tasks(core_size: u32, max_size: u32, steps: Seq<Step>)
    requires
        crate::pool::valid_sizes(core_size, max_size),
        is_run(State::initial(core_size, max_size), steps),
        forall|i: int| 0 <= i < steps.len() ==> !(#[trigger] steps[i] is Submit),
    ensures
        end_of_run(State::initial(core_size, max_size), steps).workers() == 0,
        end_of_run(State::initial(core_size, max_size), steps).submissions.size() == 0,
        end_of_run(State::initial(core_size, max_size), steps).queued == 0,
    decreases steps.len(),
{
    law_run_keeps_sound(core_size, max_size, steps);
    if steps.len() > 0 {
        let fewer = steps.drop_last();
        assert forall|i: int| 0 <= i < fewer.len() implies !(#[trigger] fewer[i] is Submit) by {
            assert(fewer[i] == steps[i]);
        }
        law_no_workers_without_tasks(core_size, max_size, fewer);
        law_run_keeps_sound(core_size, max_size, fewer);
        assert(!(steps[steps.len() - 1] is Submit));
    }
}

/// Core workers live for as long as the channel: as long as a pool is left, no step makes them
/// fewer.
pub proof fn law_core_workers_stay(state: State, step: Step)
    requires
        state.sound(),
        state.allows(step),
        state.open(),
    ensures
        state.after(step).core_crew.size() >= state.core_crew.size(),
        state.after(step).core_crew.leaving == 0,
{
}

/// So many workers beyond the core pool give up, and then so many of them leave.
pub open spec fn exodus(give_ups: nat, leaves: nat) -> Seq<Step>
    decreases give_ups + leaves,
{
    if leaves > 0 {
        exodus(give_ups, (leaves - 1) as nat).push(Step::Leave { core: false })
    } else if give_ups > 0 {
        exodus((give_ups - 1) as nat, 0).push(Step::GiveUp { core: false })
    } else {
        Seq::empty()
    }
}

/// A pool without work shrinks to its core pool: as long as nothing is submitted, all workers
/// beyond the core pool that have got around to waiting can give up and leave, until only core
/// workers are left, all of them counted as idle.
pub proof fn law_idle_pool_shrinks(state: State)
    requires
        state.sound(),
        state.open(),
        state.finished == state.submitted,
        state.extra_crew.looking == 0,
        state.extra_crew.looking_last == 0,
        state.extra_crew.notifying == 0,
    ensures
        ({
            let extra = state.extra_crew;
            let steps = exodus(extra.idle as nat, (extra.idle + extra.leaving) as nat);
            let end = end_of_run(state, steps);
            &&& is_run(state, steps)
            &&& end.extra_crew.size() == 0
            &&& end.core_crew == state.core_crew
            &&& end.counts == (state.core_crew.size() as u32, state.core_crew.size() as u32)
        }),
{
    let extra = state.extra_crew;
    lemma_exodus(state, extra.idle as nat, (extra.idle + extra.leaving) as nat);
}

proof fn lemma_exodus(state: State, give_ups: nat, leaves: nat)
    requires
        state.sound(),
        state.finished == state.submitted,
        give_ups <= state.extra_crew.idle,
        leaves <= state.extra_crew.leaving + give_ups,
    ensures
        is_run(state, exodus(give_ups, leaves)),
        end_of_run(state, exodus(give_ups, leaves)) == (State {
            counts: ((state.counts.0 - leaves) as u32, (state.counts.1 - leaves) as u32),
            extra_crew: Crew {
                idle: state.extra_crew.idle - give_ups,
                leaving: state.extra_crew.leaving + give_ups - leaves,
                ..state.extra_crew
            },
            ..state
        }),
    decreases give_ups + leaves,
{
    let steps = exodus(give_ups, leaves);
    if leaves > 0 {
        let fewer = exodus(give_ups, (leaves - 1) as nat);
        lemma_exodus(state, give_ups, (leaves - 1) as nat);
        assert(steps.drop_last() == fewer);
        crate::counts::law_counts_move_apart(end_of_run(state, fewer).counts, -1, -1);
    } else if give_ups > 0 {
        lemma_exodus(state, (give_ups - 1) as nat, 0);
        assert(steps.drop_last() == exodus((give_ups - 1) as nat, 0));
    }
}

/// If nothing else happens in between, a task gets a new core worker whenever there are fewer
/// workers than the core size; when there are not, it gets a new worker if there are fewer
/// workers than the max size and nobody is idle; and else it goes to the channel.
pub proof fn law_lone_submission(state: State)
    requires
        state.sound(),
        state.open(),
        state.submissions.size() == 0,
    ensures
        ({
            let looked = state.after(Step::Submit).after(Step::Look);
            let counted_idle = state.core_crew.counted_idle() + state.extra_crew.counted_idle();
            if state.workers() < state.core_size {
                let started = looked.after(Step::CountCoreIn);
                &&& looked.allows(Step::CountCoreIn)
                &&& started.submissions.size() == 0
                &&& started.core_crew == (Crew {
                    busy: state.core_crew.busy + 1,
                    ..state.core_crew
                })
                &&& started.extra_crew == state.extra_crew
            } else if state.workers() < state.max_size && counted_idle == 0 {
                let started = looked.after(Step::CountExtraIn);
                &&& looked.allows(Step::CountExtraIn)
                &&& started.submissions.size() == 0
                &&& started.core_crew == state.core_crew
                &&& started.extra_crew == (Crew {
                    busy: state.extra_crew.busy + 1,
                    ..state.extra_crew
                })
            } else {
                let sent = looked.after(Step::Enqueue);
                &&& looked.allows(Step::Enqueue)
                &&& sent.submissions.size() == 0
                &&& sent.queued == state.queued + 1
                &&& sent.core_crew == state.core_crew
                &&& sent.extra_crew == state.extra_crew
            }
        }),
{
}

/// When the re-check fails, the counters are left as if the worker had never been counted in,
/// if nothing else happens in between.
pub proof fn law_recheck_leaves_no_trace(state: State)
    requires
        state.sound(),
        state.submissions.to_extra > 0,
        state.counts.0 < u32::MAX,
        !crate::pool::extra_needed(state.max_size, state.counts),
    ensures
        state.after(Step::CountExtraIn).allows(Step::CountOutToChannel),
        state.after(Step::CountExtraIn).after(Step::CountOutToChannel) == (State {
            submissions: Submissions {
                to_extra: state.submissions.to_extra - 1,
                to_channel: state.submissions.to_channel + 1,
                ..state.submissions
            },
            ..state
        }),
{
    crate::counts::law_move_back(state.counts, 1, 0);
}

/// What a join that asks now is told, it is told rightly: it may return if and only if no work
/// is left, i.e. every worker is idle, no worker is on the way to be created, and the channel is
/// empty. Only a worker that has taken a task out of the channel and has yet to count itself as
/// no longer idle is not seen.
pub proof fn law_join_returns_without_work(state: State, time_out: Option<std::time::Duration>)
    requires
        state.sound(),
        state.waking() == 0,
    ensures
        crate::pool::join_action(state.counts, state.queued == 0, time_out)
            == crate::pool::JoinAction::Return <==> state.unfinished() == 0
            && state.submissions.doomed() == 0,
{
}

/// How many of the steps take a task out of the channel.
pub open spec fn takes(steps: Seq<Step>) -> nat
    decreases steps.len(),
{
    if steps.len() == 0 {
        0
    } else {
        takes(steps.drop_last()) + if steps.last() is Take {
            1nat
        } else {
            0
        }
    }
}

/// What holds when a join returns at once, whatever else happens: at the moment at which it
/// looked at the counters, no worker executed a task, and none was on the way to be created. So
/// all tasks had been executed, except for those whose submission was still under way, those
/// that a worker had just taken without having counted itself as no longer idle, and those in
/// the channel. All of the latter were taken by a worker before the joiner looked at the
/// channel. If no worker takes a task like that, all work was done.
pub proof fn law_join_returns_when_work_is_done(looks: State, steps: Seq<Step>)
    requires
        looks.sound(),
        looks.allows(Step::JoinLook),
        crate::pool::all_idle(looks.counts),
        is_run(looks.after(Step::JoinLook), steps),
        ({
            let checks = end_of_run(looks.after(Step::JoinLook), steps);
            &&& checks.allows(Step::JoinCheck)
            &&& checks.after(Step::JoinCheck).joiners.returned == checks.joiners.returned + 1
        }),
    ensures
        looks.busy() == 0,
        looks.submissions.doomed() == 0,
        looks.unfinished() == looks.queued + looks.waking(),
        looks.queued <= takes(steps),
        looks.finished == looks.submitted - looks.submissions.size() - looks.queued
            - looks.waking(),
        looks.waking() == 0 && takes(steps) == 0 ==> looks.queued == 0 && looks.unfinished() == 0
            && looks.finished == looks.submitted - looks.submissions.size(),
{
    lemma_only_takes_shrink_the_queue(looks.after(Step::JoinLook), steps);
}

/// What holds when a join is notified, whatever else happens: at the moment at which the worker
/// that notifies had finished its task, no worker executed a task, and none was on the way to be
/// created. So all tasks had been executed, with the same exceptions as where a join returns at
/// once: those in the channel were taken by a worker before the one that notifies looked at it.
pub proof fn law_joiners_are_notified_when_work_is_done(
    finishes: State,
    core: bool,
    steps: Seq<Step>,
)
    requires
        finishes.sound(),
        finishes.allows(Step::Finish { core }),
        crate::worker::last_to_become_idle(finishes.counts),
        is_run(finishes.after(Step::Finish { core }), steps),
        ({
            let looks = end_of_run(finishes.after(Step::Finish { core }), steps);
            &&& looks.allows(Step::LookForMore { core, last: true })
            &&& looks.after(Step::LookForMore { core, last: true }).crew(core).notifying
                == looks.crew(core).notifying + 1
        }),
    ensures
        ({
            let finished = finishes.after(Step::Finish { core });
            &&& crate::pool::all_idle(finished.counts)
            &&& finished.busy() == 0
            &&& finished.submissions.doomed() == 0
            &&& finished.unfinished() == finished.queued + finished.waking()
            &&& finished.queued <= takes(steps)
            &&& finished.waking() == 0 && takes(steps) == 0 ==> finished.finished
                == finished.submitted - finished.submissions.size()
        }),
{
    lemma_finish_keeps_sound(finishes, core);
    crate::counts::law_counts_move_apart(finishes.counts, 0, 1);
    lemma_only_takes_shrink_the_queue(finishes.after(Step::Finish { core }), steps);
}

proof fn lemma_only_takes_shrink_the_queue(start: State, steps: Seq<Step>)
    requires
        is_run(start, steps),
    ensures
        end_of_run(start, steps).queued + takes(steps) >= start.queued,
    decreases steps.len(),
{
    if steps.len() > 0 {
        lemma_only_takes_shrink_the_queue(start, steps.drop_last());
    }
}

/// A joiner returns at once if and only if it finds the channel empty after it has found every
/// worker idle; else it goes on to wait.
pub proof fn law_joiner_decides_by_what_it_finds(state: State)
    requires
        state.sound(),
    ensures
        state.allows(Step::JoinLook) ==> {
            let looked = state.after(Step::JoinLook).joiners;
            &&& crate::pool::all_idle(state.counts) <==> looked.checking == state.joiners.checking
                + 1
            &&& !crate::pool::all_idle(state.counts) <==> looked.settling
                == state.joiners.settling + 1
        },
        state.allows(Step::JoinCheck) ==> {
            let checked = state.after(Step::JoinCheck).joiners;
            &&& state.queued == 0 <==> checked.returned == state.joiners.returned + 1
            &&& state.queued > 0 <==> checked.settling == state.joiners.settling + 1
        },
{
}

/// A worker that finishes its task is the last one to become idle if and only if it leaves every
/// worker idle and no worker on the way to be created. Then it notifies the joiners if and only
/// if it finds the channel empty. Both together are what the worker decides by.
pub proof fn law_last_worker_notifies(state: State, core: bool, looks: State)
    requires
        state.sound(),
        state.allows(Step::Finish { core }),
        looks.sound(),
    ensures
        ({
            let finished = state.after(Step::Finish { core });
            let last = finished.crew(core).looking_last == state.crew(core).looking_last + 1;
            &&& last <==> finished.busy() == 0 && finished.submissions.doomed() == 0
            &&& last <==> crate::pool::all_idle(finished.counts)
            &&& crate::worker::ends_generation(state.counts, looks.queued == 0) <==> last
                && looks.queued == 0
        }),
        looks.allows(Step::LookForMore { core, last: true }) ==> (looks.queued == 0
            <==> looks.after(Step::LookForMore { core, last: true }).crew(core).notifying
            == looks.crew(core).notifying + 1),
        looks.allows(Step::LookForMore { core, last: false }) ==> looks.after(
            Step::LookForMore { core, last: false },
        ).crew(core).notifying == looks.crew(core).notifying,
{
    crate::counts::law_counts_move_apart(state.counts, 0, 1);
}

/// The step by which the last of all submitted tasks is done is that of a worker that finishes
/// its task, and that worker is on the way to notify the joiners: it finds the channel empty.
pub proof fn law_joiners_are_notified(state: State, step: Step)
    requires
        state.sound(),
        state.allows(step),
        state.finished < state.submitted,
        state.after(step).finished == state.after(step).submitted,
    ensures
        step matches Step::Finish { core } && state.after(step).allows(
            Step::LookForMore { core, last: true },
        ) && state.after(step).after(Step::LookForMore { core, last: true }).crew(core).notifying
            > 0,
{
    law_step_keeps_sound(state, step);
}

/// No joiner is left waiting: as long as one waits or is about to, there is a task that has not
/// been executed, or a worker on the way to notify. When all tasks have been executed, it is
/// the worker: it finds the channel empty, and once it has notified, all that waited return.
pub proof fn law_no_joiner_is_left_waiting(core_size: u32, max_size: u32, steps: Seq<Step>)
    requires
        crate::pool::valid_sizes(core_size, max_size),
        is_run(State::initial(core_size, max_size), steps),
    ensures
        ({
            let state = end_of_run(State::initial(core_size, max_size), steps);
            state.joiners.settling + state.joiners.waiting > 0 && state.finished
                == state.submitted ==> {
                ||| exists|core: bool| {
                    &&& #[trigger] state.allows(Step::LookForMore { core, last: true })
                    &&& state.after(Step::LookForMore { core, last: true }).crew(core).notifying
                        > 0
                }
                ||| exists|core: bool| {
                    &&& (#[trigger] state.crew(core)).notifying > 0
                    &&& state.joiners.locked() == 0 ==> state.allows(Step::Notify { core })
                    &&& state.after(Step::Notify { core }).joiners.waiting == 0
                    &&& state.after(Step::Notify { core }).joiners.notified
                        == state.joiners.notified + state.joiners.waiting
                }
            }
        }),
{
    law_run_keeps_sound(core_size, max_size, steps);
    let state = end_of_run(State::initial(core_size, max_size), steps);
    if state.joiners.settling + state.joiners.waiting > 0 && state.finished == state.submitted {
        if state.core_crew.looking_last > 0 {
            assert(state.allows(Step::LookForMore { core: true, last: true }));
        } else if state.extra_crew.looking_last > 0 {
            assert(state.allows(Step::LookForMore { core: false, last: true }));
        } else if state.core_crew.notifying > 0 {
            assert(state.crew(true).notifying > 0);
        } else {
            assert(state.crew(false).notifying > 0);
        }
    }
}

/// Dropping a pool of which another clone is left changes nothing else: the channel stays
/// connected, every other step can be made as before, and no worker ends.
pub proof fn law_clones_keep_the_channel(state: State, step: Step)
    requires
        state.sound(),
        state.pools > 1,
    ensures
        state.allows(Step::DropPool),
        state.after(Step::DropPool) == (State { pools: state.pools - 1, ..state }),
        state.after(Step::DropPool).open(),
        !(step is DropPool) ==> (state.after(Step::DropPool).allows(step) <==> state.allows(step)),
{
}

/// Every task that is submitted is executed at most once, and none gets lost: it is under way,
/// waits in the channel, is with a worker, or has been executed.
pub proof fn law_no_task_gets_lost(core_size: u32, max_size: u32, steps: Seq<Step>)
    requires
        crate::pool::valid_sizes(core_size, max_size),
        is_run(State::initial(core_size, max_size), steps),
    ensures
        ({
            let state = end_of_run(State::initial(core_size, max_size), steps);
            &&& state.submitted == state.submissions.size() + state.unfinished() + state.finished
            &&& state.finished <= state.submitted
        }),
{
    law_run_keeps_sound(core_size, max_size, steps);
}

/// Where there is a core pool, a task that waits in the channel always has a worker that will
/// get around to it, and while a pool is left, a core worker at that.
pub proof fn law_channel_is_attended(core_size: u32, max_size: u32, steps: Seq<Step>)
    requires
        crate::pool::valid_sizes(core_size, max_size),
        core_size > 0,
        is_run(State::initial(core_size, max_size), steps),
        end_of_run(State::initial(core_size, max_size), steps).queued > 0,
    ensures
        end_of_run(State::initial(core_size, max_size), steps).staying() > 0,
        end_of_run(State::initial(core_size, max_size), steps).open() ==> end_of_run(
            State::initial(core_size, max_size),
            steps,
        ).core_crew.staying() > 0,
{
    law_run_keeps_sound(core_size, max_size, steps);
}

/// How much a crew of a pool that is shut down has left to do.
pub open spec fn left_to_do_by(crew: Crew) -> int {
    6 * crew.waking + 5 * crew.busy + 4 * (crew.looking + crew.looking_last) + 3 * crew.notifying
        + 2 * crew.idle + crew.leaving
}

/// How much the workers of a pool that is shut down have left to do.
pub open spec fn left_to_do(state: State) -> int {
    5 * state.queued + left_to_do_by(state.core_crew) + left_to_do_by(state.extra_crew)
}

/// Once the last pool is gone, every step of a worker brings the workers closer to the end, and
/// no other step takes them away from it.
pub proof fn law_shutdown_comes_to_an_end(state: State, step: Step)
    requires
        state.sound(),
        !state.open(),
        state.allows(step),
    ensures
        !state.after(step).open(),
        0 <= left_to_do(state.after(step)) <= left_to_do(state),
        step.by_worker() ==> left_to_do(state.after(step)) < left_to_do(state),
{
    law_step_keeps_sound(state, step);
    let after = state.after(step);
    assert(left_to_do_by(after.core_crew) >= 0 && left_to_do_by(after.extra_crew) >= 0);
    match step {
        Step::Take { core } => {
            assert(after.crew(!core) == state.crew(!core));
        },
        Step::Wake { core } => {
            assert(after.crew(!core) == state.crew(!core));
        },
        Step::Finish { core } => {
            assert(after.crew(!core) == state.crew(!core));
        },
        Step::LookForMore { core, last } => {
            assert(after.crew(!core) == state.crew(!core));
        },
        Step::Notify { core } => {
            assert(after.crew(!core) == state.crew(!core));
        },
        Step::GiveUp { core } => {
            assert(after.crew(!core) == state.crew(!core));
        },
        Step::Leave { core } => {
            assert(after.crew(!core) == state.crew(!core));
        },
        _ => {
            assert(left_to_do(after) == left_to_do(state));
        },
    }
}

/// Once the last pool is gone, as long as there is a worker, some worker can make a step, or the
/// joiner that holds the lock can make one.
pub proof fn law_shutdown_does_not_get_stuck(state: State)
    requires
        state.sound(),
        !state.open(),
        state.workers() > 0,
    ensures
        exists|step: Step| #[trigger]
            state.allows(step) && (step.by_worker() || state.joiners.locked() > 0),
{
    let core = state.core_crew.size() > 0;
    let crew = state.crew(core);
    if crew.busy > 0 {
        assert(state.allows(Step::Finish { core }));
    } else if crew.looking > 0 {
        assert(state.allows(Step::LookForMore { core, last: false }));
    } else if crew.looking_last > 0 {
        assert(state.allows(Step::LookForMore { core, last: true }));
    } else if crew.waking > 0 {
        assert(state.allows(Step::Wake { core }));
    } else if crew.leaving > 0 {
        assert(state.allows(Step::Leave { core }));
    } else if crew.idle > 0 && state.queued > 0 {
        assert(state.allows(Step::Take { core }));
    } else if crew.idle > 0 {
        assert(state.allows(Step::GiveUp { core }));
    } else if state.joiners.locked() == 0 {
        assert(state.allows(Step::Notify { core }));
    } else if state.joiners.holding > 0 {
        assert(state.allows(Step::JoinLook));
    } else if state.joiners.checking > 0 {
        assert(state.allows(Step::JoinCheck));
    } else {
        assert(state.allows(Step::JoinWait));
    }
}

/// When the last pool is gone and no worker can make a step any more, with nobody holding the
/// lock, the workers are all gone too, and, where there is a core pool, every task that was
/// submitted has been executed.
pub proof fn law_shutdown_finishes_all_work(core_size: u32, max_size: u32, steps: Seq<Step>)
    requires
        crate::pool::valid_sizes(core_size, max_size),
        is_run(State::initial(core_size, max_size), steps),
        !end_of_run(State::initial(core_size, max_size), steps).open(),
        end_of_run(State::initial(core_size, max_size), steps).joiners.locked() == 0,
        forall|step: Step| #[trigger]
            end_of_run(State::initial(core_size, max_size), steps).allows(step)
                ==> !step.by_worker(),
    ensures
        end_of_run(State::initial(core_size, max_size), steps).counts == (0u32, 0u32),
        end_of_run(State::initial(core_size, max_size), steps).workers() == 0,
        core_size > 0 ==> end_of_run(State::initial(core_size, max_size), steps).finished
            == end_of_run(State::initial(core_size, max_size), steps).submitted,
        core_size > 0 ==> end_of_run(
            State::initial(core_size, max_size),
            steps,
        ).joiners.waiting == 0,
{
    let state = end_of_run(State::initial(core_size, max_size), steps);
    law_run_keeps_sound(core_size, max_size, steps);
    if state.workers() > 0 {
        law_shutdown_does_not_get_stuck(state);
    }
}

/// The counts that the counters hold while the steps are made, in order.
pub open spec fn counts_of_run(start: State, steps: Seq<Step>) -> Seq<(u32, u32)>
    decreases steps.len(),
{
    if steps.len() == 0 {
        seq![start.counts]
    } else if counter_move(steps.last()) == (0int, 0int) {
        counts_of_run(start, steps.drop_last())
    } else {
        counts_of_run(start, steps.drop_last()).push(end_of_run(start, steps).counts)
    }
}

/// Whatever counts a pool is found to have while its threads make these steps, they are those
/// of the state after some of the steps. So there are at least as many workers counted as are
/// counted as idle, and, when no submission has counted a worker in that will not be started,
/// there are no more than the max size says.
pub proof fn law_counts_found_are_sound(
    pool: crate::pool::ThreadPool,
    steps: Seq<Step>,
    counts: (u32, u32),
)
    requires
        crate::pool::valid_sizes(pool.core_bound(), pool.max_bound()),
        is_run(State::initial(pool.core_bound(), pool.max_bound()), steps),
        pool.data().counts()@ == counts_of_run(
            State::initial(pool.core_bound(), pool.max_bound()),
            steps,
        ),
        pool.data().counts().held(counts),
    ensures
        counts.1 <= counts.0,
        exists|n: int|
            0 <= n <= steps.len() && {
                let state = end_of_run(
                    State::initial(pool.core_bound(), pool.max_bound()),
                    #[trigger] steps.take(n),
                );
                &&& is_run(
                    State::initial(pool.core_bound(), pool.max_bound()),
                    steps.take(n),
                )
                &&& state.counts == counts
                &&& state.submissions.doomed() == 0 ==> counts.0 <= pool.max_bound()
            },
{
    let i = choose|i: int|
        0 <= i < pool.data().counts()@.len() && #[trigger] pool.data().counts()@[i] == counts;
    let start = State::initial(pool.core_bound(), pool.max_bound());
    let n = lemma_counts_of_run(start, steps, i);
    law_run_keeps_sound(pool.core_bound(), pool.max_bound(), steps.take(n));
}

proof fn lemma_counts_of_run(start: State, steps: Seq<Step>, i: int) -> (n: int)
    requires
        is_run(start, steps),
        0 <= i < counts_of_run(start, steps).len(),
    ensures
        0 <= n <= steps.len(),
        is_run(start, steps.take(n)),
        end_of_run(start, steps.take(n)).counts == counts_of_run(start, steps)[i],
    decreases steps.len(),
{
    assert(steps.take(steps.len() as int) == steps);
    if steps.len() == 0 {
        0
    } else {
        let fewer = steps.drop_last();
        if i < counts_of_run(start, fewer).len() {
            let n = lemma_counts_of_run(start, fewer, i);
            assert(steps.take(n) == fewer.take(n));
            n
        } else {
            steps.len() as int
        }
    }
}

/// What a submission decides when it creates a worker is what the model has: the worker is
/// created if and only if it is still needed by the counts from just before.
pub proof fn law_model_creates_as_the_pool_does(pool: crate::pool::ThreadPool, state: State)
    requires
        state.core_size == pool.core_bound(),
        state.max_size == pool.max_bound(),
    ensures
        ({
            let tried = state.after(Step::CountCoreIn);
            &&& tried.counts == crate::counts::shifted(state.counts, 1, 0)
            &&& pool.needs(true, state.counts) <==> tried.core_crew.size()
                == state.core_crew.size() + 1
            &&& !pool.needs(true, state.counts) <==> tried.submissions.doomed()
                == state.submissions.doomed() + 1
            &&& !pool.needs(true, state.counts) && pool.needs(false, state.counts)
                <==> tried.submissions.back_to_extra == state.submissions.back_to_extra + 1
        }),
        ({
            let tried = state.after(Step::CountExtraIn);
            &&& tried.counts == crate::counts::shifted(state.counts, 1, 0)
            &&& pool.needs(false, state.counts) <==> tried.extra_crew.size()
                == state.extra_crew.size() + 1
            &&& !pool.needs(false, state.counts) <==> tried.submissions.back_to_channel
                == state.submissions.back_to_channel + 1
        }),
{
}

/// While a pool is left, the workers that can give up are exactly those that wait with a limit,
/// once they are idle and the channel is empty.
pub proof fn law_workers_with_a_limit_give_up(
    pool: crate::pool::ThreadPool,
    worker: crate::worker::Worker,
    core: bool,
    state: State,
)
    requires
        pool.employs(&worker, core),
        state.open(),
        state.crew(core).idle > 0,
        state.queued == 0,
    ensures
        state.allows(Step::GiveUp { core }) <==> worker.limit() is Some,
        worker.limit() is Some ==> worker.limit() == Some(pool.limit()),
{
}

/// A worker that is hired, executes its task and leaves has left the counters as they were, and
/// so has one that receives a task and executes it.
pub proof fn law_workers_leave_no_trace(job: crate::task::Job)
    ensures
        ({
            let received = crate::worker::move_on(
                crate::worker::WorkerEvent::Received(job),
            ).amounts();
            let finished = crate::worker::move_on(crate::worker::WorkerEvent::Finished).amounts();
            let left = crate::worker::move_on(
                crate::worker::WorkerEvent::NothingReceived,
            ).amounts();
            &&& received.0 == 0 && received.1 == -1
            &&& finished.0 == 0 && finished.1 == 1
            &&& left.0 == -1 && left.1 == -1
            &&& received.0 + finished.0 == 0 && received.1 + finished.1 == 0
            &&& 1 + finished.0 + left.0 == 0 && 0 + finished.1 + left.1 == 0
        }),
        forall|first: Option<crate::task::Job>| #[trigger]
            crate::worker::move_on(crate::worker::WorkerEvent::Started(first)).amounts() == (
                0int,
                0int,
            ),
        forall|working: bool, panicking: bool| #[trigger]
            crate::worker::move_on_end(working, panicking).amounts() == (if working && panicking {
                (0int, 1int)
            } else {
                (0int, 0int)
            }),
{
}

/// The steps of the model's workers move the counters as the workers do.
pub proof fn law_model_moves_as_workers_do(job: crate::task::Job, core: bool)
    ensures
        crate::worker::move_on(crate::worker::WorkerEvent::Received(job)).amounts()
            == counter_move(Step::Wake { core }),
        crate::worker::move_on(crate::worker::WorkerEvent::Finished).amounts() == counter_move(
            Step::Finish { core },
        ),
        crate::worker::move_on_end(true, true).amounts() == counter_move(Step::Finish { core }),
        crate::worker::move_on(crate::worker::WorkerEvent::NothingReceived).amounts()
            == counter_move(Step::Leave { core }),
{
}

} // verus!
