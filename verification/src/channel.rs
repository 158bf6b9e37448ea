//! The channel on which jobs wait for a worker.
use crate::task::Job;
use crossbeam_channel::Receiver;
use crossbeam_channel::Sender;
use vstd::prelude::*;

verus! {

/// Declares `crossbeam_channel::Sender`, the end of a channel into which messages are sent.
#[verifier::external_type_specification]
#[verifier::external_body]
#[verifier::reject_recursive_types(T)]
pub struct ExSender<T>(crossbeam_channel::Sender<T>);

/// Declares `crossbeam_channel::Receiver`, the end of a channel from which messages are taken.
#[verifier::external_type_specification]
#[verifier::external_body]
#[verifier::reject_recursive_types(T)]
pub struct ExReceiver<T>(crossbeam_channel::Receiver<T>);

/// The jobs that the channel of this receiver takes in over its whole life.
pub uninterp spec fn carried(receiver: Receiver<Job>) -> Set<Job>;

/// What the channel of this receiver is found to be over its whole life: `true` is in this set
/// if it is found empty at some time, and `false` if it is found to hold a job.
pub uninterp spec fn emptiness(receiver: Receiver<Job>) -> Set<bool>;

/// What a function may do to the channel stands in its `opens_invariants`. This is the namespace
/// of sending.
pub open spec fn sending() -> int {
    0x8_0000_0000_0000_0000
}

/// Trusted: `crossbeam_channel::unbounded`. Nothing is claimed of the two ends by themselves;
/// that they belong to one channel is what a call says, and what `send` goes by.
pub assume_specification<T>[ crossbeam_channel::unbounded::<T> ]() -> (ends: (
    crossbeam_channel::Sender<T>,
    crossbeam_channel::Receiver<T>,
));

/// The two ends were made by one call of `crossbeam_channel::unbounded`.
pub open spec fn connected(sender: Sender<Job>, receiver: Receiver<Job>) -> bool {
    call_ensures(crossbeam_channel::unbounded::<Job>, (), (sender, receiver))
}

/// Trusted: `crossbeam_channel::Sender::send` on an unbounded channel. Sending fails only once
/// every receiver of the channel has been dropped, and gives the message back then. As long as
/// the receiver that was made together with the sender is there, the job goes into the channel.
#[verifier::external_body]
fn send(sender: &Sender<Job>, receiver: &Receiver<Job>, job: Job) -> (sent: Result<(), Job>)
    requires
        connected(*sender, *receiver),
    ensures
        sent is Ok,
        sent is Ok ==> carried(*receiver).contains(job),
    opens_invariants [sending()]
{
    match sender.send(job) {
        Ok(()) => Ok(()),
        Err(error) => Err(error.into_inner()),
    }
}

/// Trusted: `crossbeam_channel::Receiver::is_empty`. The result is what the channel is found to
/// be at the time of the call. That time is not claimed, and with it which of the two it is.
#[verifier::external_body]
fn is_empty(receiver: &Receiver<Job>) -> (empty: bool)
    ensures
        emptiness(*receiver).contains(empty),
    opens_invariants none
{
    receiver.is_empty()
}

/// Trusted: `<crossbeam_channel::Receiver as Clone>::clone`. The clone takes from the same
/// channel.
#[verifier::external_body]
fn clone_receiver(receiver: &Receiver<Job>) -> (clone: Receiver<Job>)
    ensures
        carried(clone) == carried(*receiver),
        emptiness(clone) == emptiness(*receiver),
    opens_invariants none
{
    receiver.clone()
}

/// The taking end of a pool's channel.
pub struct JobReceiver {
    receiver: Receiver<Job>,
}

impl JobReceiver {
    /// The jobs that the channel takes in over its whole life.
    pub closed spec fn carried(&self) -> Set<Job> {
        carried(self.receiver)
    }

    /// What the channel is found to be over its whole life, empty (`true`) or not (`false`).
    pub closed spec fn emptiness(&self) -> Set<bool> {
        emptiness(self.receiver)
    }

    /// This and `other` take from the same channel.
    pub open spec fn same_channel(&self, other: &JobReceiver) -> bool {
        self.carried() == other.carried() && self.emptiness() == other.emptiness()
    }

    /// Whether there is no job in the channel right now.
    pub fn is_empty(&self) -> (empty: bool)
        ensures
            self.emptiness().contains(empty),
        opens_invariants none
    {
        is_empty(&self.receiver)
    }

    /// Another taking end of the same channel.
    pub(crate) fn another(&self) -> (other: JobReceiver)
        ensures
            other.same_channel(self),
        opens_invariants none
    {
        JobReceiver { receiver: clone_receiver(&self.receiver) }
    }

    /// The crossbeam receiver, to wait on for a job.
    pub fn inner(&self) -> (receiver: &Receiver<Job>)
        ensures
            carried(*receiver) == self.carried(),
            emptiness(*receiver) == self.emptiness(),
    {
        &self.receiver
    }
}

impl Clone for JobReceiver {
    /// Another taking end of the same channel.
    fn clone(&self) -> (clone: JobReceiver)
        ensures
            clone.same_channel(self),
    {
        self.another()
    }
}

/// The two ends of a pool's channel.
pub struct ChannelData {
    sender: Sender<Job>,
    receiver: JobReceiver,
}

impl ChannelData {
    #[verifier::type_invariant]
    spec fn one_channel(&self) -> bool {
        self.ends_meet()
    }

    /// The two ends were made by one call, so they belong to one channel.
    pub closed spec fn ends_meet(&self) -> bool {
        connected(self.sender, self.receiver.receiver)
    }

    /// The taking end.
    pub closed spec fn receiver(&self) -> JobReceiver {
        self.receiver
    }

    /// Opens a channel.
    pub(crate) fn new() -> (channel: ChannelData)
        ensures
            channel.ends_meet(),
    {
        let ends: (Sender<Job>, Receiver<Job>) = crossbeam_channel::unbounded::<Job>();
        let (sender, receiver): (Sender<Job>, Receiver<Job>) = ends;
        ChannelData { sender, receiver: JobReceiver { receiver } }
    }

    /// Puts a job into the channel. Since the channel has its own taking end with it, there is
    /// always somebody left who may take the job out.
    pub(crate) fn send(&self, job: Job) -> (sent: Result<(), Job>)
        ensures
            sent is Ok,
            self.receiver().carried().contains(job),
        opens_invariants [sending()]
    {
        proof {
            use_type_invariant(self);
        }
        send(&self.sender, &self.receiver.receiver, job)
    }

    /// The taking end.
    pub(crate) fn borrow_receiver(&self) -> (receiver: &JobReceiver)
        ensures
            *receiver == self.receiver(),
        opens_invariants none
    {
        &self.receiver
    }
}

} // verus!
