//! What a pool executes: tasks, the jobs that they are turned into, and the handles by which
//! their results are awaited.
use futures_channel::oneshot;
use vstd::future::FutureAdditionalSpecFns;
use vstd::prelude::*;

verus! {

/// A function that can be called once, on any thread: what stands behind a `Box` in place of
/// an `FnOnce` closure.
pub trait Function<R>: Send {
    /// This function may be called: by default, always.
    open spec fn callable(&self) -> bool {
        true
    }

    /// What holds once this function has been called and has returned `result`: by default,
    /// nothing in particular.
    open spec fn called(&self, result: R) -> bool {
        true
    }

    /// Calls this function.
    fn call(self: Box<Self>) -> (result: R)
        requires
            self.callable(),
        ensures
            self.called(result),
    ;
}

/// A function on the heap, of whatever type it is, that may be called.
#[verifier::reject_recursive_types(R)]
pub struct BoxedFunction<R> {
    function: Box<dyn Function<R>>,
}

impl<R> BoxedFunction<R> {
    #[verifier::type_invariant]
    spec fn may_be_called(&self) -> bool {
        self.function.callable()
    }

    /// What holds once this function has been called and has returned `result`.
    pub closed spec fn called(&self, result: R) -> bool {
        self.function.called(result)
    }

    /// Puts a function on the heap.
    pub fn new<F: Function<R> + 'static>(function: F) -> (boxed: BoxedFunction<R>)
        requires
            function.callable(),
        ensures
            forall|result: R| #[trigger] boxed.called(result) == function.called(result),
    {
        BoxedFunction { function: Box::new(Contained { function }) }
    }

    /// Calls this function.
    pub fn call(self) -> (result: R)
        ensures
            self.called(result),
    {
        proof {
            use_type_invariant(&self);
        }
        self.function.call()
    }
}

/// A function inside a box, under a type of this module.
struct Contained<F> {
    function: F,
}

impl<R, F: Function<R>> Function<R> for Contained<F> {
    closed spec fn callable(&self) -> bool {
        self.function.callable()
    }

    closed spec fn called(&self, result: R) -> bool {
        self.function.called(result)
    }

    fn call(self: Box<Self>) -> (result: R) {
        let contained: Contained<F> = *self;
        Box::new(contained.function).call()
    }
}

/// A unit of work, as it is handed to a worker.
pub type Job = BoxedFunction<()>;

/// Trait to implement for all items that may be executed by the `ThreadPool`.
pub trait Task<R: Send + Sync>: Send + Sync {
    /// The task may be run: by default, always.
    open spec fn runnable(&self) -> bool {
        true
    }

    /// What holds once the task has been run and has returned `result`: by default, nothing in
    /// particular.
    open spec fn ran(&self, result: R) -> bool {
        true
    }

    /// The task can be turned into a function directly: by default, it cannot.
    open spec fn fn_like(&self) -> bool {
        false
    }

    /// Execute the task and return its result.
    fn run(self) -> (result: R)
        requires
            self.runnable(),
        ensures
            self.ran(result),
    ;

    /// Transform this `Task` into a heap allocated function if possible.
    ///
    /// Used by `ThreadPool::execute` to turn this `Task` into a `Job`
    /// directly without having to create an additional `Job` that calls this `Task`.
    fn as_fn(self) -> (function: Option<BoxedFunction<R>>)
        requires
            self.runnable(),
        ensures
            function is Some <==> self.fn_like(),
            function matches Some(function) ==> forall|result: R| #[trigger]
                function.called(result) ==> self.ran(result),
    ;

    /// Return `true` if calling `as_fn()` on this `Task` returns `Some`.
    fn is_fn(&self) -> (direct: bool)
        ensures
            direct == self.fn_like(),
    ;
}

/// The function that a closure is.
struct Closure<F> {
    closure: F,
}

impl<R, F: FnOnce() -> R + Send> Function<R> for Closure<F> {
    closed spec fn callable(&self) -> bool {
        call_requires(self.closure, ())
    }

    closed spec fn called(&self, result: R) -> bool {
        call_ensures(self.closure, (), result)
    }

    fn call(self: Box<Self>) -> (result: R) {
        let closure: Closure<F> = *self;
        (closure.closure)()
    }
}

impl<R: Send + Sync, F: FnOnce() -> R + Send + Sync + 'static> Task<R> for F {
    open spec fn runnable(&self) -> bool {
        call_requires(*self, ())
    }

    open spec fn ran(&self, result: R) -> bool {
        call_ensures(*self, (), result)
    }

    open spec fn fn_like(&self) -> bool {
        true
    }

    fn run(self) -> (result: R) {
        self()
    }

    fn as_fn(self) -> (function: Option<BoxedFunction<R>>) {
        Some(BoxedFunction::new(Closure { closure: self }))
    }

    fn is_fn(&self) -> (direct: bool) {
        true
    }
}

/// A closure is a task that may be run if the closure may be called, and that is a function. What
/// holds once it has been run is what the closure promises of its result. For a closure at hand,
/// it takes a call of this law to know that it may be submitted.
pub proof fn law_closure_is_task<R: Send + Sync, F: FnOnce() -> R + Send + Sync + 'static>(
    closure: F,
)
    ensures
        Task::<R>::runnable(&closure) == call_requires(closure, ()),
        forall|result: R| #[trigger]
            Task::<R>::ran(&closure, result) == call_ensures(closure, (), result),
        Task::<R>::fn_like(&closure),
{
}

/// The job of a task that is no function itself: to run the task.
pub(crate) struct Execution<T> {
    pub(crate) task: T,
}

impl<T: Task<()> + 'static> Execution<T> {
    /// The job of the task.
    pub(crate) fn job(task: T) -> (job: Job)
        requires
            task.runnable(),
        ensures
            job.called(()) == call_ensures(T::run, (task,), ()),
    {
        BoxedFunction { function: Box::new(Execution { task }) }
    }
}

impl<T: Task<()>> Function<()> for Execution<T> {
    closed spec fn callable(&self) -> bool {
        self.task.runnable()
    }

    /// The task has been run.
    closed spec fn called(&self, result: ()) -> bool {
        call_ensures(T::run, (self.task,), result)
    }

    fn call(self: Box<Self>) {
        let execution: Execution<T> = *self;
        execution.task.run()
    }
}

/// Declares `futures_channel::oneshot::Sender`, the end of a channel for one value that sends.
#[verifier::external_type_specification]
#[verifier::external_body]
#[verifier::reject_recursive_types(T)]
pub struct ExOneshotSender<T>(oneshot::Sender<T>);

/// Declares `futures_channel::oneshot::Receiver`, the end of a channel for one value that
/// receives: a future of that value.
#[verifier::external_type_specification]
#[verifier::external_body]
#[verifier::reject_recursive_types(T)]
pub struct ExOneshotReceiver<T>(oneshot::Receiver<T>);

/// Declares `futures_channel::oneshot::Canceled`, what a receiver yields when the sender is
/// gone without having sent.
#[verifier::external_type_specification]
#[verifier::external_body]
pub struct ExCanceled(oneshot::Canceled);

/// Trusted: `futures_channel::oneshot::channel`. Nothing is claimed of the two ends by
/// themselves; that they belong together is what a call says, and what `Sender::send` goes by.
pub assume_specification<T>[ oneshot::channel::<T> ]() -> (ends: (
    oneshot::Sender<T>,
    oneshot::Receiver<T>,
));

/// What a receiver yields that has got `value`.
pub open spec fn answer<T>(value: T) -> Result<T, oneshot::Canceled> {
    Ok(value)
}

/// The two ends were made by one call of `oneshot::channel`.
pub open spec fn paired<T>(sender: oneshot::Sender<T>, receiver: oneshot::Receiver<T>) -> bool {
    call_ensures(oneshot::channel::<T>, (), (sender, receiver))
}

/// A value that the sender did not send is handed back.
pub open spec fn comes_back<T>(
    sender: oneshot::Sender<T>,
    value: T,
    sent: Result<(), T>,
) -> bool {
    sent matches Err(unsent) ==> unsent == value
}

/// Trusted: `futures_channel::oneshot::Sender::send`. A value that could not be sent, because the
/// receiving end was closed or dropped, comes back. A receiving end that is awaited is neither
/// closed nor dropped before it has yielded, so the value gets through to it, and is what it
/// yields. Whether it is awaited depends on the other threads, so nothing else is claimed.
pub assume_specification<T>[ oneshot::Sender::<T>::send ](
    sender: oneshot::Sender<T>,
    t: T,
) -> (sent: Result<(), T>)
    ensures
        comes_back(sender, t, sent),
        sent is Err ==> forall|receiver: oneshot::Receiver<T>| #[trigger]
            paired(sender, receiver) ==> !receiver.awaited(),
        sent is Ok ==> forall|receiver: oneshot::Receiver<T>| #[trigger]
            paired(sender, receiver) && receiver.awaited() ==> receiver@ == answer(t),
;

/// The value has been handed to the sender, whether or not somebody was left to receive it.
pub open spec fn replied<R>(sender: oneshot::Sender<R>, value: R) -> bool {
    exists|sent: Result<(), R>|
        call_ensures(oneshot::Sender::<R>::send, (sender, value), sent)
}

/// The task has been run, and what it returned has been handed to the sender.
pub open spec fn evaluated<R: Send + Sync, T: Task<R>>(
    task: T,
    sender: oneshot::Sender<R>,
) -> bool {
    exists|value: R| #[trigger]
        call_ensures(T::run, (task,), value) && replied(sender, value)
}

/// The job of a task whose result somebody may await: to run the task and to send the result.
#[verifier::reject_recursive_types(R)]
pub(crate) struct Evaluation<R, T> {
    pub(crate) task: T,
    pub(crate) sender: oneshot::Sender<R>,
}

impl<R: Send + Sync + 'static, T: Task<R> + 'static> Evaluation<R, T> {
    /// The job of the task, with the handle on which its result arrives.
    pub(crate) fn job(task: T) -> (job: (Job, JoinHandle<R>))
        requires
            task.runnable(),
        ensures
            exists|sender: oneshot::Sender<R>| #[trigger]
                paired(sender, job.1.receiver()) && job.0.called(()) == evaluated(task, sender),
    {
        let ends: (oneshot::Sender<R>, oneshot::Receiver<R>) = oneshot::channel::<R>();
        let (sender, receiver): (oneshot::Sender<R>, oneshot::Receiver<R>) = ends;
        let ghost given: oneshot::Sender<R> = sender;
        let job: Job = BoxedFunction { function: Box::new(Evaluation { task, sender }) };
        let both: (Job, JoinHandle<R>) = (job, JoinHandle { receiver });
        assert(paired(given, both.1.receiver()));
        both
    }
}

impl<R: Send + Sync, T: Task<R>> Function<()> for Evaluation<R, T> {
    closed spec fn callable(&self) -> bool {
        self.task.runnable()
    }

    /// The task has been run and its result sent.
    closed spec fn called(&self, result: ()) -> bool {
        evaluated(self.task, self.sender)
    }

    fn call(self: Box<Self>) {
        let evaluation: Evaluation<R, T> = *self;
        let result: R = evaluation.task.run();
        // if the receiver was dropped that means the caller was not interested in the result
        let _ignored_result: Result<(), R> = evaluation.sender.send(result);
    }
}

/// Handle returned by `ThreadPool::try_evaluate` that allows to wait for the result of a
/// submitted task. It holds the receiving end of a oneshot channel, on which the worker that
/// executes the task sends the result.
#[verifier::reject_recursive_types(T)]
pub struct JoinHandle<T: Send + Sync> {
    receiver: oneshot::Receiver<T>,
}

impl<T: Send + Sync> JoinHandle<T> {
    /// The receiving end on which the result arrives.
    pub closed spec fn receiver(&self) -> oneshot::Receiver<T> {
        self.receiver
    }

    /// The receiving end on which the result arrives, to be awaited.
    pub fn into_receiver(self) -> (receiver: oneshot::Receiver<T>)
        ensures
            receiver == self.receiver(),
    {
        self.receiver
    }
}

/// The job is what the task is executed by: the function that the task is, or else one that
/// runs the task.
pub open spec fn job_of<T: Task<()>>(task: T, job: Job) -> bool {
    if task.fn_like() {
        call_ensures(T::as_fn, (task,), Some(job))
    } else {
        job.called(()) == call_ensures(T::run, (task,), ())
    }
}

/// The job runs the task and sends the result to where the handle receives it.
pub open spec fn evaluation_of<R: Send + Sync, T: Task<R>>(
    task: T,
    job: Job,
    handle: JoinHandle<R>,
) -> bool {
    exists|sender: oneshot::Sender<R>| #[trigger]
        paired(sender, handle.receiver()) && job.called(()) == evaluated(task, sender)
}

/// Once the job has been called that a task is executed by, the task has been run, whether it
/// is a function itself or not.
pub proof fn law_job_runs_task<T: Task<()>>(task: T, job: Job)
    requires
        job_of(task, job),
        job.called(()),
    ensures
        task.ran(()),
{
    if task.fn_like() {
        lemma_function_runs(task, job, ());
    } else {
        lemma_run_has_run(task, ());
    }
}

proof fn lemma_function_runs<R: Send + Sync, T: Task<R>>(
    task: T,
    function: BoxedFunction<R>,
    value: R,
)
    requires
        call_ensures(T::as_fn, (task,), Some(function)),
        function.called(value),
    ensures
        task.ran(value),
{
    let result = Some(function);
    assert(result matches Some(function) ==> forall|value: R| #[trigger]
        function.called(value) ==> task.ran(value));
    assert(result->0.called(value));
    assert(result is Some);
}

proof fn lemma_run_has_run<R: Send + Sync, T: Task<R>>(task: T, value: R)
    requires
        call_ensures(T::run, (task,), value),
    ensures
        task.ran(value),
{
}

/// Whoever awaits the handle of a task gets what the task returned, once the job of the task
/// has been called.
pub proof fn law_handle_gives_result<R: Send + Sync, T: Task<R>>(
    task: T,
    job: Job,
    handle: JoinHandle<R>,
)
    requires
        evaluation_of(task, job, handle),
        job.called(()),
        handle.receiver().awaited(),
    ensures
        exists|value: R| #[trigger]
            call_ensures(T::run, (task,), value) && task.ran(value) && handle.receiver()@
                == answer(value) && handle.receiver()@ == Ok::<R, oneshot::Canceled>(value),
{
    let sender = choose|sender: oneshot::Sender<R>| #[trigger]
        paired(sender, handle.receiver()) && job.called(()) == evaluated(task, sender);
    let value = choose|value: R| #[trigger]
        call_ensures(T::run, (task,), value) && replied(sender, value);
    let sent = choose|sent: Result<(), R>|
        call_ensures(oneshot::Sender::<R>::send, (sender, value), sent);
    assert(call_ensures(oneshot::Sender::<R>::send, (sender, value), sent));
}

} // verus!
