use rusty_pool::naming::Numbering;
use rusty_pool::pool::are_valid_sizes;
use rusty_pool::pool::decide_join;
use rusty_pool::pool::Dispatch;
use rusty_pool::pool::JoinAction;
use rusty_pool::pool::Placement;
use rusty_pool::task::BoxedFunction;
use rusty_pool::task::Function;
use rusty_pool::task::Job;
use rusty_pool::worker::counter_move_of;
use rusty_pool::worker::is_last_of_generation;
use rusty_pool::worker::CounterMove;
use rusty_pool::worker::Sentinel;
use rusty_pool::worker::Worker;
use rusty_pool::worker::WorkerAction;
use rusty_pool::worker::WorkerEvent;
use rusty_pool::Task;
use rusty_pool::ThreadPool;
use std::sync::atomic::AtomicUsize;
use std::sync::atomic::Ordering;
use std::sync::Arc;
use std::time::Duration;

fn pool_of(core_size: u32, max_size: u32) -> ThreadPool {
    ThreadPool::new_named(String::from("test"), core_size, max_size, Duration::from_secs(5))
}

/// Lets a worker do all that there is to do until it has to wait for a job that is not there.
/// Gives the number of times at which it notified the joiners, and how long it waits.
fn work(worker: &Worker, first: Option<Job>) -> (usize, Option<Duration>) {
    let mut sentinel = Sentinel::new();
    let mut notified = 0;
    let mut event = WorkerEvent::Started(first);
    loop {
        match worker.next_action(&mut sentinel, event) {
            WorkerAction::Execute(job) => {
                job.call();
                event = WorkerEvent::Finished;
            }
            WorkerAction::Wait { limit, notify } => {
                if notify {
                    notified += 1;
                }
                match worker.job_receiver().inner().try_recv() {
                    Ok(job) => event = WorkerEvent::Received(job),
                    Err(_) => return (notified, limit),
                }
            }
            WorkerAction::Exit => panic!("the worker has not been told to exit"),
        }
    }
}

fn started(dispatch: Dispatch) -> (Worker, Job) {
    match dispatch {
        Dispatch::Start { worker, task } => (worker, task),
        Dispatch::Queued => panic!("the task was queued"),
    }
}

fn counting(counter: &Arc<AtomicUsize>) -> impl FnOnce() + Send + Sync + 'static {
    let counter = counter.clone();
    move || {
        counter.fetch_add(1, Ordering::SeqCst);
    }
}

fn is_return(action: JoinAction) -> bool {
    matches!(action, JoinAction::Return)
}

/// A task that is no function.
struct Adder {
    counter: Arc<AtomicUsize>,
    amount: usize,
}

impl Task<()> for Adder {
    fn run(self) {
        self.counter.fetch_add(self.amount, Ordering::SeqCst);
    }

    fn as_fn(self) -> Option<BoxedFunction<()>> {
        None
    }

    fn is_fn(&self) -> bool {
        false
    }
}

/// A function that does nothing.
struct Nothing;

impl Function<()> for Nothing {
    fn call(self: Box<Self>) {}
}

#[test]
fn test_empty_join() {
    let pool = ThreadPool::new(&Numbering::new(), 3, 10, Duration::from_secs(10));
    assert!(is_return(pool.join()));
}

#[test]
fn test_empty_shutdown_join() {
    let pool = ThreadPool::new(&Numbering::new(), 1, 5, Duration::from_secs(5));
    assert!(is_return(pool.shutdown_join()));
}

#[test]
fn pools_are_numbered() {
    let counter = Numbering::new();
    let first = ThreadPool::new(&counter, 2, 10, Duration::from_secs(5));
    let second = ThreadPool::new(&counter, 2, 10, Duration::from_secs(5));
    assert_eq!(first.get_name(), "rusty_pool_1");
    assert_eq!(second.get_name(), "rusty_pool_2");
    assert_eq!(pool_of(1, 1).get_name(), "test");
}

#[test]
fn sizes_are_checked() {
    assert!(!are_valid_sizes(0, 0));
    assert!(!are_valid_sizes(2, 1));
    assert!(are_valid_sizes(0, 1));
    assert!(are_valid_sizes(3, 3));
    assert!(are_valid_sizes(3, 10));
}

#[test]
fn a_new_pool_has_no_workers() {
    let pool = pool_of(2, 4);
    assert_eq!(pool.get_current_worker_count(), 0);
    assert_eq!(pool.get_idle_worker_count(), 0);
}

#[test]
fn tasks_are_placed_by_the_counts() {
    let pool = pool_of(2, 4);
    assert!(matches!(pool.place((0, 0)), Placement::Core));
    assert!(matches!(pool.place((1, 1)), Placement::Core));
    assert!(matches!(pool.place((2, 0)), Placement::Extra));
    assert!(matches!(pool.place((3, 0)), Placement::Extra));
    assert!(matches!(pool.place((3, 1)), Placement::Channel));
    assert!(matches!(pool.place((4, 0)), Placement::Channel));
    assert!(pool.recheck_core((1, 0)));
    assert!(!pool.recheck_core((2, 0)));
    assert!(pool.recheck_non_core((3, 0)));
    assert!(!pool.recheck_non_core((3, 1)));
    assert!(!pool.recheck_non_core((4, 0)));
}

#[test]
fn the_pool_grows_to_its_core_size_and_then_to_its_max_size() {
    let pool = pool_of(2, 4);
    let counter = Arc::new(AtomicUsize::new(0));
    let mut workers = Vec::new();
    for i in 0..4 {
        let (worker, job) = started(pool.execute(counting(&counter)));
        let limit = if i < 2 { None } else { Some(Duration::from_secs(5)) };
        assert_eq!(worker.wait_limit(), limit);
        assert_eq!(pool.get_current_worker_count(), i + 1);
        assert_eq!(pool.get_idle_worker_count(), 0);
        workers.push((worker, job));
    }
    for _ in 0..3 {
        assert!(matches!(pool.execute(counting(&counter)), Dispatch::Queued));
        assert_eq!(pool.get_current_worker_count(), 4);
    }
    assert_eq!(counter.load(Ordering::SeqCst), 0);
    assert!(!is_return(pool.join()));

    let mut notified = Vec::new();
    for (worker, job) in workers {
        notified.push(work(&worker, Some(job)).0);
    }
    assert_eq!(counter.load(Ordering::SeqCst), 7);
    // only the last worker to become idle notifies
    assert_eq!(notified, vec![0, 0, 0, 1]);
    assert_eq!(pool.get_current_worker_count(), 4);
    assert_eq!(pool.get_idle_worker_count(), 4);
    assert!(is_return(pool.join()));
}

#[test]
fn a_core_worker_is_created_even_if_another_is_idle() {
    let pool = pool_of(2, 4);
    let counter = Arc::new(AtomicUsize::new(0));
    let (worker, job) = started(pool.execute(counting(&counter)));
    assert_eq!(work(&worker, Some(job)), (1, None));
    assert_eq!(pool.get_idle_worker_count(), 1);
    let (other, job) = started(pool.execute(counting(&counter)));
    assert_eq!(work(&other, Some(job)), (1, None));
    // the core pool is full and somebody is idle
    assert!(matches!(pool.execute(counting(&counter)), Dispatch::Queued));
    assert!(!is_return(pool.join()));
    assert_eq!(work(&worker, None), (1, None));
    assert_eq!(counter.load(Ordering::SeqCst), 3);
    assert!(is_return(pool.join()));
}

#[test]
fn tasks_that_are_no_functions_are_run() {
    let pool = pool_of(1, 1);
    let counter = Arc::new(AtomicUsize::new(0));
    let sent = pool.try_execute(Adder { counter: counter.clone(), amount: 30 });
    let (worker, job) = started(sent.ok().unwrap());
    assert!(matches!(
        pool.try_execute(Adder { counter: counter.clone(), amount: 12 }),
        Ok(Dispatch::Queued)
    ));
    assert_eq!(work(&worker, Some(job)).0, 1);
    assert_eq!(counter.load(Ordering::SeqCst), 42);
}

#[test]
fn closures_are_functions() {
    let task = || 5usize;
    assert!(Task::<usize>::is_fn(&task));
    assert_eq!(Task::<usize>::run(task), 5);
    assert_eq!(Task::<usize>::as_fn(task).unwrap().call(), 5);
}

#[test]
fn the_handle_gives_the_result() {
    let pool = pool_of(0, 3);
    let count = AtomicUsize::new(0);
    let (dispatch, handle) = pool.evaluate(move || {
        count.fetch_add(1, Ordering::SeqCst);
        count.fetch_add(1, Ordering::SeqCst)
    });
    let (worker, job) = started(dispatch);
    let mut receiver = handle.into_receiver();
    assert_eq!(receiver.try_recv(), Ok(None));
    assert_eq!(work(&worker, Some(job)), (1, Some(Duration::from_secs(5))));
    assert_eq!(receiver.try_recv(), Ok(Some(1)));
}

#[test]
fn a_queued_task_gives_its_result_too() {
    let pool = pool_of(1, 1);
    let (dispatch, first) = pool.evaluate(|| 20000usize);
    let (worker, job) = started(dispatch);
    let (dispatch, second) = pool.try_evaluate(|| String::from("result")).ok().unwrap();
    assert!(matches!(dispatch, Dispatch::Queued));
    work(&worker, Some(job));
    assert_eq!(first.into_receiver().try_recv(), Ok(Some(20000)));
    assert_eq!(second.into_receiver().try_recv(), Ok(Some(String::from("result"))));
}

#[test]
fn a_task_whose_job_is_dropped_is_cancelled() {
    let pool = pool_of(0, 3);
    let (dispatch, handle) = pool.evaluate(|| 3);
    drop(dispatch);
    assert!(handle.into_receiver().try_recv().is_err());
}

#[test]
fn nobody_has_to_be_interested_in_the_result() {
    let pool = pool_of(1, 1);
    let counter = Arc::new(AtomicUsize::new(0));
    let clone = counter.clone();
    let (dispatch, handle) = pool.evaluate(move || clone.fetch_add(5, Ordering::SeqCst));
    drop(handle);
    let (worker, job) = started(dispatch);
    assert_eq!(work(&worker, Some(job)).0, 1);
    assert_eq!(counter.load(Ordering::SeqCst), 5);
    assert_eq!(pool.get_current_worker_count(), 1);
    assert_eq!(pool.get_idle_worker_count(), 1);
}

#[test]
fn threads_are_numbered_within_their_pool() {
    let pool = pool_of(2, 2);
    let (first, _job) = started(pool.execute(|| {}));
    let (second, _job) = started(pool.execute(|| {}));
    assert_eq!(first.thread_name(), "test_thread_1");
    assert_eq!(second.thread_name(), "test_thread_2");
    assert_eq!(pool_of(1, 1).get_name(), "test");
    assert_eq!(first.clone().thread_name(), "test_thread_3");
}

#[test]
fn a_worker_that_waits_in_vain_leaves() {
    let pool = pool_of(0, 1);
    let (worker, job) = started(pool.execute(|| {}));
    assert_eq!(work(&worker, Some(job)), (1, Some(Duration::from_secs(5))));
    assert_eq!((pool.get_current_worker_count(), pool.get_idle_worker_count()), (1, 1));
    let mut sentinel = Sentinel::new();
    assert!(matches!(
        worker.next_action(&mut sentinel, WorkerEvent::NothingReceived),
        WorkerAction::Exit
    ));
    assert_eq!((pool.get_current_worker_count(), pool.get_idle_worker_count()), (0, 0));
    assert!(worker.recover(&sentinel, false).is_none());
    // there is room for another worker again
    let _worker = started(pool.execute(|| {}));
    assert_eq!((pool.get_current_worker_count(), pool.get_idle_worker_count()), (1, 0));
}

#[test]
fn an_idle_pool_shrinks_to_its_core_size() {
    let pool = pool_of(2, 4);
    let counter = Arc::new(AtomicUsize::new(0));
    let mut workers = Vec::new();
    for _ in 0..4 {
        workers.push(started(pool.execute(counting(&counter))));
    }
    for (worker, job) in workers {
        let (_, limit) = work(&worker, Some(job));
        if limit.is_some() {
            worker.next_action(&mut Sentinel::new(), WorkerEvent::NothingReceived);
        }
    }
    assert_eq!(counter.load(Ordering::SeqCst), 4);
    assert_eq!(pool.get_current_worker_count(), 2);
    assert_eq!(pool.get_idle_worker_count(), 2);
    assert!(is_return(pool.join()));
}

#[test]
fn a_worker_that_panics_in_a_task_is_replaced() {
    let pool = pool_of(1, 1);
    let counter = Arc::new(AtomicUsize::new(0));
    let (worker, job) = started(pool.execute(|| {}));
    let mut sentinel = Sentinel::new();
    let action = worker.next_action(&mut sentinel, WorkerEvent::Started(Some(job)));
    assert!(matches!(action, WorkerAction::Execute(_)));
    // the task panics
    let recovery = worker.recover(&sentinel, true).unwrap();
    assert!(recovery.notify);
    assert_eq!((pool.get_current_worker_count(), pool.get_idle_worker_count()), (1, 1));
    drop(worker);
    // the clone goes on with what is in the channel
    assert!(matches!(pool.execute(counting(&counter)), Dispatch::Queued));
    assert_eq!(work(&recovery.replacement, None), (1, None));
    assert_eq!(counter.load(Ordering::SeqCst), 1);
}

#[test]
fn a_worker_that_panics_with_work_left_does_not_notify() {
    let pool = pool_of(1, 1);
    let (worker, job) = started(pool.execute(|| {}));
    assert!(matches!(pool.execute(|| {}), Dispatch::Queued));
    let mut sentinel = Sentinel::new();
    let action = worker.next_action(&mut sentinel, WorkerEvent::Started(Some(job)));
    assert!(matches!(action, WorkerAction::Execute(_)));
    let recovery = worker.recover(&sentinel, true).unwrap();
    assert!(!recovery.notify);
}

#[test]
fn a_worker_that_panics_without_a_task_is_replaced_as_it_is() {
    let pool = pool_of(1, 1);
    let (worker, job) = started(pool.execute(|| {}));
    work(&worker, Some(job));
    let recovery = worker.recover(&Sentinel::new(), true).unwrap();
    assert!(!recovery.notify);
    assert_eq!((pool.get_current_worker_count(), pool.get_idle_worker_count()), (1, 1));
}

#[test]
fn clones_share_channel_and_workers() {
    let pool = pool_of(1, 1);
    let clone = pool.clone();
    let counter = Arc::new(AtomicUsize::new(0));
    let (worker, job) = started(pool.execute(counting(&counter)));
    assert_eq!(clone.get_current_worker_count(), 1);
    assert_eq!(clone.get_name(), "test");
    pool.shutdown();
    // the clone keeps the channel connected
    assert!(matches!(clone.execute(counting(&counter)), Dispatch::Queued));
    assert_eq!(work(&worker, Some(job)).0, 1);
    assert_eq!(counter.load(Ordering::SeqCst), 2);
}

#[test]
fn queued_tasks_outlive_the_pool() {
    let pool = pool_of(1, 1);
    let counter = Arc::new(AtomicUsize::new(0));
    let (worker, job) = started(pool.execute(counting(&counter)));
    for _ in 0..14 {
        assert!(matches!(pool.execute(counting(&counter)), Dispatch::Queued));
    }
    assert!(matches!(
        pool.shutdown_join_timeout(Duration::from_secs(7)),
        JoinAction::Wait(Some(timeout)) if timeout == Duration::from_secs(7)
    ));
    assert_eq!(work(&worker, Some(job)).0, 1);
    assert_eq!(counter.load(Ordering::SeqCst), 15);
    // now that the sender is gone, the channel is broken
    assert!(worker.job_receiver().inner().recv().is_err());
}

#[test]
fn workers_can_be_joined_after_the_pool_is_gone() {
    let pool = pool_of(1, 1);
    let counter = Arc::new(AtomicUsize::new(0));
    let (worker, job) = started(pool.execute(counting(&counter)));
    let point = pool.into_join_point();
    assert!(matches!(point.ask(None), JoinAction::Wait(None)));
    assert!(matches!(
        point.ask(Some(Duration::from_secs(4))),
        JoinAction::Wait(Some(time_out)) if time_out == Duration::from_secs(4)
    ));
    assert_eq!(work(&worker, Some(job)).0, 1);
    assert!(is_return(point.ask(None)));
    assert!(worker.job_receiver().inner().recv().is_err());
}

#[test]
fn a_worker_looks_at_the_channel_after_it_has_counted() {
    let pool = pool_of(1, 1);
    let (worker, _job) = started(pool.execute(|| {}));
    assert!(worker.look_for_more((1, 0)));
    assert!(!worker.look_for_more((2, 0)));
    assert!(matches!(pool.execute(|| {}), Dispatch::Queued));
    assert!(!worker.look_for_more((1, 0)));
    assert!(!worker.mark_idle_and_notify_joiners_if_no_work());
    assert_eq!((pool.get_current_worker_count(), pool.get_idle_worker_count()), (1, 1));
}

#[test]
fn workers_move_the_counters_by_what_happens() {
    let job = || BoxedFunction::new(Nothing);
    let started = WorkerEvent::Started(Some(job()));
    assert!(matches!(counter_move_of(&started), CounterMove::Stay));
    assert!(matches!(counter_move_of(&WorkerEvent::Started(None)), CounterMove::Stay));
    let received = WorkerEvent::Received(job());
    assert!(matches!(counter_move_of(&received), CounterMove::IdleDown));
    assert!(matches!(counter_move_of(&WorkerEvent::Finished), CounterMove::IdleUp));
    assert!(matches!(counter_move_of(&WorkerEvent::NothingReceived), CounterMove::BothDown));
}

#[test]
fn a_worker_that_ends_moves_the_counters_only_if_it_panics_in_a_task() {
    let pool = pool_of(1, 1);
    let (worker, job) = started(pool.execute(|| {}));
    let mut sentinel = Sentinel::new();
    assert!(matches!(sentinel.counter_move_on_end(true), CounterMove::Stay));
    worker.next_action(&mut sentinel, WorkerEvent::Started(Some(job)));
    assert_eq!((pool.get_current_worker_count(), pool.get_idle_worker_count()), (1, 0));
    assert!(matches!(sentinel.counter_move_on_end(true), CounterMove::IdleUp));
    assert!(matches!(sentinel.counter_move_on_end(false), CounterMove::Stay));
    assert!(worker.recover(&sentinel, false).is_none());
    assert_eq!((pool.get_current_worker_count(), pool.get_idle_worker_count()), (1, 0));
}

#[test]
fn joins_wait_for_as_long_as_they_are_told() {
    let pool = pool_of(1, 1);
    let (_worker, _job) = started(pool.execute(|| {}));
    assert!(matches!(pool.join(), JoinAction::Wait(None)));
    assert!(matches!(
        pool.join_timeout(Duration::from_secs(3)),
        JoinAction::Wait(Some(time_out)) if time_out == Duration::from_secs(3)
    ));
    assert!(matches!(pool.shutdown_join(), JoinAction::Wait(None)));
}

#[test]
fn joins_are_decided_by_counts_and_channel() {
    assert!(is_return(decide_join((0, 0), true, None)));
    assert!(is_return(decide_join((3, 3), true, None)));
    assert!(!is_return(decide_join((3, 3), false, None)));
    assert!(!is_return(decide_join((3, 2), true, None)));
}

#[test]
fn the_last_of_a_generation_sees_all_others_idle() {
    assert!(is_last_of_generation((1, 0), true));
    assert!(is_last_of_generation((3, 2), true));
    assert!(!is_last_of_generation((3, 2), false));
    assert!(!is_last_of_generation((3, 1), true));
    assert!(!is_last_of_generation((3, 3), true));
    assert!(!is_last_of_generation((0, u32::MAX), true));
}
