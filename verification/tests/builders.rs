use rusty_pool::builder::BuildError;
use rusty_pool::naming::Numbering;
use rusty_pool::pool::Dispatch;
use rusty_pool::Builder;
use rusty_pool::ThreadPool;
use std::time::Duration;

/// How many workers the pool starts until it queues a task, those of the core pool and those
/// beyond it, and how long the latter wait.
fn grow(pool: &ThreadPool) -> (usize, usize, Option<Duration>) {
    let mut core = 0;
    let mut extra = 0;
    let mut keep_alive = None;
    loop {
        match pool.execute(|| {}) {
            Dispatch::Start { worker, .. } => match worker.wait_limit() {
                None => core += 1,
                limit => {
                    extra += 1;
                    keep_alive = limit;
                }
            },
            Dispatch::Queued => return (core, extra, keep_alive),
        }
    }
}

fn error_of(outcome: Result<ThreadPool, BuildError>) -> BuildError {
    match outcome {
        Ok(_) => panic!("the pool was built"),
        Err(error) => error,
    }
}

#[test]
fn everything_may_be_specified() {
    let counter = Numbering::new();
    let pool = Builder::new()
        .name(String::from("my_pool"))
        .core_size(5)
        .max_size(50)
        .keep_alive(Duration::from_secs(7))
        .build_for(&counter, 3)
        .unwrap_or_else(|_| panic!("the sizes are valid"));
    assert_eq!(pool.get_name(), "my_pool");
    assert_eq!(grow(&pool), (5, 45, Some(Duration::from_secs(7))));
    // a name was given, so no pool number was taken
    assert_eq!(counter.take(), 1);
}

#[test]
fn nothing_has_to_be_specified() {
    let counter = Numbering::new();
    let pool = Builder::new().build_for(&counter, 3).ok().unwrap();
    assert_eq!(pool.get_name(), "rusty_pool_1");
    assert_eq!(grow(&pool), (3, 9, Some(Duration::from_secs(60))));
    let pool = Builder::default().core_size(2).build_for(&counter, 3).ok().unwrap();
    assert_eq!(pool.get_name(), "rusty_pool_2");
    assert_eq!(grow(&pool), (2, 6, Some(Duration::from_secs(60))));
    let pool = Builder::new().max_size(4).build_for(&counter, 3).ok().unwrap();
    assert_eq!(grow(&pool), (3, 1, Some(Duration::from_secs(60))));
}

#[test]
fn the_number_of_cpus_is_looked_up() {
    let pool = Builder::new().build(&Numbering::new()).ok().unwrap();
    let (core, extra, keep_alive) = grow(&pool);
    assert_eq!(core, num_cpus::get());
    assert_eq!(extra, 3 * core);
    assert_eq!(keep_alive, Some(Duration::from_secs(60)));
}

#[test]
fn the_last_value_counts() {
    let pool = Builder::new()
        .core_size(9)
        .core_size(1)
        .max_size(9)
        .max_size(2)
        .build(&Numbering::new())
        .ok()
        .unwrap();
    assert_eq!(grow(&pool), (1, 1, Some(Duration::from_secs(60))));
}

#[test]
fn sizes_that_do_not_fit_are_refused() {
    let counter = Numbering::new();
    assert_eq!(
        error_of(Builder::new().core_size(0).max_size(0).build_for(&counter, 3)),
        BuildError::InvalidSizes
    );
    assert_eq!(
        error_of(Builder::new().core_size(4).max_size(3).build_for(&counter, 3)),
        BuildError::InvalidSizes
    );
    assert_eq!(
        error_of(Builder::new().core_size(0).build_for(&counter, 3)),
        BuildError::InvalidSizes
    );
    assert_eq!(
        error_of(Builder::new().core_size(0x4000_0000).build_for(&counter, 3)),
        BuildError::MaxSizeOverflow
    );
    assert!(Builder::new().core_size(0x3FFF_FFFF).build_for(&counter, 3).is_ok());
    assert!(Builder::new().core_size(u32::MAX).max_size(u32::MAX).build_for(&counter, 3).is_ok());
}

#[test]
fn the_default_pool_grows_to_twice_the_number_of_cpus() {
    let counter = Numbering::new();
    let pool = ThreadPool::with_defaults_for(&counter, 3).ok().unwrap();
    assert_eq!(pool.get_name(), "rusty_pool_1");
    assert_eq!(grow(&pool), (3, 3, Some(Duration::from_secs(60))));
    assert_eq!(error_of(ThreadPool::with_defaults_for(&counter, 0)), BuildError::InvalidSizes);
    assert_eq!(
        error_of(ThreadPool::with_defaults_for(&counter, 0x8000_0000)),
        BuildError::MaxSizeOverflow
    );
    let pool = ThreadPool::with_defaults(&counter).ok().unwrap();
    assert_eq!(grow(&pool).0, num_cpus::get());
}
