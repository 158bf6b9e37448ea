//! Configuration of new pools, with default values where none are specified.
use crate::naming::Numbering;
use crate::pool::are_valid_sizes;
use crate::pool::ThreadPool;
use std::time::Duration;
use vstd::prelude::*;

verus! {

/// What `Duration::from_secs` makes of a number of seconds.
pub uninterp spec fn seconds(secs: u64) -> Duration;

/// Trusted: `std::time::Duration::from_secs`. The duration depends on the number of seconds
/// alone.
#[verifier::external_body]
fn from_secs(secs: u64) -> (duration: Duration)
    ensures
        duration == seconds(secs),
{
    Duration::from_secs(secs)
}

/// Trusted: `num_cpus::get`. There is always at least one CPU. How many there are depends on the
/// machine, so nothing else is claimed.
#[verifier::external_body]
fn count_cpus() -> (cpus: usize)
    ensures
        cpus >= 1,
{
    num_cpus::get()
}

/// The number of CPUs was looked up, and this is what was found.
pub closed spec fn counted(cpus: usize) -> bool {
    call_ensures(count_cpus, (), cpus)
}

/// Why a pool could not be built.
#[derive(Clone, Copy, Debug, PartialEq, Eq, Structural)]
pub enum BuildError {
    /// The max size that goes with the core size by default is out of range.
    MaxSizeOverflow,
    /// max_size must be greater than 0 and greater or equal to the core pool size.
    InvalidSizes,
}

/// The outcome of building a pool with these parameters: an error if the max size is out of
/// range or the sizes are not valid, else a pool that has the name or, by default, one made of
/// the next pool number.
pub open spec fn built(
    pool_counter: &Numbering,
    name: Option<Seq<char>>,
    core_size: u32,
    max_size: int,
    keep_alive: Duration,
    outcome: Result<ThreadPool, BuildError>,
) -> bool {
    if max_size > u32::MAX {
        outcome == Err::<ThreadPool, BuildError>(BuildError::MaxSizeOverflow)
    } else if !crate::pool::valid_sizes(core_size, max_size as u32) {
        outcome == Err::<ThreadPool, BuildError>(BuildError::InvalidSizes)
    } else {
        &&& outcome matches Ok(pool)
        &&& match name {
            Some(name) => pool.fresh(name, core_size, max_size as u32, keep_alive),
            None => exists|number: usize| #[trigger]
                pool_counter.handed_out(number) && pool.fresh(
                    crate::naming::pool_name(number as nat),
                    core_size,
                    max_size as u32,
                    keep_alive,
                ),
        }
    }
}

/// What has been specified to a `Builder`.
pub struct Settings {
    pub name: Option<Seq<char>>,
    pub core_size: Option<u32>,
    pub max_size: Option<u32>,
    pub keep_alive: Option<Duration>,
}

impl Settings {
    /// The core size of a pool with these settings: the number of CPUs if none is specified.
    pub open spec fn core_size_or_default(&self, cpus: usize) -> u32 {
        match self.core_size {
            Some(core_size) => core_size,
            None => cpus as u32,
        }
    }

    /// The max size of a pool with these settings: 4 times the core size if none is specified.
    pub open spec fn max_size_or_default(&self, cpus: usize) -> int {
        match self.max_size {
            Some(max_size) => max_size as int,
            None => self.core_size_or_default(cpus) * 4,
        }
    }

    /// The keep_alive time of a pool with these settings: 60 seconds if none is specified.
    pub open spec fn keep_alive_or_default(&self) -> Duration {
        match self.keep_alive {
            Some(keep_alive) => keep_alive,
            None => seconds(60),
        }
    }

    /// The outcome of building a pool with these settings on a machine with `cpus` CPUs.
    pub open spec fn built(
        &self,
        pool_counter: &Numbering,
        cpus: usize,
        outcome: Result<ThreadPool, BuildError>,
    ) -> bool {
        built(
            pool_counter,
            self.name,
            self.core_size_or_default(cpus),
            self.max_size_or_default(cpus),
            self.keep_alive_or_default(),
            outcome,
        )
    }
}

/// The characters of a name, if there is one.
pub open spec fn characters(name: Option<String>) -> Option<Seq<char>> {
    match name {
        Some(name) => Some(name@),
        None => None,
    }
}

/// A helper struct to aid creating a new `ThreadPool` using default values where no value was
/// explicitly specified.
pub struct Builder {
    name: Option<String>,
    core_size: Option<u32>,
    max_size: Option<u32>,
    keep_alive: Option<Duration>,
}

impl View for Builder {
    type V = Settings;

    closed spec fn view(&self) -> Settings {
        Settings {
            name: characters(self.name),
            core_size: self.core_size,
            max_size: self.max_size,
            keep_alive: self.keep_alive,
        }
    }
}

impl Builder {
    /// Create a new `Builder`.
    pub fn new() -> (builder: Builder)
        ensures
            builder@ == (Settings { name: None, core_size: None, max_size: None, keep_alive: None }),
    {
        Builder::default()
    }

    /// Specify the name of the `ThreadPool` that will be used as prefix for the name of each
    /// worker thread. By default the name is "rusty_pool_x" with x being a pool counter.
    pub fn name(self, name: String) -> (builder: Builder)
        ensures
            builder@ == (Settings { name: Some(name@), ..self@ }),
    {
        Builder { name: Some(name), ..self }
    }

    /// Specify the core pool size for the `ThreadPool`. The core pool size is the number of
    /// threads that stay alive for the entire lifetime of the `ThreadPool` or, to be more precise,
    /// its channel. These threads are spawned if a task is submitted to the `ThreadPool` and the
    /// current worker count is below the core pool size.
    pub fn core_size(self, size: u32) -> (builder: Builder)
        ensures
            builder@ == (Settings { core_size: Some(size), ..self@ }),
    {
        Builder { core_size: Some(size), ..self }
    }

    /// Specify the maximum pool size this `ThreadPool` may scale up to. This numbers represents
    /// the maximum number of threads that may be alive at the same time within this pool.
    /// Additional threads above the core pool size only remain idle for the duration specified by
    /// the `keep_alive` parameter before terminating. If the core pool is full, the current pool
    /// size is below the max size and there are no idle threads then additional threads will be
    /// spawned.
    pub fn max_size(self, size: u32) -> (builder: Builder)
        ensures
            builder@ == (Settings { max_size: Some(size), ..self@ }),
    {
        Builder { max_size: Some(size), ..self }
    }

    /// Specify the duration for which additional threads outside the core pool remain alive while
    /// not receiving any work before giving up and terminating.
    pub fn keep_alive(self, keep_alive: Duration) -> (builder: Builder)
        ensures
            builder@ == (Settings { keep_alive: Some(keep_alive), ..self@ }),
    {
        Builder { keep_alive: Some(keep_alive), ..self }
    }

    /// Build the `ThreadPool` using the parameters previously supplied to this `Builder` using the
    /// number of CPUs as default core size if none provided, 4 times the core size as max size if
    /// none provided, 60 seconds keep_alive if none provided and the default naming, with the next
    /// number of `pool_counter`, if none provided.
    ///
    /// # Errors
    ///
    /// Building fails if the `max_size` is 0 or lower than `core_size`, or if there is no
    /// `max_size` and 4 times the core size is out of range.
    pub fn build(self, pool_counter: &Numbering) -> (outcome: Result<ThreadPool, BuildError>)
        ensures
            exists|cpus: usize| #[trigger]
                self@.built(pool_counter, cpus, outcome) && cpus >= 1 && counted(cpus)
                    && (self@.core_size is None && self@.max_size is None && 4 * cpus <= u32::MAX
                    ==> (outcome matches Ok(pool) && pool.core_bound() == cpus && pool.max_bound()
                    == 4 * cpus)),
            ({
                &&& self@.core_size matches Some(core)
                &&& self@.max_size is None
                &&& 0 < core && 4 * core <= u32::MAX
            }) ==> (outcome matches Ok(pool) && pool.core_bound() == self@.core_size->0
                && pool.max_bound() == 4 * self@.core_size->0),
    {
        let cpus: usize = count_cpus();
        let outcome: Result<ThreadPool, BuildError> = self.build_for(pool_counter, cpus);
        assert(self@.built(pool_counter, cpus, outcome));
        outcome
    }

    /// Build the `ThreadPool` like `build`, for a machine with `cpus` CPUs.
    pub fn build_for(self, pool_counter: &Numbering, cpus: usize) -> (outcome: Result<
        ThreadPool,
        BuildError,
    >)
        ensures
            self@.built(pool_counter, cpus, outcome),
            ({
                &&& self@.core_size matches Some(core)
                &&& self@.max_size is None
                &&& 0 < core && 4 * core <= u32::MAX
            }) ==> (outcome matches Ok(pool) && pool.core_bound() == self@.core_size->0
                && pool.max_bound() == 4 * self@.core_size->0),
            self@.core_size is None && self@.max_size is None && 0 < cpus && 4 * cpus <= u32::MAX
                ==> (outcome matches Ok(pool) && pool.core_bound() == cpus && pool.max_bound() == 4
                * cpus),
            self@.keep_alive is None ==> (outcome matches Ok(pool) ==> pool.limit() == seconds(60)),
    {
        let core_size: u32 = self.core_size.unwrap_or(cpus as u32);
        let max_size: u64 = match self.max_size {
            Some(max_size) => max_size as u64,
            None => core_size as u64 * 4,
        };
        let keep_alive: Duration = self.keep_alive.unwrap_or(from_secs(60));
        build_pool(pool_counter, self.name, core_size, max_size, keep_alive)
    }
}

impl Default for Builder {
    /// A `Builder` to which nothing has been specified.
    fn default() -> (builder: Builder)
        ensures
            builder@ == (Settings { name: None, core_size: None, max_size: None, keep_alive: None }),
    {
        Builder { name: None, core_size: None, max_size: None, keep_alive: None }
    }
}

/// A builder without a max size builds a pool whose max size is 4 times its core size, whether
/// the core size is given or is the number of CPUs. It fails if that is out of range, or if the
/// core size is 0.
pub proof fn law_max_size_is_four_times_the_core_size(
    settings: Settings,
    pool_counter: &Numbering,
    cpus: usize,
    core_size: u32,
    outcome: Result<ThreadPool, BuildError>,
)
    requires
        settings.built(pool_counter, cpus, outcome),
        settings.max_size is None,
        settings.core_size == Some(core_size) || (settings.core_size is None && cpus == core_size),
    ensures
        0 < core_size && 4 * core_size <= u32::MAX ==> (outcome matches Ok(pool)
            && pool.core_bound() == core_size && pool.max_bound() == 4 * core_size),
        4 * core_size > u32::MAX ==> (outcome matches Err(error) && error
            == BuildError::MaxSizeOverflow),
        core_size == 0 ==> (outcome matches Err(error) && error == BuildError::InvalidSizes),
{
}

/// A builder with both sizes builds a pool with these sizes, whatever the number of CPUs. It
/// fails if and only if the max size is 0 or lower than the core size.
pub proof fn law_given_sizes_are_kept(
    settings: Settings,
    pool_counter: &Numbering,
    cpus: usize,
    core_size: u32,
    max_size: u32,
    outcome: Result<ThreadPool, BuildError>,
)
    requires
        settings.built(pool_counter, cpus, outcome),
        settings.core_size == Some(core_size),
        settings.max_size == Some(max_size),
    ensures
        max_size >= 1 && max_size >= core_size ==> (outcome matches Ok(pool) && pool.core_bound()
            == core_size && pool.max_bound() == max_size),
        max_size == 0 || max_size < core_size ==> (outcome matches Err(error) && error
            == BuildError::InvalidSizes),
{
}

/// A builder with a max size alone builds a pool with that max size and the number of CPUs as
/// core size, if it is not larger.
pub proof fn law_core_size_is_number_of_cpus(
    settings: Settings,
    pool_counter: &Numbering,
    cpus: usize,
    max_size: u32,
    outcome: Result<ThreadPool, BuildError>,
)
    requires
        settings.built(pool_counter, cpus, outcome),
        settings.core_size is None,
        settings.max_size == Some(max_size),
        cpus <= u32::MAX,
    ensures
        max_size >= 1 && cpus <= max_size ==> (outcome matches Ok(pool) && pool.core_bound() == cpus
            && pool.max_bound() == max_size),
        max_size == 0 || cpus > max_size ==> outcome is Err,
{
}

/// A pool that is built has the keep_alive time and the name that were given, or else 60 seconds
/// and a name made of the next pool number, and no workers.
pub proof fn law_name_and_keep_alive_are_kept(
    settings: Settings,
    pool_counter: &Numbering,
    cpus: usize,
    pool: ThreadPool,
)
    requires
        settings.built(pool_counter, cpus, Ok::<ThreadPool, BuildError>(pool)),
    ensures
        settings.keep_alive matches Some(keep_alive) ==> pool.limit() == keep_alive,
        settings.keep_alive is None ==> pool.limit() == seconds(60),
        settings.name matches Some(name) ==> pool.data().name() == name,
        settings.name is None ==> exists|number: usize| #[trigger]
            pool_counter.handed_out(number) && pool.data().name() == "rusty_pool_"@
                + crate::naming::decimal(number as nat),
        pool.data().counts()@[0] == (0u32, 0u32),
{
}

/// The default pool has as many core workers as there are CPUs, room for twice as many workers,
/// and a keep_alive time of 60 seconds.
pub proof fn law_default_pool_in_numbers(
    pool_counter: &Numbering,
    cpus: usize,
    outcome: Result<ThreadPool, BuildError>,
)
    requires
        ThreadPool::built_by_default(pool_counter, cpus, outcome),
        cpus <= u32::MAX,
    ensures
        0 < cpus && 2 * cpus <= u32::MAX ==> (outcome matches Ok(pool) && pool.core_bound() == cpus
            && pool.max_bound() == 2 * cpus && pool.limit() == seconds(60)),
        cpus == 0 ==> (outcome matches Err(error) && error == BuildError::InvalidSizes),
        2 * cpus > u32::MAX ==> (outcome matches Err(error) && error
            == BuildError::MaxSizeOverflow),
{
}

/// A pool with these parameters, if they allow for one.
fn build_pool(
    pool_counter: &Numbering,
    name: Option<String>,
    core_size: u32,
    max_size: u64,
    keep_alive: Duration,
) -> (outcome: Result<ThreadPool, BuildError>)
    ensures
        built(pool_counter, characters(name), core_size, max_size as int, keep_alive, outcome),
        outcome is Ok <==> max_size <= u32::MAX && max_size >= 1 && core_size <= max_size,
        outcome matches Ok(pool) ==> pool.core_bound() == core_size && pool.max_bound() == max_size
            && pool.limit() == keep_alive,
{
    if max_size > u32::MAX as u64 {
        return Err(BuildError::MaxSizeOverflow);
    }
    let max_size: u32 = max_size as u32;
    if !are_valid_sizes(core_size, max_size) {
        return Err(BuildError::InvalidSizes);
    }
    match name {
        Some(name) => Ok(ThreadPool::new_named(name, core_size, max_size, keep_alive)),
        None => Ok(ThreadPool::new(pool_counter, core_size, max_size, keep_alive)),
    }
}

impl ThreadPool {
    /// The outcome of creating the default pool on a machine with `cpus` CPUs: one with the core
    /// pool size being equal to the number of cpus and the max_size being twice the core size
    /// with a 60 second timeout.
    pub open spec fn built_by_default(
        pool_counter: &Numbering,
        cpus: usize,
        outcome: Result<ThreadPool, BuildError>,
    ) -> bool {
        built(pool_counter, None, cpus as u32, (cpus as u32) * 2, seconds(60), outcome)
    }

    /// create default ThreadPool with the core pool size being equal to the number of cpus
    /// and the max_size being twice the core size with a 60 second timeout
    pub fn with_defaults(pool_counter: &Numbering) -> (outcome: Result<ThreadPool, BuildError>)
        ensures
            exists|cpus: usize| #[trigger]
                ThreadPool::built_by_default(pool_counter, cpus, outcome) && cpus >= 1 && counted(
                    cpus,
                ) && (2 * cpus <= u32::MAX ==> (outcome matches Ok(pool) && pool.core_bound()
                    == cpus && pool.max_bound() == 2 * cpus && pool.limit() == seconds(60))),
    {
        let cpus: usize = count_cpus();
        let outcome: Result<ThreadPool, BuildError> = ThreadPool::with_defaults_for(
            pool_counter,
            cpus,
        );
        assert(ThreadPool::built_by_default(pool_counter, cpus, outcome));
        outcome
    }

    /// Create the default pool like `with_defaults`, for a machine with `cpus` CPUs.
    pub fn with_defaults_for(pool_counter: &Numbering, cpus: usize) -> (outcome: Result<
        ThreadPool,
        BuildError,
    >)
        ensures
            ThreadPool::built_by_default(pool_counter, cpus, outcome),
            0 < cpus && 2 * cpus <= u32::MAX ==> (outcome matches Ok(pool) && pool.core_bound()
                == cpus && pool.max_bound() == 2 * cpus && pool.limit() == seconds(60)),
    {
        let core_size: u32 = cpus as u32;
        build_pool(pool_counter, None, core_size, core_size as u64 * 2, from_secs(60))
    }
}

} // verus!
