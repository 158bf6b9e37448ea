//! The worker counters: two 32-bit counts that share one atomic 64-bit word, the total number
//! of workers in the upper half and the number of idle workers in the lower half, so that both
//! can be read or moved in a single atomic operation.
use crate::pool::ThreadPool;
use crate::task::Job;
use std::sync::atomic::AtomicU64;
use std::sync::atomic::Ordering;
use vstd::prelude::*;
use vstd::wrapping::u64_specs;

verus! {

/// Selects the idle count, the lower half of the word.
pub const WORKER_IDLE_MASK: u64 = 0x0000_0000_FFFF_FFFF;

/// One worker more or less in both counts.
pub const ONE_IN_BOTH: u64 = 0x0000_0001_0000_0001;

/// One worker more or less in the total count.
pub const ONE_IN_TOTAL: u64 = 0x0000_0001_0000_0000;

/// One worker more or less in the idle count.
pub const ONE_IN_IDLE: u64 = 0x0000_0000_0000_0001;

/// The word that holds the counts `(total, idle)`.
pub open spec fn pack(counts: (u32, u32)) -> u64 {
    (counts.0 * 0x1_0000_0000 + counts.1) as u64
}

/// The counts `(total, idle)` that a word holds.
pub open spec fn unpack(word: u64) -> (u32, u32) {
    ((word as int / 0x1_0000_0000) as u32, (word as int % 0x1_0000_0000) as u32)
}

/// The counts after the total has moved by `total` and the idle count by `idle`, as the shared
/// word has it: the idle count carries into the total, and the word wraps around.
pub open spec fn shifted(counts: (u32, u32), total: int, idle: int) -> (u32, u32) {
    unpack(((pack(counts) + total * 0x1_0000_0000 + idle) % 0x1_0000_0000_0000_0000) as u64)
}

/// What a function may do to the counters stands in its `opens_invariants`: a function opens the
/// namespace of a step only if it may make that step. This is the namespace of the step that
/// moves the total by `total` and the idle count by `idle`.
pub open spec fn step(total: int, idle: int) -> int {
    total * 0x1_0000_0000 + idle
}

/// The namespace of the functions that move the counters whenever they are called, by no rule.
pub open spec fn at_will() -> int {
    0x2_0000_0000_0000_0000
}

/// The namespace of adding `val` to the word.
pub open spec fn raised_by(val: u64) -> int {
    val as int
}

/// The namespace of subtracting `val` from the word.
pub open spec fn lowered_by(val: u64) -> int {
    -(val as int)
}

/// The values that the cell holds over its whole life, in the order in which they are stored.
/// The first is the one that it was made with. Every atomic operation sees one of them.
pub uninterp spec fn words(cell: AtomicU64) -> Seq<u64>;

/// The cell holds `word` at some time.
pub open spec fn word_held(cell: AtomicU64, word: u64) -> bool {
    exists|i: int| 0 <= i < words(cell).len() && #[trigger] words(cell)[i] == word
}

/// The cell goes from `before` straight to `after` at some time.
pub open spec fn word_stepped(cell: AtomicU64, before: u64, after: u64) -> bool {
    exists|i: int|
        0 <= i && i + 1 < words(cell).len() && #[trigger] words(cell)[i] == before && words(cell)[i
            + 1] == after
}

/// Trusted: `AtomicU64::new`. The cell starts out with the given value.
#[verifier::external_body]
fn new_cell(word: u64) -> (cell: AtomicU64)
    ensures
        words(cell).len() > 0,
        words(cell)[0] == word,
    opens_invariants none
{
    AtomicU64::new(word)
}

/// Trusted: `AtomicU64::load`, sequentially consistent. The result is a value that the cell
/// holds. Which one depends on the other threads, so nothing else is claimed.
#[verifier::external_body]
fn load(cell: &AtomicU64) -> (word: u64)
    ensures
        word_held(*cell, word),
    opens_invariants none
{
    cell.load(Ordering::SeqCst)
}

/// Trusted: `AtomicU64::fetch_add`, sequentially consistent. The result is a value that the
/// cell holds, and the next value that it holds is the sum, wrapped around on overflow. Which
/// one depends on the other threads, so nothing else is claimed.
#[verifier::external_body]
fn fetch_add(cell: &AtomicU64, val: u64) -> (prev: u64)
    ensures
        word_stepped(*cell, prev, u64_specs::wrapping_add(prev, val)),
    opens_invariants [raised_by(val)]
{
    cell.fetch_add(val, Ordering::SeqCst)
}

/// Trusted: `AtomicU64::fetch_sub`, sequentially consistent. The result is a value that the
/// cell holds, and the next value that it holds is the difference, wrapped around on overflow.
/// Which one depends on the other threads, so nothing else is claimed.
#[verifier::external_body]
fn fetch_sub(cell: &AtomicU64, val: u64) -> (prev: u64)
    ensures
        word_stepped(*cell, prev, u64_specs::wrapping_sub(prev, val)),
    opens_invariants [lowered_by(val)]
{
    cell.fetch_sub(val, Ordering::SeqCst)
}

/// Struct that stores and handles an `AtomicU64` that stores the total worker count
/// in the higher 32 bits and the idle worker count in the lower 32 bits.
/// This allows to increment / decrement both counters in a single atomic operation.
pub struct WorkerCountData {
    worker_count: AtomicU64,
}

impl View for WorkerCountData {
    type V = Seq<(u32, u32)>;

    /// The counts `(total, idle)` that the counters hold over their whole life, in order.
    closed spec fn view(&self) -> Seq<(u32, u32)> {
        words(self.worker_count).map_values(|word: u64| unpack(word))
    }
}

impl WorkerCountData {
    /// The counters hold `counts` at some time.
    pub open spec fn held(&self, counts: (u32, u32)) -> bool {
        exists|i: int| 0 <= i < self@.len() && #[trigger] self@[i] == counts
    }

    /// The counters go from `before` straight to `after`, in one atomic operation.
    pub open spec fn stepped(&self, before: (u32, u32), after: (u32, u32)) -> bool {
        exists|i: int|
            0 <= i && i + 1 < self@.len() && #[trigger] self@[i] == before && self@[i + 1] == after
    }

    /// Right after the position `i` of their history, the counters go from `before` to `before`
    /// moved by `total` and `idle`.
    pub open spec fn moved_at(&self, i: int, before: (u32, u32), total: int, idle: int) -> bool {
        &&& 0 <= i && i + 1 < self@.len()
        &&& self@[i] == before
        &&& self@[i + 1] == shifted(before, total, idle)
    }

    /// The counters go from `before` to `before` moved by `total` and `idle`.
    pub open spec fn moved(&self, before: (u32, u32), total: int, idle: int) -> bool {
        self.stepped(before, shifted(before, total, idle))
    }

    /// Counts that the counters go from are counts that they hold.
    pub proof fn lemma_moved_from_held(&self, before: (u32, u32), total: int, idle: int)
        requires
            self.moved(before, total, idle),
        ensures
            self.held(before),
    {
        let after = shifted(before, total, idle);
        let i = choose|i: int|
            0 <= i && i + 1 < self@.len() && #[trigger] self@[i] == before && self@[i + 1]
                == after;
        assert(self@[i] == before);
    }

    proof fn lemma_word_held(&self, word: u64)
        requires
            word_held(self.worker_count, word),
        ensures
            self.held(unpack(word)),
    {
        let i = choose|i: int|
            0 <= i < words(self.worker_count).len() && #[trigger] words(self.worker_count)[i]
                == word;
        assert(self@[i] == unpack(word));
    }

    proof fn lemma_word_stepped(&self, before: u64, after: u64, total: int, idle: int)
        requires
            word_stepped(self.worker_count, before, after),
            after == (before + total * 0x1_0000_0000 + idle) % 0x1_0000_0000_0000_0000,
        ensures
            self.moved(unpack(before), total, idle),
    {
        let i = choose|i: int|
            0 <= i && i + 1 < words(self.worker_count).len()
                && #[trigger] words(self.worker_count)[i] == before && words(self.worker_count)[i
                + 1] == after;
        law_pack_unpack(before);
        assert(self@[i] == unpack(before));
        assert(self@[i + 1] == unpack(after));
    }

    /// The total worker count at some time.
    pub fn get_total_worker_count(&self) -> (total: u32)
        ensures
            exists|idle: u32| #[trigger] self.held((total, idle)),
        opens_invariants none
    {
        let curr_val: u64 = load(&self.worker_count);
        proof {
            self.lemma_word_held(curr_val);
            assert(self.held((unpack(curr_val).0, unpack(curr_val).1)));
        }
        WorkerCountData::get_total_count(curr_val)
    }

    /// The idle worker count at some time.
    pub fn get_idle_worker_count(&self) -> (idle: u32)
        ensures
            exists|total: u32| #[trigger] self.held((total, idle)),
        opens_invariants none
    {
        let curr_val: u64 = load(&self.worker_count);
        proof {
            self.lemma_word_held(curr_val);
            assert(self.held((unpack(curr_val).0, unpack(curr_val).1)));
        }
        WorkerCountData::get_idle_count(curr_val)
    }

    /// The total and the idle worker count, at one and the same time.
    pub fn get_both(&self) -> (both: (u32, u32))
        ensures
            self.held(both),
        opens_invariants none
    {
        let curr_val: u64 = load(&self.worker_count);
        proof {
            self.lemma_word_held(curr_val);
        }
        WorkerCountData::split(curr_val)
    }

    /// Counts one more worker, an idle one. Gives the counts from just before.
    pub fn increment_both(&self) -> (old_val: (u32, u32))
        ensures
            self.moved(old_val, 1, 1),
        opens_invariants [step(1, 1), at_will()]
    {
        let old_val: u64 = fetch_add(&self.worker_count, ONE_IN_BOTH);
        proof {
            self.lemma_word_stepped(
                old_val,
                u64_specs::wrapping_add(old_val, ONE_IN_BOTH),
                1,
                1,
            );
        }
        WorkerCountData::split(old_val)
    }

    /// Counts one worker less, an idle one. Gives the counts from just before.
    pub fn decrement_both(&self) -> (old_val: (u32, u32))
        ensures
            self.moved(old_val, -1, -1),
        opens_invariants [step(-1, -1), at_will()]
    {
        let old_val: u64 = fetch_sub(&self.worker_count, ONE_IN_BOTH);
        proof {
            self.lemma_word_stepped(
                old_val,
                u64_specs::wrapping_sub(old_val, ONE_IN_BOTH),
                -1,
                -1,
            );
        }
        WorkerCountData::split(old_val)
    }

    /// Counts one more worker. Gives the total from just before.
    pub fn increment_worker_total(&self) -> (old_total: u32)
        ensures
            exists|idle: u32| #[trigger] self.moved((old_total, idle), 1, 0),
        opens_invariants [step(1, 0), at_will()]
    {
        let old_val: u64 = fetch_add(&self.worker_count, ONE_IN_TOTAL);
        proof {
            self.lemma_word_stepped(
                old_val,
                u64_specs::wrapping_add(old_val, ONE_IN_TOTAL),
                1,
                0,
            );
            assert(self.moved((unpack(old_val).0, unpack(old_val).1), 1, 0));
        }
        WorkerCountData::get_total_count(old_val)
    }

    /// Counts one more worker. Gives both counts from just before, which is what the decision
    /// whether the new worker is still needed is made on.
    pub fn increment_worker_total_ret_both(&self) -> (old_val: (u32, u32))
        ensures
            self.moved(old_val, 1, 0),
        opens_invariants [step(1, 0), at_will()]
    {
        let old_val: u64 = fetch_add(&self.worker_count, ONE_IN_TOTAL);
        proof {
            self.lemma_word_stepped(
                old_val,
                u64_specs::wrapping_add(old_val, ONE_IN_TOTAL),
                1,
                0,
            );
        }
        WorkerCountData::split(old_val)
    }

    /// Counts one worker less. Gives the total from just before.
    pub fn decrement_worker_total(&self) -> (old_total: u32)
        ensures
            exists|idle: u32| #[trigger] self.moved((old_total, idle), -1, 0),
        opens_invariants [step(-1, 0), at_will()]
    {
        let old_val: u64 = fetch_sub(&self.worker_count, ONE_IN_TOTAL);
        proof {
            self.lemma_word_stepped(
                old_val,
                u64_specs::wrapping_sub(old_val, ONE_IN_TOTAL),
                -1,
                0,
            );
            assert(self.moved((unpack(old_val).0, unpack(old_val).1), -1, 0));
        }
        WorkerCountData::get_total_count(old_val)
    }

    /// Counts one worker less. Gives both counts from just before.
    pub fn decrement_worker_total_ret_both(&self) -> (old_val: (u32, u32))
        ensures
            self.moved(old_val, -1, 0),
        opens_invariants [step(-1, 0), at_will()]
    {
        let old_val: u64 = fetch_sub(&self.worker_count, ONE_IN_TOTAL);
        proof {
            self.lemma_word_stepped(
                old_val,
                u64_specs::wrapping_sub(old_val, ONE_IN_TOTAL),
                -1,
                0,
            );
        }
        WorkerCountData::split(old_val)
    }

    /// Counts one more idle worker. Gives the idle count from just before.
    pub fn increment_worker_idle(&self) -> (old_idle: u32)
        ensures
            exists|total: u32| #[trigger] self.moved((total, old_idle), 0, 1),
        opens_invariants [step(0, 1), at_will()]
    {
        let old_val: u64 = fetch_add(&self.worker_count, ONE_IN_IDLE);
        proof {
            self.lemma_word_stepped(
                old_val,
                u64_specs::wrapping_add(old_val, ONE_IN_IDLE),
                0,
                1,
            );
            assert(self.moved((unpack(old_val).0, unpack(old_val).1), 0, 1));
        }
        WorkerCountData::get_idle_count(old_val)
    }

    /// Counts one more idle worker. Gives both counts from just before, by which a worker that
    /// has finished its task sees whether it was the last one to do so.
    pub fn increment_worker_idle_ret_both(&self) -> (old_val: (u32, u32))
        ensures
            self.moved(old_val, 0, 1),
        opens_invariants [step(0, 1), at_will()]
    {
        let old_val: u64 = fetch_add(&self.worker_count, ONE_IN_IDLE);
        proof {
            self.lemma_word_stepped(
                old_val,
                u64_specs::wrapping_add(old_val, ONE_IN_IDLE),
                0,
                1,
            );
        }
        WorkerCountData::split(old_val)
    }

    /// Counts one idle worker less. Gives the idle count from just before.
    pub fn decrement_worker_idle(&self) -> (old_idle: u32)
        ensures
            exists|total: u32| #[trigger] self.moved((total, old_idle), 0, -1),
        opens_invariants [step(0, -1), at_will()]
    {
        let old_val: u64 = fetch_sub(&self.worker_count, ONE_IN_IDLE);
        proof {
            self.lemma_word_stepped(
                old_val,
                u64_specs::wrapping_sub(old_val, ONE_IN_IDLE),
                0,
                -1,
            );
            assert(self.moved((unpack(old_val).0, unpack(old_val).1), 0, -1));
        }
        WorkerCountData::get_idle_count(old_val)
    }

    /// Counts one idle worker less. Gives both counts from just before.
    pub fn decrement_worker_idle_ret_both(&self) -> (old_val: (u32, u32))
        ensures
            self.moved(old_val, 0, -1),
        opens_invariants [step(0, -1), at_will()]
    {
        let old_val: u64 = fetch_sub(&self.worker_count, ONE_IN_IDLE);
        proof {
            self.lemma_word_stepped(
                old_val,
                u64_specs::wrapping_sub(old_val, ONE_IN_IDLE),
                0,
                -1,
            );
        }
        WorkerCountData::split(old_val)
    }

    /// A worker that is no longer idle counts itself so. Gives the counts from just before.
    pub(crate) fn idle_down(&self) -> (old_val: (u32, u32))
        ensures
            self.moved(old_val, 0, -1),
        opens_invariants [step(0, -1)]
    {
        let old_val: u64 = fetch_sub(&self.worker_count, ONE_IN_IDLE);
        proof {
            self.lemma_word_stepped(
                old_val,
                u64_specs::wrapping_sub(old_val, ONE_IN_IDLE),
                0,
                -1,
            );
        }
        WorkerCountData::split(old_val)
    }

    /// A worker that is idle counts itself so. Gives the counts from just before.
    pub(crate) fn idle_up(&self) -> (old_val: (u32, u32))
        ensures
            self.moved(old_val, 0, 1),
        opens_invariants [step(0, 1)]
    {
        let old_val: u64 = fetch_add(&self.worker_count, ONE_IN_IDLE);
        proof {
            self.lemma_word_stepped(
                old_val,
                u64_specs::wrapping_add(old_val, ONE_IN_IDLE),
                0,
                1,
            );
        }
        WorkerCountData::split(old_val)
    }

    /// A worker that leaves, from an idle state, counts itself out. Gives the counts from just
    /// before.
    pub(crate) fn both_down(&self) -> (old_val: (u32, u32))
        ensures
            self.moved(old_val, -1, -1),
        opens_invariants [step(-1, -1)]
    {
        let old_val: u64 = fetch_sub(&self.worker_count, ONE_IN_BOTH);
        proof {
            self.lemma_word_stepped(
                old_val,
                u64_specs::wrapping_sub(old_val, ONE_IN_BOTH),
                -1,
                -1,
            );
        }
        WorkerCountData::split(old_val)
    }

    /// The counts `(total, idle)` that a word holds.
    pub fn split(val: u64) -> (counts: (u32, u32))
        ensures
            counts == unpack(val),
        opens_invariants none
    {
        (WorkerCountData::get_total_count(val), WorkerCountData::get_idle_count(val))
    }

    /// The total count that a word holds.
    pub fn get_total_count(val: u64) -> (total: u32)
        ensures
            total == unpack(val).0,
        opens_invariants none
    {
        assert(val >> 32 == val / 0x1_0000_0000 && val >> 32 <= 0xFFFF_FFFF) by (bit_vector);
        (val >> 32) as u32
    }

    /// The idle count that a word holds.
    pub fn get_idle_count(val: u64) -> (idle: u32)
        ensures
            idle == unpack(val).1,
        opens_invariants none
    {
        assert(val & 0xFFFF_FFFF == val % 0x1_0000_0000) by (bit_vector);
        (val & WORKER_IDLE_MASK) as u32
    }
}

/// A worker that has been counted in, with the task that is to be its first. What becomes of both
/// is decided by the counts from just before it was counted in: if by these it is needed, it is
/// hired, or else it is turned down.
pub struct Candidate {
    task: Job,
    is_core: bool,
    found: (u32, u32),
}

impl Candidate {
    /// The task that is to be its first.
    pub closed spec fn task(&self) -> Job {
        self.task
    }

    /// It is one for the core pool.
    pub closed spec fn is_core(&self) -> bool {
        self.is_core
    }

    /// The counts from just before it was counted in.
    pub closed spec fn found(&self) -> (u32, u32) {
        self.found
    }

    /// Counts a worker in for a task, which nobody gets at until it is decided what becomes of the
    /// worker.
    pub(crate) fn count_in(pool: &ThreadPool, is_core: bool, task: Job) -> (candidate: Candidate)
        ensures
            candidate.task() == task,
            candidate.is_core() == is_core,
            pool.data().counts().moved(candidate.found(), 1, 0),
        opens_invariants [step(1, 0)]
    {
        let counters: &WorkerCountData = pool.counters();
        let old_val: u64 = fetch_add(&counters.worker_count, ONE_IN_TOTAL);
        proof {
            counters.lemma_word_stepped(
                old_val,
                u64_specs::wrapping_add(old_val, ONE_IN_TOTAL),
                1,
                0,
            );
        }
        Candidate { task, is_core, found: WorkerCountData::split(old_val) }
    }

    /// Whether it is one for the core pool, and the counts from just before it was counted in.
    pub(crate) fn claim(&self) -> (claim: (bool, (u32, u32)))
        ensures
            claim == (self.is_core(), self.found()),
        opens_invariants none
    {
        (self.is_core, self.found)
    }

    /// Hires a worker that is needed. Gives the task back, for the worker to start with.
    pub(crate) fn hire(self, pool: &ThreadPool) -> (task: Job)
        requires
            pool.needs(self.is_core(), self.found()),
        ensures
            task == self.task(),
        opens_invariants none
    {
        self.task
    }

    /// Turns a worker down: counts it out again. Gives the task back.
    pub(crate) fn turn_down(self, pool: &ThreadPool) -> (task: Job)
        ensures
            task == self.task(),
            exists|back: (u32, u32)| #[trigger] pool.data().counts().moved(back, -1, 0),
        opens_invariants [step(-1, 0)]
    {
        let counters: &WorkerCountData = pool.counters();
        let old_val: u64 = fetch_sub(&counters.worker_count, ONE_IN_TOTAL);
        proof {
            counters.lemma_word_stepped(
                old_val,
                u64_specs::wrapping_sub(old_val, ONE_IN_TOTAL),
                -1,
                0,
            );
            assert(pool.data().counts().moved(unpack(old_val), -1, 0));
        }
        self.task
    }
}

impl Default for WorkerCountData {
    /// Counters for a pool without workers.
    fn default() -> (data: WorkerCountData)
        ensures
            data@.len() > 0,
            data@[0] == (0u32, 0u32),
    {
        WorkerCountData { worker_count: new_cell(0) }
    }
}

/// What a word holds, in numbers: the total counts whole multiples of two to the power of 32, and
/// the idle count what is left.
pub proof fn law_word_in_numbers(word: u64, total: u32, idle: u32)
    ensures
        unpack(word) == (total, idle) <==> word == total * 0x1_0000_0000 + idle,
{
}

/// A word holds the counts that it was packed from.
pub proof fn law_unpack_pack(counts: (u32, u32))
    ensures
        unpack(pack(counts)) == counts,
{
}

/// The counts of a word pack into that word, so no two words hold the same counts.
pub proof fn law_pack_unpack(word: u64)
    ensures
        pack(unpack(word)) == word,
{
}

/// As long as neither count leaves its range, moving the shared word moves each count by
/// itself.
pub proof fn law_counts_move_apart(counts: (u32, u32), total: int, idle: int)
    requires
        0 <= counts.0 + total <= u32::MAX,
        0 <= counts.1 + idle <= u32::MAX,
    ensures
        shifted(counts, total, idle) == ((counts.0 + total) as u32, (counts.1 + idle) as u32),
{
    let moved = ((counts.0 + total) as u32, (counts.1 + idle) as u32);
    assert(pack(counts) + total * 0x1_0000_0000 + idle == pack(moved));
    law_unpack_pack(moved);
}

/// A move and its opposite cancel out, even where a count wraps around in between: a count of a
/// worker that turns out not to be needed is taken back without a trace.
pub proof fn law_move_back(counts: (u32, u32), total: int, idle: int)
    ensures
        shifted(shifted(counts, total, idle), -total, -idle) == counts,
{
    let range = 0x1_0000_0000_0000_0000int;
    let delta = total * 0x1_0000_0000 + idle;
    let word = ((pack(counts) + delta) % range) as u64;
    law_pack_unpack(word);
    law_unpack_pack(counts);
    assert(-total * 0x1_0000_0000 + -idle == -delta);
    assert((pack(counts) + delta) % range - delta == pack(counts) + range * (-((pack(counts)
        + delta) / range)));
    vstd::arithmetic::div_mod::lemma_mod_multiples_vanish(
        -((pack(counts) + delta) / range),
        pack(counts) as int,
        range,
    );
}

/// Whatever a call that moves the counters reports, it has a place in their history.
pub proof fn law_move_has_a_place(
    counters: WorkerCountData,
    before: (u32, u32),
    total: int,
    idle: int,
)
    requires
        counters.moved(before, total, idle),
    ensures
        exists|i: int| #[trigger] counters.moved_at(i, before, total, idle),
{
    let after = shifted(before, total, idle);
    let i = choose|i: int|
        0 <= i && i + 1 < counters@.len() && #[trigger] counters@[i] == before && counters@[i + 1]
            == after;
    assert(counters.moved_at(i, before, total, idle));
}

/// Two calls with nothing in between: the second meets what the first has left. As long as
/// neither count leaves its range, that is each count moved by itself.
pub proof fn law_next_call_meets_what_was_left(
    counters: WorkerCountData,
    i: int,
    first: (u32, u32),
    total: int,
    idle: int,
    second: (u32, u32),
    next_total: int,
    next_idle: int,
)
    requires
        counters.moved_at(i, first, total, idle),
        counters.moved_at(i + 1, second, next_total, next_idle),
        0 <= first.0 + total <= u32::MAX,
        0 <= first.1 + idle <= u32::MAX,
    ensures
        second == ((first.0 + total) as u32, (first.1 + idle) as u32),
{
    law_counts_move_apart(first, total, idle);
}

/// A call and the opposite one with nothing in between leave the counters as they were: one
/// more worker and one less, or one more idle worker and one less.
pub proof fn law_opposite_calls_cancel(
    counters: WorkerCountData,
    i: int,
    first: (u32, u32),
    total: int,
    idle: int,
    second: (u32, u32),
)
    requires
        counters.moved_at(i, first, total, idle),
        counters.moved_at(i + 1, second, -total, -idle),
    ensures
        second == shifted(first, total, idle),
        counters@[i + 2] == first,
{
    law_move_back(first, total, idle);
}

} // verus!
