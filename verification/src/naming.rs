//! The numbers and names that pools and their worker threads get.
use std::sync::atomic::AtomicUsize;
use std::sync::atomic::Ordering;
use vstd::prelude::*;
use vstd::string::*;
use vstd::wrapping::usize_specs;

verus! {

/// The values that the cell holds over its whole life, in the order in which they are stored.
/// The first is the one that it was made with. Every atomic operation sees one of them.
pub uninterp spec fn numbers(cell: AtomicUsize) -> Seq<usize>;

/// The cell goes from `before` straight to `after` at some time.
pub open spec fn number_stepped(cell: AtomicUsize, before: usize, after: usize) -> bool {
    exists|i: int|
        0 <= i && i + 1 < numbers(cell).len() && #[trigger] numbers(cell)[i] == before
            && numbers(cell)[i + 1] == after
}

/// What a function may do to a numbering stands in its `opens_invariants`. This is the namespace
/// of handing out a number by adding `val`.
pub open spec fn numbered_by(val: usize) -> int {
    0x4_0000_0000_0000_0000 + val
}

/// Trusted: `AtomicUsize::new`. The cell starts out with the given value.
#[verifier::external_body]
fn new_cell(number: usize) -> (cell: AtomicUsize)
    ensures
        numbers(cell).len() > 0,
        numbers(cell)[0] == number,
{
    AtomicUsize::new(number)
}

/// Trusted: `AtomicUsize::fetch_add`, sequentially consistent. The result is a value that the
/// cell holds, and the next value that it holds is the sum, wrapped around on overflow. Which
/// one depends on the other threads, so nothing else is claimed.
#[verifier::external_body]
fn fetch_add(cell: &AtomicUsize, val: usize) -> (prev: usize)
    ensures
        number_stepped(*cell, prev, usize_specs::wrapping_add(prev, val)),
    opens_invariants [numbered_by(val)]
{
    cell.fetch_add(val, Ordering::SeqCst)
}

/// Hands out numbers one after the other, starting with 1.
pub struct Numbering {
    next: AtomicUsize,
}

impl View for Numbering {
    type V = Seq<usize>;

    /// The numbers that are next over the whole life of this numbering, in order.
    closed spec fn view(&self) -> Seq<usize> {
        numbers(self.next)
    }
}

impl Numbering {
    /// The number is handed out at some time, and the one after it is next.
    pub open spec fn handed_out(&self, number: usize) -> bool {
        exists|i: int|
            0 <= i && i + 1 < self@.len() && #[trigger] self@[i] == number && self@[i + 1]
                == usize_specs::wrapping_add(number, 1)
    }

    /// The numbering starts with 1 and goes up by one with each number that is handed out. Since
    /// `take` is all that moves it, each of its steps is one that a call of `take` reports.
    pub open spec fn in_order(&self) -> bool {
        &&& self@.len() > 0
        &&& self@[0] == 1
        &&& forall|i: int|
            0 <= i && i + 1 < self@.len() ==> #[trigger] self@[i + 1] == usize_specs::wrapping_add(
                self@[i],
                1,
            )
    }

    /// A numbering of which no number has been handed out.
    pub fn new() -> (numbering: Numbering)
        ensures
            numbering@.len() > 0,
            numbering@[0] == 1,
    {
        Numbering { next: new_cell(1) }
    }

    /// Hands out a number.
    pub fn take(&self) -> (number: usize)
        ensures
            self.handed_out(number),
        opens_invariants [numbered_by(1)]
    {
        let number: usize = fetch_add(&self.next, 1);
        proof {
            let after = usize_specs::wrapping_add(number, 1);
            let i = choose|i: int|
                0 <= i && i + 1 < numbers(self.next).len() && #[trigger] numbers(self.next)[i]
                    == number && numbers(self.next)[i + 1] == after;
            assert(self@[i] == number);
        }
        number
    }
}

/// After a number that is handed out, the number that is one higher is next, for as long as there
/// are numbers.
pub proof fn law_next_number_is_one_higher(numbering: Numbering, number: usize)
    requires
        numbering.handed_out(number),
        number < usize::MAX,
    ensures
        exists|i: int|
            0 <= i && i + 1 < numbering@.len() && #[trigger] numbering@[i] == number && numbering@[i
                + 1] == number + 1,
{
    let after = usize_specs::wrapping_add(number, 1);
    let i = choose|i: int|
        0 <= i && i + 1 < numbering@.len() && #[trigger] numbering@[i] == number && numbering@[i
            + 1] == after;
    assert(numbering@[i] == number);
}

/// The k-th number of a numbering is k, for as long as there are numbers.
pub proof fn law_kth_number_is_k(numbering: Numbering, k: int)
    requires
        numbering.in_order(),
        1 <= k <= numbering@.len(),
        k <= usize::MAX,
    ensures
        numbering@[k - 1] == k,
    decreases k,
{
    if k > 1 {
        law_kth_number_is_k(numbering, k - 1);
        assert(numbering@[(k - 2) + 1] == usize_specs::wrapping_add(numbering@[k - 2], 1));
    }
}

/// No number is handed out twice, for as long as there are numbers.
pub proof fn law_no_number_comes_twice(numbering: Numbering, one: int, other: int)
    requires
        numbering.in_order(),
        1 <= one <= numbering@.len(),
        1 <= other <= numbering@.len(),
        one <= usize::MAX,
        other <= usize::MAX,
        one != other,
    ensures
        numbering@[one - 1] != numbering@[other - 1],
{
    law_kth_number_is_k(numbering, one);
    law_kth_number_is_k(numbering, other);
}

/// The character for a digit.
pub open spec fn digit_char(digit: nat) -> char {
    (digit + '0' as nat) as char
}

/// A number in decimal notation, without leading zeros.
pub open spec fn decimal(number: nat) -> Seq<char>
    decreases number,
{
    if number < 10 {
        seq![digit_char(number)]
    } else {
        decimal(number / 10).push(digit_char(number % 10))
    }
}

/// The default name of the pool with the given number.
pub open spec fn pool_name(number: nat) -> Seq<char> {
    "rusty_pool_"@ + decimal(number)
}

/// The name of the worker thread with the given number, in the pool of the given name.
pub open spec fn thread_name(pool: Seq<char>, number: nat) -> Seq<char> {
    pool + "_thread_"@ + decimal(number)
}

fn digit_str(digit: usize) -> (text: &'static str)
    requires
        digit < 10,
    ensures
        text@ == seq![digit_char(digit as nat)],
{
    proof {
        reveal_strlit("0");
        reveal_strlit("1");
        reveal_strlit("2");
        reveal_strlit("3");
        reveal_strlit("4");
        reveal_strlit("5");
        reveal_strlit("6");
        reveal_strlit("7");
        reveal_strlit("8");
        reveal_strlit("9");
    }
    match digit {
        0 => "0",
        1 => "1",
        2 => "2",
        3 => "3",
        4 => "4",
        5 => "5",
        6 => "6",
        7 => "7",
        8 => "8",
        _ => "9",
    }
}

/// Writes a number in decimal notation.
pub fn decimal_string(number: usize) -> (text: String)
    ensures
        text@ == decimal(number as nat),
        read_decimal(text@) == number,
    decreases number,
{
    proof {
        law_decimal_reads_back(number as nat);
    }
    if number < 10 {
        digit_str(number).to_owned()
    } else {
        let mut text: String = decimal_string(number / 10);
        text.append(digit_str(number % 10));
        text
    }
}

/// The default name of the pool with the given number.
pub fn default_pool_name(number: usize) -> (name: String)
    ensures
        name@ == pool_name(number as nat),
        name@ == "rusty_pool_"@ + decimal(number as nat),
{
    let mut name: String = "rusty_pool_".to_owned();
    name.append(decimal_string(number).as_str());
    name
}

/// The name of the worker thread with the given number, in the pool of the given name.
pub fn worker_thread_name(pool: &str, number: usize) -> (name: String)
    ensures
        name@ == thread_name(pool@, number as nat),
        name@ == pool@ + "_thread_"@ + decimal(number as nat),
{
    let mut name: String = pool.to_owned();
    name.append("_thread_");
    name.append(decimal_string(number).as_str());
    name
}

/// The number that a text of digits stands for.
pub open spec fn read_decimal(text: Seq<char>) -> int
    decreases text.len(),
{
    if text.len() == 0 {
        0
    } else {
        read_decimal(text.drop_last()) * 10 + (text.last() as int - '0' as int)
    }
}

/// A number in decimal notation is made of digits, does not start with a zero unless it is zero,
/// and stands for that number.
pub proof fn law_decimal_reads_back(number: nat)
    ensures
        read_decimal(decimal(number)) == number,
        decimal(number).len() >= 1,
        forall|i: int|
            0 <= i < decimal(number).len() ==> '0' as int <= #[trigger] decimal(number)[i] as int
                <= '9' as int,
        number > 0 ==> decimal(number)[0] != '0',
    decreases number,
{
    let text = decimal(number);
    if number < 10 {
        assert(text.drop_last() == Seq::<char>::empty());
        assert(read_decimal(text.drop_last()) == 0);
    } else {
        law_decimal_reads_back(number / 10);
        assert(text.drop_last() == decimal(number / 10));
        assert(text[0] == decimal(number / 10)[0]);
    }
}

/// Every digit is written as a character of its own.
proof fn lemma_digit_char_injective(one: nat, other: nat)
    requires
        one < 10,
        other < 10,
        digit_char(one) == digit_char(other),
    ensures
        one == other,
{
}

/// No two numbers are written alike.
pub proof fn law_decimal_injective(one: nat, other: nat)
    requires
        decimal(one) == decimal(other),
    ensures
        one == other,
    decreases one,
{
    let text = decimal(one);
    if one < 10 || other < 10 {
        lemma_decimal_len(one);
        lemma_decimal_len(other);
        assert(text[0] == decimal(other)[0]);
        lemma_digit_char_injective(one, other);
    } else {
        assert(text.drop_last() == decimal(one / 10));
        assert(text.drop_last() == decimal(other / 10));
        assert(text.last() == digit_char(one % 10));
        assert(text.last() == digit_char(other % 10));
        law_decimal_injective(one / 10, other / 10);
        lemma_digit_char_injective(one % 10, other % 10);
    }
}

proof fn lemma_decimal_len(number: nat)
    ensures
        decimal(number).len() >= 1,
        number >= 10 ==> decimal(number).len() >= 2,
    decreases number,
{
    if number >= 10 {
        lemma_decimal_len(number / 10);
    }
}

/// Workers of one pool that start with different numbers have different thread names.
pub proof fn law_thread_names_differ(pool: Seq<char>, one: nat, other: nat)
    requires
        one != other,
    ensures
        thread_name(pool, one) != thread_name(pool, other),
{
    if thread_name(pool, one) == thread_name(pool, other) {
        let prefix = pool + "_thread_"@;
        assert(thread_name(pool, one).skip(prefix.len() as int) == decimal(one));
        assert(thread_name(pool, other).skip(prefix.len() as int) == decimal(other));
        law_decimal_injective(one, other);
    }
}

/// Pools that get different numbers get different default names.
pub proof fn law_pool_names_differ(one: nat, other: nat)
    requires
        one != other,
    ensures
        pool_name(one) != pool_name(other),
{
    if pool_name(one) == pool_name(other) {
        let prefix = "rusty_pool_"@;
        assert(pool_name(one).skip(prefix.len() as int) == decimal(one));
        assert(pool_name(other).skip(prefix.len() as int) == decimal(other));
        law_decimal_injective(one, other);
    }
}

/// The k-th thread that is started in a pool, replacements included, is named after the pool and
/// k. So the name of the pool is a prefix of it, and no other thread of the pool has it.
pub proof fn law_kth_thread_name(pool: Seq<char>, numbering: Numbering, k: int, other: int)
    requires
        numbering.in_order(),
        1 <= k <= numbering@.len(),
        1 <= other <= numbering@.len(),
        k <= usize::MAX,
        other <= usize::MAX,
    ensures
        thread_name(pool, numbering@[k - 1] as nat) == pool + "_thread_"@ + decimal(k as nat),
        pool.is_prefix_of(thread_name(pool, numbering@[k - 1] as nat)),
        k != other ==> thread_name(pool, numbering@[k - 1] as nat) != thread_name(
            pool,
            numbering@[other - 1] as nat,
        ),
{
    law_kth_number_is_k(numbering, k);
    law_kth_number_is_k(numbering, other);
    assert(pool + "_thread_"@ + decimal(k as nat) == pool + ("_thread_"@ + decimal(k as nat)));
    if k != other {
        law_thread_names_differ(pool, k as nat, other as nat);
    }
}

/// The k-th pool that gets a default name is named after k, and no other one has that name.
pub proof fn law_kth_pool_name(numbering: Numbering, k: int, other: int)
    requires
        numbering.in_order(),
        1 <= k <= numbering@.len(),
        1 <= other <= numbering@.len(),
        k <= usize::MAX,
        other <= usize::MAX,
    ensures
        pool_name(numbering@[k - 1] as nat) == "rusty_pool_"@ + decimal(k as nat),
        k != other ==> pool_name(numbering@[k - 1] as nat) != pool_name(
            numbering@[other - 1] as nat,
        ),
{
    law_kth_number_is_k(numbering, k);
    law_kth_number_is_k(numbering, other);
    if k != other {
        law_pool_names_differ(k as nat, other as nat);
    }
}

} // verus!
