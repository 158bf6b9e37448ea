use rusty_pool::naming::decimal_string;
use rusty_pool::naming::default_pool_name;
use rusty_pool::naming::worker_thread_name;
use rusty_pool::naming::Numbering;

#[test]
fn numbers_are_written_in_decimal() {
    assert_eq!(decimal_string(0), "0");
    assert_eq!(decimal_string(7), "7");
    assert_eq!(decimal_string(10), "10");
    assert_eq!(decimal_string(40205), "40205");
    assert_eq!(decimal_string(usize::MAX), format!("{}", usize::MAX));
}

#[test]
fn pools_and_threads_are_named_by_number() {
    assert_eq!(default_pool_name(1), "rusty_pool_1");
    assert_eq!(default_pool_name(23), "rusty_pool_23");
    assert_eq!(worker_thread_name("my_pool", 1), "my_pool_thread_1");
    assert_eq!(worker_thread_name("rusty_pool_2", 17), "rusty_pool_2_thread_17");
}

#[test]
fn different_numbers_give_different_names() {
    for one in 0..120 {
        for other in 0..one {
            assert_ne!(default_pool_name(one), default_pool_name(other));
            assert_ne!(worker_thread_name("p", one), worker_thread_name("p", other));
        }
    }
}

#[test]
fn numbering_starts_with_one() {
    let numbering = Numbering::new();
    assert_eq!(numbering.take(), 1);
    assert_eq!(numbering.take(), 2);
    assert_eq!(numbering.take(), 3);
}
