use rusty_pool::counts::WorkerCountData;

#[test]
fn worker_count_test() {
    let worker_count_data = WorkerCountData::default();

    assert_eq!(worker_count_data.get_total_worker_count(), 0);
    assert_eq!(worker_count_data.get_idle_worker_count(), 0);

    worker_count_data.increment_both();

    assert_eq!(worker_count_data.get_total_worker_count(), 1);
    assert_eq!(worker_count_data.get_idle_worker_count(), 1);

    for _ in 0..10 {
        worker_count_data.increment_both();
    }

    assert_eq!(worker_count_data.get_total_worker_count(), 11);
    assert_eq!(worker_count_data.get_idle_worker_count(), 11);

    for _ in 0..15 {
        worker_count_data.increment_worker_total();
    }

    for _ in 0..7 {
        worker_count_data.increment_worker_idle();
    }

    assert_eq!(worker_count_data.get_total_worker_count(), 26);
    assert_eq!(worker_count_data.get_idle_worker_count(), 18);
    assert_eq!(worker_count_data.get_both(), (26, 18));

    for _ in 0..5 {
        worker_count_data.decrement_both();
    }

    assert_eq!(worker_count_data.get_total_worker_count(), 21);
    assert_eq!(worker_count_data.get_idle_worker_count(), 13);

    for _ in 0..13 {
        worker_count_data.decrement_worker_total();
    }

    for _ in 0..4 {
        worker_count_data.decrement_worker_idle();
    }

    assert_eq!(worker_count_data.get_total_worker_count(), 8);
    assert_eq!(worker_count_data.get_idle_worker_count(), 9);

    for _ in 0..456789 {
        worker_count_data.increment_worker_total();
    }

    assert_eq!(worker_count_data.get_total_worker_count(), 456797);
    assert_eq!(worker_count_data.get_idle_worker_count(), 9);
    assert_eq!(worker_count_data.get_both(), (456797, 9));

    for _ in 0..23456 {
        worker_count_data.increment_worker_idle();
    }

    assert_eq!(worker_count_data.get_total_worker_count(), 456797);
    assert_eq!(worker_count_data.get_idle_worker_count(), 23465);

    for _ in 0..150000 {
        worker_count_data.decrement_worker_total();
    }

    assert_eq!(worker_count_data.get_total_worker_count(), 306797);
    assert_eq!(worker_count_data.get_idle_worker_count(), 23465);

    for _ in 0..10000 {
        worker_count_data.decrement_worker_idle();
    }

    assert_eq!(worker_count_data.get_total_worker_count(), 306797);
    assert_eq!(worker_count_data.get_idle_worker_count(), 13465);
}

#[test]
fn every_move_gives_the_counts_from_before() {
    let counts = WorkerCountData::default();
    assert_eq!(counts.increment_both(), (0, 0));
    assert_eq!(counts.increment_worker_total(), 1);
    assert_eq!(counts.increment_worker_total_ret_both(), (2, 1));
    assert_eq!(counts.increment_worker_idle(), 1);
    assert_eq!(counts.increment_worker_idle_ret_both(), (3, 2));
    assert_eq!(counts.decrement_worker_idle(), 3);
    assert_eq!(counts.decrement_worker_idle_ret_both(), (3, 2));
    assert_eq!(counts.decrement_worker_total(), 3);
    assert_eq!(counts.decrement_worker_total_ret_both(), (2, 1));
    assert_eq!(counts.decrement_both(), (1, 1));
    assert_eq!(counts.get_both(), (0, 0));
}

#[test]
fn words_are_split_into_total_and_idle() {
    assert_eq!(WorkerCountData::split(0), (0, 0));
    assert_eq!(WorkerCountData::split(0x0000_0003_0000_0002), (3, 2));
    assert_eq!(WorkerCountData::split(u64::MAX), (u32::MAX, u32::MAX));
    assert_eq!(WorkerCountData::get_total_count(0x1234_5678_9ABC_DEF0), 0x1234_5678);
    assert_eq!(WorkerCountData::get_idle_count(0x1234_5678_9ABC_DEF0), 0x9ABC_DEF0);
}

#[test]
fn the_shared_word_wraps_around_and_moves_back() {
    let counts = WorkerCountData::default();
    assert_eq!(counts.decrement_worker_idle_ret_both(), (0, 0));
    assert_eq!(counts.get_both(), (u32::MAX, u32::MAX));
    assert_eq!(counts.increment_worker_idle_ret_both(), (u32::MAX, u32::MAX));
    assert_eq!(counts.get_both(), (0, 0));
}

#[test]
fn opposite_calls_cancel() {
    let counts = WorkerCountData::default();
    for _ in 0..6 {
        counts.increment_both();
    }
    counts.decrement_worker_idle();
    assert_eq!(counts.get_both(), (6, 5));
    counts.increment_both();
    assert_eq!(counts.decrement_both(), (7, 6));
    assert_eq!(counts.get_both(), (6, 5));
    assert_eq!(counts.increment_worker_idle_ret_both(), (6, 5));
    assert_eq!(counts.decrement_worker_idle(), 6);
    assert_eq!(counts.get_both(), (6, 5));
}
