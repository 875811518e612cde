use polysynth::signal::{Cached, MemoPolicy};

#[test]
fn a_hit_does_not_compute() {
    let mut memo = Cached::new(0i32);
    let mut calls = 0;
    assert_eq!(
        memo.sample(0, || {
            calls += 1;
            99
        }),
        0
    );
    assert_eq!(calls, 0);
}

#[test]
fn a_miss_computes_and_is_remembered() {
    let mut memo = Cached::new(0i32);
    let mut calls = 0;
    assert_eq!(
        memo.sample(17, || {
            calls += 1;
            5
        }),
        5
    );
    assert_eq!(
        memo.sample(17, || {
            calls += 1;
            6
        }),
        5
    );
    assert_eq!(calls, 1);
    assert_eq!(memo.sample(18, || 7), 7);
    // the slot holds one query only
    assert_eq!(memo.sample(17, || 8), 8);
}

#[test]
fn after_a_refresh_time_zero_is_a_miss() {
    let mut memo = Cached::new(0i32);
    assert_eq!(memo.sample(1, || 5), 5);
    assert_eq!(memo.sample(0, || 9), 9);
}

#[test]
fn a_frozen_memo_never_learns() {
    let mut memo = Cached::new(0i32).with_policy(MemoPolicy::Frozen);
    let mut calls = 0;
    assert_eq!(
        memo.sample(17, || {
            calls += 1;
            5
        }),
        5
    );
    assert_eq!(
        memo.sample(17, || {
            calls += 1;
            6
        }),
        6
    );
    assert_eq!(calls, 2);
    // the pair given at construction still answers
    assert_eq!(memo.sample(0, || 7), 0);
}

#[test]
fn times_are_told_apart_bit_by_bit() {
    let mut memo = Cached::new(1.5f64);
    assert_eq!(memo.sample(0.0f64.to_bits(), || 2.5), 1.5);
    assert_eq!(memo.sample((-0.0f64).to_bits(), || 2.5), 2.5);
    assert_eq!(memo.sample((-0.0f64).to_bits(), || 3.5), 2.5);
    assert_eq!(memo.sample(0.0f64.to_bits(), || 4.5), 4.5);
}
