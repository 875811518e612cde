use polysynth::signal::waveguide::KarplusStrong;

fn average(a: i64, b: i64) -> i64 {
    (a + b) / 2
}

#[test]
fn new_string_is_at_rest() {
    let string = KarplusStrong::new(5, 0i64);
    assert_eq!(string.delay_length(), 5);
    let empty = KarplusStrong::new(0, 0i64);
    assert_eq!(empty.delay_length(), 0);
}

#[test]
fn a_string_at_rest_stays_at_rest() {
    let mut string = KarplusStrong::new(3, 0i64);
    for _ in 0..10 {
        assert_eq!(string.sample(None, average), 0);
    }
}

#[test]
fn a_pluck_is_blended_with_the_next_entry() {
    let mut string = KarplusStrong::new(3, 0i64);
    // line 0 0 0, head 0: write 8, blend (8, 0) -> 4
    assert_eq!(string.sample(Some(8), average), 4);
    // line 4 0 0, head 1: blend (0, 0) -> 0
    assert_eq!(string.sample(None, average), 0);
    // line 4 0 0, head 2: blend (0, 4) wraps to the first entry -> 2
    assert_eq!(string.sample(None, average), 2);
    // line 4 0 2, head 0: blend (4, 0) -> 2
    assert_eq!(string.sample(None, average), 2);
    // line 2 0 2, head 1: blend (0, 2) -> 1
    assert_eq!(string.sample(None, average), 1);
}

#[test]
fn blend_sees_the_head_first() {
    let mut string = KarplusStrong::new(2, 0i64);
    let seen = string.sample(Some(5), |head, next| head * 10 + next);
    assert_eq!(seen, 50);
    let seen = string.sample(Some(7), |head, next| head * 10 + next);
    assert_eq!(seen, 120);
}

#[test]
fn a_string_of_one_sample_blends_with_itself() {
    let mut string = KarplusStrong::new(1, 0i64);
    assert_eq!(string.sample(Some(6), |head, next| head + next), 12);
    assert_eq!(string.sample(None, |head, next| head + next), 24);
}
