use polysynth::output::{frame_count, write_data, FrameClock, FRAME_LIMIT};

#[test]
fn clock_counts_from_one() {
    let mut clock = FrameClock::new();
    assert_eq!(clock.tick(), 1);
    assert_eq!(clock.tick(), 2);
    assert_eq!(clock.tick(), 3);
}

#[test]
fn clock_never_runs_backwards() {
    let mut clock = FrameClock::new();
    let mut last = 0;
    for _ in 0..1000 {
        let frame = clock.tick();
        assert!(frame > last);
        last = frame;
    }
}

#[test]
fn frame_limit_is_two_to_the_53rd() {
    assert_eq!(FRAME_LIMIT, 1u64 << 53);
    // the last count that double precision tells from its successor
    assert_ne!((FRAME_LIMIT - 1) as f64, FRAME_LIMIT as f64);
    assert_eq!(FRAME_LIMIT as f64 + 1.0, FRAME_LIMIT as f64);
}

#[test]
fn frame_count_rounds_up() {
    assert_eq!(frame_count(0, 2), 0);
    assert_eq!(frame_count(1, 2), 1);
    assert_eq!(frame_count(2, 2), 1);
    assert_eq!(frame_count(7, 2), 4);
    assert_eq!(frame_count(8, 2), 4);
    assert_eq!(frame_count(5, 1), 5);
    assert_eq!(frame_count(5, 6), 1);
    assert_eq!(frame_count(usize::MAX, 1), usize::MAX);
    assert_eq!(frame_count(usize::MAX, usize::MAX), 1);
    assert_eq!(frame_count(usize::MAX, 2), usize::MAX / 2 + 1);
}

#[test]
fn every_channel_of_a_frame_gets_the_same_value() {
    let mut output = [0i16; 6];
    write_data(&mut output, 2, &[10, 20, 30]);
    assert_eq!(output, [10, 10, 20, 20, 30, 30]);
}

#[test]
fn a_short_last_frame_is_filled() {
    let mut output = [0i16; 7];
    write_data(&mut output, 3, &[1, 2, 3]);
    assert_eq!(output, [1, 1, 1, 2, 2, 2, 3]);
}

#[test]
fn mono_copies_the_values() {
    let mut output = [0u8; 4];
    write_data(&mut output, 1, &[4, 3, 2, 1, 0]);
    assert_eq!(output, [4, 3, 2, 1]);
}

#[test]
fn an_empty_buffer_is_left_empty() {
    let mut output: [f32; 0] = [];
    write_data(&mut output, 2, &[]);
    assert_eq!(output.len(), 0);
}

#[test]
fn frames_without_a_value_are_left_as_they_are() {
    let mut output = [9i16; 7];
    write_data(&mut output, 2, &[1, 2]);
    assert_eq!(output, [1, 1, 2, 2, 9, 9, 9]);
}

#[test]
fn frame_count_frames_are_enough_to_fill_a_buffer() {
    for channels in 1..5usize {
        for len in 0..20usize {
            let frames = frame_count(len, channels);
            let values: Vec<usize> = (1..=frames).collect();
            let mut output = vec![0usize; len];
            write_data(&mut output, channels, &values);
            for (i, sample) in output.iter().enumerate() {
                assert_eq!(*sample, i / channels + 1);
            }
            if frames > 0 {
                assert!((frames - 1) * channels < len);
            }
        }
    }
}
