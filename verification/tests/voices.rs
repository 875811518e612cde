use polysynth::level::Level;
use polysynth::signal::combinations::{
    even_spread, position_of, random_spread, Detune, DetunedSum, EnvelopedVoiceAllocator,
};

fn queue_of(allocator: &EnvelopedVoiceAllocator) -> Vec<usize> {
    allocator.active_voices().iter().copied().collect()
}

#[test]
fn new_allocator_is_silent() {
    let allocator = EnvelopedVoiceAllocator::new(8, 32);
    assert!(queue_of(&allocator).is_empty());
    assert_eq!(allocator.max_active(), 8);
    assert_eq!(allocator.voices(), 32);
}

#[test]
fn voices_queue_in_order_of_activation() {
    let mut allocator = EnvelopedVoiceAllocator::new(4, 4);
    allocator.sample(&[false, false, true, false]);
    assert_eq!(queue_of(&allocator), vec![2]);
    allocator.sample(&[true, false, true, false]);
    assert_eq!(queue_of(&allocator), vec![2, 0]);
    allocator.sample(&[true, true, true, true]);
    assert_eq!(queue_of(&allocator), vec![2, 0, 1, 3]);
}

#[test]
fn a_voice_that_falls_silent_leaves_the_queue() {
    let mut allocator = EnvelopedVoiceAllocator::new(4, 3);
    allocator.sample(&[true, true, true]);
    allocator.sample(&[true, false, true]);
    assert_eq!(queue_of(&allocator), vec![0, 2]);
    allocator.sample(&[true, true, true]);
    assert_eq!(queue_of(&allocator), vec![0, 2, 1]);
    allocator.sample(&[false, false, false]);
    assert!(queue_of(&allocator).is_empty());
}

#[test]
fn the_oldest_voice_is_stolen() {
    let mut allocator = EnvelopedVoiceAllocator::new(2, 4);
    allocator.sample(&[false, true, false, false]);
    allocator.sample(&[false, true, false, true]);
    assert_eq!(queue_of(&allocator), vec![1, 3]);
    allocator.sample(&[true, true, false, true]);
    assert_eq!(queue_of(&allocator), vec![3, 0]);
}

#[test]
fn more_audible_voices_than_may_sound() {
    let mut allocator = EnvelopedVoiceAllocator::new(3, 8);
    allocator.sample(&[true, true, true, true, true, false, false, true]);
    // six are audible: 0 1 2 3 4 7; the three earliest give way
    assert_eq!(queue_of(&allocator), vec![3, 4, 7]);
}

#[test]
fn a_stolen_voice_that_is_still_held_comes_back_behind_the_others() {
    let mut allocator = EnvelopedVoiceAllocator::new(2, 3);
    allocator.sample(&[true, true, true]);
    assert_eq!(queue_of(&allocator), vec![1, 2]);
    allocator.sample(&[true, true, true]);
    assert_eq!(queue_of(&allocator), vec![2, 0]);
    allocator.sample(&[true, true, true]);
    assert_eq!(queue_of(&allocator), vec![0, 1]);
}

#[test]
fn the_queue_never_exceeds_the_limit() {
    let voices = 6usize;
    for max_active in 0..=7usize {
        let mut allocator = EnvelopedVoiceAllocator::new(max_active, voices);
        let mut seed: u32 = 12345;
        for _ in 0..200 {
            let mut above = Vec::new();
            for _ in 0..voices {
                seed = seed.wrapping_mul(1103515245).wrapping_add(12345);
                above.push((seed >> 16) & 1 == 1);
            }
            let before = queue_of(&allocator);
            allocator.sample(&above);
            let queue = queue_of(&allocator);
            let audible = above.iter().filter(|flag| **flag).count();
            assert_eq!(queue.len(), audible.min(max_active));
            for (place, voice) in queue.iter().enumerate() {
                assert!(above[*voice]);
                assert!(!queue[..place].contains(voice));
            }
            // the activation order: survivors in queue order, then newcomers by number
            let mut order: Vec<usize> = before.iter().copied().filter(|v| above[*v]).collect();
            for voice in 0..voices {
                if above[voice] && !before.contains(&voice) {
                    order.push(voice);
                }
            }
            assert_eq!(order.len(), audible);
            assert_eq!(queue, order[order.len() - queue.len()..].to_vec());
        }
    }
}

#[test]
fn a_steady_chord_is_left_alone() {
    let mut allocator = EnvelopedVoiceAllocator::new(3, 5);
    allocator.sample(&[false, true, false, true, true]);
    assert_eq!(queue_of(&allocator), vec![1, 3, 4]);
    for _ in 0..10 {
        allocator.sample(&[false, true, false, true, true]);
        assert_eq!(queue_of(&allocator), vec![1, 3, 4]);
    }
    // without a newcomer the queue only loses what fell silent
    allocator.sample(&[false, true, false, false, true]);
    assert_eq!(queue_of(&allocator), vec![1, 4]);
}

#[test]
fn a_limit_of_zero_silences_everything() {
    let mut allocator = EnvelopedVoiceAllocator::new(0, 3);
    allocator.sample(&[true, true, true]);
    assert!(queue_of(&allocator).is_empty());
}

#[test]
fn flags_beyond_the_bank_are_ignored_and_missing_flags_are_silent() {
    let mut allocator = EnvelopedVoiceAllocator::new(4, 2);
    allocator.sample(&[true, true, true, true]);
    assert_eq!(queue_of(&allocator), vec![0, 1]);
    allocator.sample(&[true]);
    assert_eq!(queue_of(&allocator), vec![0]);
    allocator.sample(&[]);
    assert!(queue_of(&allocator).is_empty());
}

#[test]
fn even_spread_of_none_is_empty() {
    assert_eq!(even_spread(0), Vec::<Detune>::new());
}

#[test]
fn even_spread_of_one_is_unison() {
    assert_eq!(even_spread(1), vec![Detune::Unison]);
}

#[test]
fn even_spread_of_two_is_the_two_ends() {
    assert_eq!(
        even_spread(2),
        vec![
            Detune::Offset(Level { num: -1, den: 1 }),
            Detune::Offset(Level { num: 1, den: 1 }),
        ]
    );
}

#[test]
fn even_spread_of_four_steps_by_two_thirds() {
    assert_eq!(
        even_spread(4),
        vec![
            Detune::Offset(Level { num: -3, den: 3 }),
            Detune::Offset(Level { num: -1, den: 3 }),
            Detune::Offset(Level { num: 1, den: 3 }),
            Detune::Offset(Level { num: 3, den: 3 }),
        ]
    );
}

#[test]
fn even_spread_mirrors_itself() {
    for copies in 2..40u64 {
        let spread = even_spread(copies);
        assert_eq!(spread.len() as u64, copies);
        for (index, place) in spread.iter().enumerate() {
            let mirror = spread[spread.len() - 1 - index];
            match (*place, mirror) {
                (Detune::Offset(here), Detune::Offset(there)) => {
                    assert_eq!(here.den, copies as i64 - 1);
                    assert_eq!(here.num, 2 * index as i64 - (copies as i64 - 1));
                    assert_eq!(here.num * there.den + there.num * here.den, 0);
                    assert!(-here.den <= here.num && here.num <= here.den);
                }
                _ => panic!("a spread of several copies has no unison"),
            }
        }
    }
}

fn multiplier(place: Detune, detune_factor: f64) -> f64 {
    match place {
        Detune::Unison => 1.0,
        Detune::Offset(level) => ((level.num as f64 / level.den as f64) * detune_factor).exp2(),
    }
}

#[test]
fn a_single_copy_is_tuned_to_one_whatever_the_factor() {
    for factor in [0.0, 0.5, 1.05, -3.0, f64::INFINITY, f64::NAN] {
        let spread = even_spread(1);
        assert_eq!(spread.len(), 1);
        assert_eq!(multiplier(spread[0], factor), 1.0);
    }
}

#[test]
fn a_factor_of_zero_tunes_every_copy_to_one() {
    for copies in 0..20u64 {
        let spread = even_spread(copies);
        assert_eq!(spread.len() as u64, copies);
        for place in spread {
            assert_eq!(multiplier(place, 0.0), 1.0);
        }
    }
}

#[test]
fn a_factor_of_one_spreads_over_two_octaves() {
    let spread = even_spread(3);
    assert_eq!(multiplier(spread[0], 1.0), 0.5);
    assert_eq!(multiplier(spread[1], 1.0), 1.0);
    assert_eq!(multiplier(spread[2], 1.0), 2.0);
}

#[test]
fn position_of_uses_the_upper_53_bits() {
    let steps: i64 = 1 << 53;
    assert_eq!(position_of(0), Level { num: -steps, den: steps });
    assert_eq!(position_of(2047), Level { num: -steps, den: steps });
    assert_eq!(position_of(2048), Level { num: 2 - steps, den: steps });
    assert_eq!(position_of(1 << 63), Level { num: 0, den: steps });
    assert_eq!(position_of(u64::MAX), Level { num: steps - 2, den: steps });
}

#[test]
fn random_spread_has_the_asked_length_and_stays_in_range() {
    assert!(random_spread(0).is_empty());
    let spread = random_spread(64);
    assert_eq!(spread.len(), 64);
    let mut distinct = 0;
    for place in &spread {
        match place {
            Detune::Offset(level) => {
                assert_eq!(level.den, 1 << 53);
                assert!(-level.den <= level.num && level.num < level.den);
                assert_eq!(level.num % 2, 0);
                if *place != spread[0] {
                    distinct += 1;
                }
            }
            Detune::Unison => panic!("a random place is never the unison"),
        }
    }
    assert!(distinct > 0);
}

#[test]
fn from_frequencies_pairs_each_frequency_with_a_copy() {
    let sum = DetunedSum::from_frequencies(String::from("saw"), vec![3u32, 1, 2]);
    assert_eq!(
        sum.subvoices,
        vec![
            (3, String::from("saw")),
            (1, String::from("saw")),
            (2, String::from("saw")),
        ]
    );
    let none = DetunedSum::from_frequencies(7u8, Vec::<u32>::new());
    assert!(none.subvoices.is_empty());
}
