use polysynth::signal::modulation::PhaseMod;
use polysynth::signal::osc::{Saw, Sin, Square, Tri};

#[test]
fn with_self_builds_the_modulator_from_a_copy() {
    let built = PhaseMod::with_self(vec![1, 2, 3], |copy: Vec<i32>| {
        copy.into_iter().map(|x| x * 10).collect::<Vec<i32>>()
    });
    assert_eq!(built.0, vec![10, 20, 30]);
    assert_eq!(built.1, vec![1, 2, 3]);
}

#[test]
fn with_self_nests() {
    let built = PhaseMod::with_self(
        PhaseMod::with_self(Tri, |carrier| (4, carrier)),
        |carrier| (2, carrier),
    );
    assert_eq!((built.0).0, 2);
    assert_eq!(((built.0).1).0, (4, Tri));
    assert_eq!((built.1).0, (4, Tri));
    assert_eq!((built.1).1, Tri);
}

#[test]
fn waveform_names_are_plain_values() {
    assert_eq!(Sin, Sin.clone());
    assert_eq!(Saw, Saw.clone());
    assert_eq!(Square, Square.clone());
    assert_eq!(Tri, Tri.clone());
}
