use polysynth::signal::wavetable::{Table, Taps, WavetableSampleStrategy};

#[test]
fn new_table_reads_with_three_points() {
    let table = Table::new(vec![1, 2, 3]);
    assert_eq!(table.strategy(), WavetableSampleStrategy::Quadratic);
    assert_eq!(table.resolution(), 3);
}

#[test]
fn with_strategy_keeps_the_samples() {
    let table = Table::new(vec![1, 2, 3]).with_strategy(WavetableSampleStrategy::Linear);
    assert_eq!(table.strategy(), WavetableSampleStrategy::Linear);
    assert_eq!(table.resolution(), 3);
    assert_eq!(table.taps(1), Taps::Linear(2, 3));
}

#[test]
fn linear_taps_wrap_at_the_end() {
    let table = Table::new(vec![10, 20, 30, 40]).with_strategy(WavetableSampleStrategy::Linear);
    assert_eq!(table.taps(0), Taps::Linear(10, 20));
    assert_eq!(table.taps(2), Taps::Linear(30, 40));
    assert_eq!(table.taps(3), Taps::Linear(40, 10));
}

#[test]
fn quadratic_taps_wrap_at_both_ends() {
    let table = Table::new(vec![10, 20, 30, 40]);
    assert_eq!(table.taps(0), Taps::Quadratic(40, 10, 20));
    assert_eq!(table.taps(1), Taps::Quadratic(10, 20, 30));
    assert_eq!(table.taps(3), Taps::Quadratic(30, 40, 10));
}

#[test]
fn a_table_of_one_sample_reads_it_everywhere() {
    let table = Table::new(vec![7]);
    assert_eq!(table.taps(0), Taps::Quadratic(7, 7, 7));
    let table = table.with_strategy(WavetableSampleStrategy::Linear);
    assert_eq!(table.taps(0), Taps::Linear(7, 7));
}

fn source(t: f64) -> f64 {
    (t * 2.0 * std::f64::consts::PI).sin()
}

fn build(resolution: usize, strategy: WavetableSampleStrategy) -> Table<f64> {
    let samples = (0..resolution)
        .map(|i| source(i as f64 / resolution as f64))
        .collect();
    Table::new(samples).with_strategy(strategy)
}

fn lookup(table: &Table<f64>, index: usize, p: f64) -> f64 {
    match table.taps(index) {
        Taps::Linear(at, after) => at * (1.0 - p) + after * p,
        Taps::Quadratic(before, at, after) => {
            at + 0.5 * p * ((after - before) + (before - 2.0 * at + after) * p)
        }
    }
}

#[test]
fn wavetable_is_exact_at_grid_points() {
    for strategy in [WavetableSampleStrategy::Linear, WavetableSampleStrategy::Quadratic] {
        let resolution = 10_000;
        let table = build(resolution, strategy);
        for index in 0..resolution {
            assert_eq!(
                lookup(&table, index, 0.0),
                source(index as f64 / resolution as f64)
            );
        }
    }
}

#[test]
fn wavetable_is_close_between_grid_points() {
    for strategy in [WavetableSampleStrategy::Linear, WavetableSampleStrategy::Quadratic] {
        let resolution = 10_000;
        let table = build(resolution, strategy);
        for index in (0..resolution).step_by(7) {
            for p in [0.1, 0.25, 0.5, 0.75, 0.9] {
                let t = (index as f64 + p) / resolution as f64;
                assert!((lookup(&table, index, p) - source(t)).abs() < 1e-3);
            }
        }
    }
}
