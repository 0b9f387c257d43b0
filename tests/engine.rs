use sizefit::engine::{
    BestKnown, CompressionRatio, ParamError, SearchEngine, SearchParams, Step, SCALE_ONE,
};
use sizefit::size_label::{size_label, SizeUnit};

fn params(target: u64, tolerance: u64, ceiling: u32) -> SearchParams {
    SearchParams::new(target, tolerance, ceiling).unwrap()
}

fn ratio() -> CompressionRatio {
    CompressionRatio { encoded: 100, raw: 4000 }
}

#[test]
fn params_accept_bounds() {
    let p = SearchParams::new(128, 0, 8).unwrap();
    assert_eq!(p, SearchParams { target: 128, tolerance: 0, ceiling: 8 });
    assert!(SearchParams::new(4_294_967_294, 4_294_967_294, 16_383).is_ok());
}

#[test]
fn params_reject_each_bound() {
    assert_eq!(SearchParams::new(127, 0, 8), Err(ParamError::TargetOutOfRange));
    assert_eq!(SearchParams::new(4_294_967_295, 0, 8), Err(ParamError::TargetOutOfRange));
    assert_eq!(SearchParams::new(500, 4_294_967_295, 8), Err(ParamError::ToleranceOutOfRange));
    assert_eq!(SearchParams::new(500, 10, 7), Err(ParamError::CeilingOutOfRange));
    assert_eq!(SearchParams::new(500, 10, 16_384), Err(ParamError::CeilingOutOfRange));
}

#[test]
fn start_below_original_brackets_unit_range() {
    let e = SearchEngine::start(params(500, 10, 50), 4000, ratio());
    assert_eq!((e.low, e.high), (0, SCALE_ONE));
    assert_eq!(e.scale, SCALE_ONE);
    assert_eq!(e.best, BestKnown { scale: SCALE_ONE, size: 4000, deficit: None });
}

#[test]
fn target_above_original_widens_bracket_past_one() {
    let e = SearchEngine::start(params(2000, 10, 50), 1000, ratio());
    assert_eq!(e.low, SCALE_ONE);
    assert_eq!(e.high, 2_100_000);
    assert_eq!(e.best.size, 2000);
    let mut e = e;
    // The unscaled candidate is under target: the lower bound drops by a half.
    match e.record(1000) {
        Step::Sample { low, high } => {
            assert_eq!((low, high), (500_000, 2_100_000));
            e.advance(1_800_000);
        }
        Step::Stop => panic!("search stopped early"),
    }
    assert_eq!(e.scale, 1_800_000);
    assert!(e.scale >= SCALE_ONE);
    assert_eq!(e.best, BestKnown { scale: SCALE_ONE, size: 1000, deficit: Some(1000) });
}

#[test]
fn negative_draw_keeps_previous_scale() {
    let mut e = SearchEngine::start(params(500, 10, 50), 4000, ratio());
    // Over target: the upper bound moves to 1.5.
    assert_eq!(e.record(4000), Step::Sample { low: 0, high: 1_500_000 });
    e.advance(100_000);
    assert_eq!(e.scale, 100_000);
    // Under target: the lower bound drops a third below 0.1, below zero.
    assert_eq!(e.record(300), Step::Sample { low: -233_333, high: 1_500_000 });
    e.advance(-5);
    assert_eq!(e.scale, 100_000);
    assert_eq!(e.iteration, 2);
}

#[test]
fn best_keeps_smallest_shortfall() {
    let mut e = SearchEngine::start(params(500, 0, 50), 4000, ratio());
    assert!(matches!(e.record(450), Step::Sample { .. }));
    assert_eq!(e.best.deficit, Some(50));
    e.advance(600_000);
    assert!(matches!(e.record(480), Step::Sample { .. }));
    assert_eq!(e.best, BestKnown { scale: 600_000, size: 480, deficit: Some(20) });
    e.advance(700_000);
    // Further under target, and over it: neither replaces the best.
    assert!(matches!(e.record(300), Step::Sample { .. }));
    e.advance(650_000);
    assert!(matches!(e.record(900), Step::Sample { .. }));
    assert_eq!(e.best.deficit, Some(20));
    assert_eq!(e.best.scale, 600_000);
}

#[test]
fn exact_target_counts_as_fitting() {
    let mut e = SearchEngine::start(params(500, 0, 50), 4000, ratio());
    e.record(500);
    assert_eq!(e.best, BestKnown { scale: SCALE_ONE, size: 500, deficit: Some(0) });
}

#[test]
fn stops_within_tolerance() {
    let mut e = SearchEngine::start(params(500, 10, 50), 4000, ratio());
    assert!(matches!(e.record(4000), Step::Sample { .. }));
    e.advance(200_000);
    assert_eq!(e.record(495), Step::Stop);
    assert!(!e.pending);
}

#[test]
fn never_stops_on_first_pass() {
    let mut e = SearchEngine::start(params(500, 10, 50), 4000, ratio());
    assert_eq!(e.record(495), Step::Sample { low: 500_000, high: SCALE_ONE });
    // Target just above the original: the bracket starts collapsed.
    let mut e = SearchEngine::start(params(1001, 10, 50), 1000, ratio());
    assert_eq!(e.record(2000), Step::Sample { low: SCALE_ONE, high: 1_500_000 });
}

#[test]
fn never_stops_over_target_before_ceiling() {
    let mut e = SearchEngine::start(params(500, 10, 50), 4000, ratio());
    e.record(4000);
    e.advance(990_000);
    e.low = 980_000;
    e.high = 1_000_000;
    // Within tolerance and collapsed, but over target.
    assert!(matches!(e.record(505), Step::Sample { .. }));
}

#[test]
fn stops_on_collapsed_bracket() {
    let mut e = SearchEngine::start(params(500, 0, 50), 4000, ratio());
    e.record(4000);
    e.advance(990_000);
    e.low = 980_000;
    e.high = 1_000_000;
    assert_eq!(e.record(400), Step::Stop);
}

#[test]
fn continues_on_first_pass_and_over_target() {
    let mut e = SearchEngine::start(params(500, 100, 50), 4000, CompressionRatio { encoded: 1, raw: 1 });
    assert!(e.continues(400));
    e.record(4000);
    e.advance(500_000);
    assert!(e.continues(600));
    // Last measurement missed the tolerance.
    assert!(e.continues(450));
    e.record(500);
    // Last one hit the target exactly, and the ratio scales it to one.
    assert!(!e.continues(450));
}

#[test]
fn ratio_scaled_one_is_exact() {
    let r = CompressionRatio { encoded: 2, raw: 4 };
    assert!(r.is_scaled_one(1000, 500));
    assert!(!r.is_scaled_one(1001, 500));
    assert!(!CompressionRatio { encoded: 2, raw: 0 }.is_scaled_one(0, 500));
}

#[test]
fn size_labels_by_thousands() {
    assert_eq!(size_label(999), (999, SizeUnit::B));
    assert_eq!(size_label(1_000), (1, SizeUnit::KB));
    assert_eq!(size_label(510_999), (510, SizeUnit::KB));
    assert_eq!(size_label(1_500_000), (1, SizeUnit::MB));
    assert_eq!(size_label(2_000_000_000), (2, SizeUnit::GB));
    assert_eq!(size_label(3_000_000_000_000), (3, SizeUnit::TB));
    assert_eq!(size_label(1_000_000_000_000_000), (1_000_000_000_000_000, SizeUnit::B));
    assert_eq!(SizeUnit::KB.suffix(), "KB");
    assert_eq!(SizeUnit::TB.divisor(), 1_000_000_000_000);
}

/// Encoded size of a uniform 1000 by 1000 image at `scale`: a fixed header
/// and a body that grows with the pixel count.
fn uniform_size(scale: i64) -> u64 {
    let side = ((1000 * scale as i128) / SCALE_ONE as i128).max(1) as u64;
    90 + side * side / 250
}

/// A fixed pseudo-random draw from `[low, high]`.
fn draw(seed: &mut u64, low: i64, high: i64) -> i64 {
    *seed = seed.wrapping_mul(6364136223846793005).wrapping_add(1442695040888963407);
    let span = (high - low) as u64 + 1;
    low + ((*seed >> 33) % span) as i64
}

#[test]
fn uniform_unit_search_ends_downscaled_under_target() {
    let p = params(500, 10, 50);
    let original = uniform_size(SCALE_ONE);
    let mut e = SearchEngine::start(p, original, CompressionRatio { encoded: original, raw: 4_000_000 });
    let mut seed = 7u64;
    let mut size = uniform_size(e.scale);
    let mut cycles = 0u32;
    while e.continues(size) {
        match e.record(size) {
            Step::Stop => break,
            Step::Sample { low, high } => {
                let d = draw(&mut seed, low, high);
                assert!(low <= d && d <= high);
                e.advance(d);
                size = uniform_size(e.scale);
                cycles += 1;
            }
        }
    }
    assert!(cycles <= 51);
    assert!(e.iteration <= 51);
    assert!(e.best.deficit.is_some());
    assert!(e.best.size <= 510);
    let side = (1000 * e.best.scale as i128 / SCALE_ONE as i128) as u64;
    assert!(side < 1000);
    assert_eq!(uniform_size(e.best.scale), e.best.size);
}
