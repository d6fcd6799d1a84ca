use particle_fountain::launch::{
    launch_velocity, spread, unit, Generator, LAUNCH_SIDE_MAX, LAUNCH_SIDE_MIN, LAUNCH_SIDE_SPAN,
    LAUNCH_UP_MAX, LAUNCH_UP_MIN, LAUNCH_UP_SPAN, MINUS_ONE, ONE, TWO, WORD_STEP,
};
use particle_fountain::scalar::Scalar;

fn of(value: f32) -> Scalar {
    Scalar::from_bits(value.to_bits())
}

fn to(value: Scalar) -> f32 {
    f32::from_bits(value.to_bits())
}

/// The spread written with the machine's own arithmetic.
fn hardware_spread(word: u32, low: f32, span: f32, high: f32) -> f32 {
    let unit = f32::from_bits(0x3F80_0000 + (word >> 9));
    let raw = low + span * (unit + -1.0);
    if raw.is_nan() || raw < low {
        low
    } else if high < raw {
        high
    } else {
        raw
    }
}

#[test]
fn launch_constants_are_the_numbers_they_name() {
    assert_eq!(LAUNCH_UP_MIN, 0.5f32.to_bits());
    assert_eq!(LAUNCH_UP_MAX, 2.0f32.to_bits());
    assert_eq!(LAUNCH_UP_SPAN, (2.0f32 - 0.5f32).to_bits());
    assert_eq!(LAUNCH_SIDE_MIN, (-0.3f32).to_bits());
    assert_eq!(LAUNCH_SIDE_MAX, 0.3f32.to_bits());
    assert_eq!(LAUNCH_SIDE_MIN, (-1.5f32 / 5.0f32).to_bits());
    assert_eq!(LAUNCH_SIDE_MAX, (1.5f32 / 5.0f32).to_bits());
    assert_eq!(LAUNCH_SIDE_SPAN, (0.3f32 - -0.3f32).to_bits());
    assert_eq!(ONE, 1.0f32.to_bits());
    assert_eq!(MINUS_ONE, (-1.0f32).to_bits());
    assert_eq!(TWO, 2.0f32.to_bits());
    assert_eq!(WORD_STEP, 1 << 9);
}

#[test]
fn unit_runs_from_one_to_just_below_two() {
    assert_eq!(unit(0), of(1.0));
    assert_eq!(unit(511), of(1.0));
    assert_eq!(unit(512), Scalar::from_bits(0x3F80_0001));
    assert_eq!(unit(0x8000_0000), of(1.5));
    assert_eq!(unit(0xC000_0000), of(1.75));
    assert_eq!(unit(u32::MAX), Scalar::from_bits(0x3FFF_FFFF));
    assert!(to(unit(u32::MAX)) < 2.0);
}

#[test]
fn spread_of_zero_word_is_the_low_end() {
    assert_eq!(spread(0, of(0.5), of(1.5), of(2.0)), of(0.5));
    assert_eq!(spread(0, of(-0.3), of(0.6), of(0.3)), of(-0.3));
    assert_eq!(spread(511, of(0.5), of(1.5), of(2.0)), of(0.5));
}

#[test]
fn spread_of_middle_word_is_the_middle() {
    assert_eq!(spread(0x8000_0000, of(0.5), of(1.5), of(2.0)), of(1.25));
    assert_eq!(spread(0x8000_0000, of(0.0), of(1.0), of(1.0)), of(0.5));
    assert_eq!(spread(0x4000_0000, of(0.0), of(1.0), of(1.0)), of(0.25));
    assert_eq!(spread(0x8000_0000, of(-0.3), of(0.6), of(0.3)), of(-0.3 + 0.6 * 0.5));
}

#[test]
fn spread_of_greatest_word_stays_inside() {
    let up = to(spread(u32::MAX, of(0.5), of(1.5), of(2.0)));
    assert!(up <= 2.0 && up > 1.99999);
    let side = to(spread(u32::MAX, of(-0.3), of(0.6), of(0.3)));
    assert!(side <= 0.3 && side > 0.29999);
}

#[test]
fn spread_agrees_with_hardware_arithmetic() {
    let mut word: u32 = 0;
    for _ in 0..5000 {
        assert_eq!(spread(word, of(0.5), of(1.5), of(2.0)), of(hardware_spread(word, 0.5, 1.5, 2.0)));
        assert_eq!(spread(word, of(-0.3), of(0.6), of(0.3)), of(hardware_spread(word, -0.3, 0.6, 0.3)));
        word = word.wrapping_mul(1_664_525).wrapping_add(1_013_904_223);
    }
}

#[test]
fn spread_clamps_when_span_overshoots() {
    assert_eq!(spread(u32::MAX, of(0.0), of(10.0), of(1.0)), of(1.0));
    assert_eq!(spread(0x8000_0000, of(0.0), of(-10.0), of(1.0)), of(0.0));
    assert_eq!(spread(0x8000_0000, of(0.0), of(f32::NAN), of(1.0)), of(0.0));
}

#[test]
fn launch_velocity_puts_words_on_their_axes() {
    let v = launch_velocity(0, u32::MAX);
    assert_eq!(v.x, of(-0.3));
    assert_eq!(v.y, of(hardware_spread(u32::MAX, 0.5, 1.5, 2.0)));
    let w = launch_velocity(0x8000_0000, 0);
    assert_eq!(w.x, of(hardware_spread(0x8000_0000, -0.3, 0.6, 0.3)));
    assert_eq!(w.y, of(0.5));
}

#[test]
fn launch_velocity_is_always_in_range() {
    let mut word: u32 = 12345;
    for _ in 0..10_000 {
        let side_word = word;
        word = word.wrapping_mul(1_664_525).wrapping_add(1_013_904_223);
        let up_word = word;
        word = word.wrapping_mul(1_664_525).wrapping_add(1_013_904_223);
        let v = launch_velocity(side_word, up_word);
        let (x, y) = (to(v.x), to(v.y));
        assert!((-0.3..=0.3).contains(&x), "x {x}");
        assert!((0.5..=2.0).contains(&y), "y {y}");
    }
}

#[test]
fn relaunch_samples_stay_in_range_and_centre_on_the_midpoint() {
    let mut generator = Generator::seeded(20_240_229);
    let trials: usize = 10_000;
    let mut sum_x: f64 = 0.0;
    let mut sum_y: f64 = 0.0;
    let mut min_y = f32::INFINITY;
    let mut max_y = f32::NEG_INFINITY;
    let mut min_x = f32::INFINITY;
    let mut max_x = f32::NEG_INFINITY;
    for _ in 0..trials {
        let v = generator.launch();
        let (x, y) = (to(v.x), to(v.y));
        assert!((-0.3..=0.3).contains(&x), "x {x}");
        assert!((0.5..=2.0).contains(&y), "y {y}");
        sum_x += x as f64;
        sum_y += y as f64;
        min_x = min_x.min(x);
        max_x = max_x.max(x);
        min_y = min_y.min(y);
        max_y = max_y.max(y);
    }
    let mean_x = sum_x / trials as f64;
    let mean_y = sum_y / trials as f64;
    assert!(mean_x.abs() < 0.01, "mean x {mean_x}");
    assert!((mean_y - 1.25).abs() < 0.025, "mean y {mean_y}");
    assert!(min_x < -0.29 && max_x > 0.29);
    assert!(min_y < 0.51 && max_y > 1.99);
}

#[test]
fn seeded_generators_repeat_themselves() {
    let mut a = Generator::seeded(42);
    let mut b = Generator::seeded(42);
    let mut c = Generator::seeded(43);
    let mut differs = false;
    for _ in 0..100 {
        let va = a.launch();
        assert_eq!(va, b.launch());
        if va != c.launch() {
            differs = true;
        }
    }
    assert!(differs);
}
