//! Launch velocities: where the randomness of the fountain comes in.
//!
//! Random words come from `rand`'s `StdRng`. Everything after the draw, from
//! the word to a velocity inside the launch ranges, is decided here.

use crate::scalar::{clamp_lands_within, rank_orders_values, Scalar};
use crate::vector::Vec2;
use rand::rngs::StdRng;
use rand::{RngCore, SeedableRng};
use vstd::prelude::*;

verus! {

/// Least upward launch speed, 0.5.
pub const LAUNCH_UP_MIN: u32 = 0x3F00_0000;

/// Greatest upward launch speed, 2.0.
pub const LAUNCH_UP_MAX: u32 = 0x4000_0000;

/// Width of the range of upward launch speeds, 1.5.
pub const LAUNCH_UP_SPAN: u32 = 0x3FC0_0000;

/// Least sideways launch speed, -0.3.
pub const LAUNCH_SIDE_MIN: u32 = 0xBE99_999A;

/// Greatest sideways launch speed, 0.3.
pub const LAUNCH_SIDE_MAX: u32 = 0x3E99_999A;

/// Width of the range of sideways launch speeds, 0.6.
pub const LAUNCH_SIDE_SPAN: u32 = 0x3F19_999A;

/// Bit pattern of 1.0, the least number with exponent zero.
pub const ONE: u32 = 0x3F80_0000;

/// Bit pattern of -1.0.
pub const MINUS_ONE: u32 = 0xBF80_0000;

/// Bit pattern of 2.0, the least number with exponent one.
pub const TWO: u32 = 0x4000_0000;

/// Words that differ by less than this give the same sample: the low nine
/// bits of a random word are not used.
pub const WORD_STEP: u32 = 512;

/// `rand`'s standard generator. Nothing inside it is visible here.
#[verifier::external_type_specification]
#[verifier::external_body]
pub struct ExStdRng(rand::rngs::StdRng);

/// Makes a `StdRng` with `SeedableRng::seed_from_u64`. Nothing is claimed of
/// the generator that comes back.
#[verifier::external_body]
fn seed_rng(seed: u64) -> StdRng {
    StdRng::seed_from_u64(seed)
}

/// Draws a word with `RngCore::next_u32`. Nothing is claimed of the word.
#[verifier::external_body]
fn next_word(rng: &mut StdRng) -> u32 {
    rng.next_u32()
}

/// Whether a launch velocity lies inside both launch ranges.
pub open spec fn launch_allowed(v: Vec2) -> bool {
    &&& v.x.within(Scalar { bits: LAUNCH_SIDE_MIN }, Scalar { bits: LAUNCH_SIDE_MAX })
    &&& v.y.within(Scalar { bits: LAUNCH_UP_MIN }, Scalar { bits: LAUNCH_UP_MAX })
}

/// The number whose fraction bits are the top 23 bits of `word` and whose
/// exponent is zero.
pub open spec fn unit_spec(word: u32) -> Scalar {
    Scalar { bits: (ONE + word / WORD_STEP) as u32 }
}

/// `word` spread over `[low, high]`: the fraction `unit_spec(word) - 1` of
/// `span` above `low`, clamped so that rounding cannot carry it outside.
pub open spec fn spread_spec(word: u32, low: Scalar, span: Scalar, high: Scalar) -> Scalar {
    let fraction = unit_spec(word).plus_spec(Scalar { bits: MINUS_ONE });
    low.plus_spec(span.times_spec(fraction)).clamp_spec(low, high)
}

/// The launch velocity made from two random words.
pub open spec fn launch_spec(side_word: u32, up_word: u32) -> Vec2 {
    Vec2 {
        x: spread_spec(
            side_word,
            Scalar { bits: LAUNCH_SIDE_MIN },
            Scalar { bits: LAUNCH_SIDE_SPAN },
            Scalar { bits: LAUNCH_SIDE_MAX },
        ),
        y: spread_spec(
            up_word,
            Scalar { bits: LAUNCH_UP_MIN },
            Scalar { bits: LAUNCH_UP_SPAN },
            Scalar { bits: LAUNCH_UP_MAX },
        ),
    }
}

/// The number whose fraction bits are the top 23 bits of `word` and whose
/// exponent is zero. Whatever the word, it is at least 1 and below 2.
pub fn unit(word: u32) -> (u: Scalar)
    ensures
        u == unit_spec(word),
        !u.is_nan_spec(),
        !u.lt_spec(Scalar { bits: ONE }),
        u.lt_spec(Scalar { bits: TWO }),
{
    proof {
        rank_orders_values(unit_spec(word), Scalar { bits: ONE });
        rank_orders_values(unit_spec(word), Scalar { bits: TWO });
    }
    Scalar::from_bits(ONE + word / WORD_STEP)
}

/// Spreads a random word over `[low, high]`, where `span` is the width of
/// that range.
pub fn spread(word: u32, low: Scalar, span: Scalar, high: Scalar) -> (s: Scalar)
    ensures
        s == spread_spec(word, low, span, high),
{
    let fraction = unit(word).plus(Scalar::from_bits(MINUS_ONE));
    low.plus(span.times(fraction)).clamp(low, high)
}

/// The launch velocity for two random words. Whatever the words are, it lies
/// inside the launch ranges.
pub fn launch_velocity(side_word: u32, up_word: u32) -> (v: Vec2)
    ensures
        v == launch_spec(side_word, up_word),
        launch_allowed(v),
{
    proof {
        launch_always_allowed(side_word, up_word);
    }
    Vec2::new(
        spread(
            side_word,
            Scalar::from_bits(LAUNCH_SIDE_MIN),
            Scalar::from_bits(LAUNCH_SIDE_SPAN),
            Scalar::from_bits(LAUNCH_SIDE_MAX),
        ),
        spread(
            up_word,
            Scalar::from_bits(LAUNCH_UP_MIN),
            Scalar::from_bits(LAUNCH_UP_SPAN),
            Scalar::from_bits(LAUNCH_UP_MAX),
        ),
    )
}

/// Every launch velocity lies inside the launch ranges: the upward speed in
/// `[0.5, 2.0]`, the sideways speed in `[-0.3, 0.3]`.
pub proof fn launch_always_allowed(side_word: u32, up_word: u32)
    ensures
        launch_allowed(launch_spec(side_word, up_word)),
{
    let side_min = Scalar { bits: LAUNCH_SIDE_MIN };
    let side_max = Scalar { bits: LAUNCH_SIDE_MAX };
    let up_min = Scalar { bits: LAUNCH_UP_MIN };
    let up_max = Scalar { bits: LAUNCH_UP_MAX };
    let side_raw = side_min.plus_spec(
        (Scalar { bits: LAUNCH_SIDE_SPAN }).times_spec(
            unit_spec(side_word).plus_spec(Scalar { bits: MINUS_ONE }),
        ),
    );
    let up_raw = up_min.plus_spec(
        (Scalar { bits: LAUNCH_UP_SPAN }).times_spec(
            unit_spec(up_word).plus_spec(Scalar { bits: MINUS_ONE }),
        ),
    );
    rank_orders_values(side_max, side_min);
    rank_orders_values(up_max, up_min);
    clamp_lands_within(side_raw, side_min, side_max);
    clamp_lands_within(up_raw, up_min, up_max);
}

/// The source of launch velocities. One made with `seeded` gives the same
/// velocities in the same order whenever it is made from the same seed.
pub struct Generator {
    rng: StdRng,
}

impl Generator {
    /// A generator that starts from `seed`.
    pub fn seeded(seed: u64) -> Generator {
        Generator { rng: seed_rng(seed) }
    }

    /// Draws the next launch velocity: a word for the upward speed, then a
    /// word for the sideways speed.
    pub fn launch(&mut self) -> (v: Vec2)
        ensures
            launch_allowed(v),
            exists|side_word: u32, up_word: u32| v == launch_spec(side_word, up_word),
    {
        let up_word = next_word(&mut self.rng);
        let side_word = next_word(&mut self.rng);
        launch_velocity(side_word, up_word)
    }
}

} // verus!
