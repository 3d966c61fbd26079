//! Food: where it lies and which power-up it carries.

use crate::grid::Position;
use crate::power_up::PowerType;
use crate::random::gen_range;
use rand::rngs::ThreadRng;
use vstd::prelude::*;

verus! {

/// A roll is a number of thousandths: one of `0 .. ROLL_RANGE`.
pub const ROLL_RANGE: u16 = 1000;

/// Rolls below this one give invulnerability: one food in ten.
pub const INVULNERABILITY_BELOW: u16 = 100;

/// Rolls below this one, and not below the one above, give a score
/// multiplier: fifteen foods in a hundred.
pub const SCORE_MULTIPLIER_BELOW: u16 = 250;

/// The factor of a score multiplier is one of `0 .. FACTOR_RANGE`.
pub const FACTOR_RANGE: u16 = 5;

/// The power-up that a roll selects. `factor` is the factor of the score
/// multiplier, where the roll selects one.
pub open spec fn select_power_spec(roll: u16, factor: u16) -> PowerType {
    if roll < INVULNERABILITY_BELOW {
        PowerType::Invulnerability
    } else if roll < SCORE_MULTIPLIER_BELOW {
        PowerType::ScoreMultiplier(factor)
    } else {
        PowerType::NoPower
    }
}

/// Some roll and some factor, each in its range, select this power-up.
pub open spec fn can_be_rolled(power: PowerType) -> bool {
    exists|roll: u16, factor: u16|
        roll < ROLL_RANGE && factor < FACTOR_RANGE && power == #[trigger] select_power_spec(
            roll,
            factor,
        )
}

/// The power-up that a roll selects: invulnerability below a tenth, a score
/// multiplier of the given factor from there to below a quarter, and none
/// from a quarter on.
pub fn select_power(roll: u16, factor: u16) -> (power: PowerType)
    ensures
        power == select_power_spec(roll, factor),
{
    if roll < INVULNERABILITY_BELOW {
        PowerType::Invulnerability
    } else if roll < SCORE_MULTIPLIER_BELOW {
        PowerType::ScoreMultiplier(factor)
    } else {
        PowerType::NoPower
    }
}

/// The power-ups that a roll can select are invulnerability, plain food and
/// the score multipliers with a factor in range.
pub proof fn lemma_can_be_rolled(power: PowerType)
    ensures
        can_be_rolled(power) <==> match power {
            PowerType::NoPower => true,
            PowerType::ScoreMultiplier(factor) => factor < FACTOR_RANGE,
            PowerType::Invulnerability => true,
        },
{
    match power {
        PowerType::NoPower => {
            assert(power == select_power_spec(SCORE_MULTIPLIER_BELOW, 0));
        },
        PowerType::ScoreMultiplier(factor) => {
            if factor < FACTOR_RANGE {
                assert(power == select_power_spec(INVULNERABILITY_BELOW, factor));
            }
        },
        PowerType::Invulnerability => {
            assert(power == select_power_spec(0, 0));
        },
    }
}

/// A food item on the board.
#[derive(Clone, Copy, Debug, PartialEq, Eq, Structural)]
pub struct Food {
    /// Where the food lies.
    pub r: Position,
    /// The power-up that the snake gets when it eats the food.
    pub power_type: PowerType,
}

impl Food {
    /// Rolls the power-up of a new food item.
    pub fn random_power(rng: &mut ThreadRng) -> (power: PowerType)
        ensures
            can_be_rolled(power),
    {
        let probability: u16 = gen_range(rng, 0, ROLL_RANGE as i16) as u16;

        if probability < INVULNERABILITY_BELOW || probability >= SCORE_MULTIPLIER_BELOW {
            select_power(probability, 0)
        } else {
            let v: u16 = gen_range(rng, 0, FACTOR_RANGE as i16) as u16;
            select_power(probability, v)
        }
    }

    pub fn at_random_position(start_pos: Position, power: PowerType, _rng: &mut ThreadRng) -> (food:
        Self)
        ensures
            food == (Food { r: start_pos, power_type: power }),
    {
        Self { r: start_pos, power_type: power }
    }
}

} // verus!
