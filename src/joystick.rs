use crate::player::PlayerDirection;
use vstd::prelude::*;

verus! {

/// Readings of the stick's vertical axis below this point up.
pub const UP_THRESHOLD: u16 = 1500;

/// Readings of the stick's vertical axis above this point down.
pub const DOWN_THRESHOLD: u16 = 3000;

/// The direction that an analog reading of the stick stands for.
pub open spec fn direction_of(adc_value: u16) -> PlayerDirection {
    if adc_value < UP_THRESHOLD {
        PlayerDirection::Up
    } else if adc_value > DOWN_THRESHOLD {
        PlayerDirection::Down
    } else {
        PlayerDirection::Idle
    }
}

/// Classifies one analog reading of the stick, as the input sampler publishes it.
pub fn direction_from_adc(adc_value: u16) -> (r: PlayerDirection)
    ensures
        r == direction_of(adc_value),
{
    if adc_value < UP_THRESHOLD {
        PlayerDirection::Up
    } else if adc_value > DOWN_THRESHOLD {
        PlayerDirection::Down
    } else {
        PlayerDirection::Idle
    }
}

} // verus!
