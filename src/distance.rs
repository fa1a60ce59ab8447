use vstd::prelude::*;

use crate::hardware_error::HardwareError;
use crate::motion::{Interaction, TableMotion};

verus! {

/// Readings closer to the sensor than this (20 cm, in micrometres) are a close object.
pub const CLOSE_OBJECT_UM: u64 = 200_000;

/// Half-width of the window around the target (5 cm, in micrometres).
pub const TARGET_MARGIN_UM: u64 = 50_000;

/// Micrometres in one centimetre.
pub const UM_PER_CM: u64 = 10_000;

/// Outcome of one measurement of the ultrasonic sampler.
#[derive(Debug, PartialEq, Eq, Structural, Clone, Copy)]
pub enum Measurement {
    /// The measurement itself failed (hardware timeout).
    Failed,
    /// The sampler answered without a usable value (out of its range).
    NoValue,
    /// A distance from the sensor, in micrometres.
    Micrometres(u64),
}

/// `d` lies strictly within the margin around `target`.
pub open spec fn within_margin_spec(d: int, target: int) -> bool {
    -(TARGET_MARGIN_UM as int) < d - target < TARGET_MARGIN_UM as int
}

/// The classification of a distance `d` (micrometres) against the motion and the target.
pub open spec fn classify_spec(d: int, motion: TableMotion, target: int) -> Interaction {
    if d < CLOSE_OBJECT_UM as int {
        Interaction::CloseObject
    } else if within_margin_spec(d, target) {
        Interaction::TargetMet
    } else if (motion == TableMotion::Up && d > target) || (motion == TableMotion::Down && d
        < target) {
        Interaction::TargetExceeded
    } else {
        Interaction::NoInteraction
    }
}

/// What one measurement yields: its classification, or the hardware error it stands for.
pub open spec fn measurement_spec(m: Measurement, motion: TableMotion, target: int) -> Result<
    Interaction,
    HardwareError,
> {
    match m {
        Measurement::Failed => Err(HardwareError::NoDistance),
        Measurement::NoValue => Err(HardwareError::DistanceOutOfRange),
        Measurement::Micrometres(d) => Ok(classify_spec(d as int, motion, target)),
    }
}

fn within_margin(distance: u64, programmed_height: u64) -> (r: bool)
    ensures
        r == within_margin_spec(distance as int, programmed_height as int),
{
    if distance >= programmed_height {
        distance - programmed_height < TARGET_MARGIN_UM
    } else {
        programmed_height - distance < TARGET_MARGIN_UM
    }
}

/// Classifies a distance reading (micrometres) against the current motion and target.
pub fn classify(distance: u64, motion: TableMotion, target: u64) -> (r: Interaction)
    ensures
        r == classify_spec(distance as int, motion, target as int),
        distance < CLOSE_OBJECT_UM ==> r == Interaction::CloseObject,
        distance >= CLOSE_OBJECT_UM && within_margin_spec(distance as int, target as int) ==> r
            == Interaction::TargetMet,
        distance >= CLOSE_OBJECT_UM && !within_margin_spec(distance as int, target as int) && (
        (motion == TableMotion::Up && distance > target) || (motion == TableMotion::Down
            && distance < target)) ==> r == Interaction::TargetExceeded,
        distance >= CLOSE_OBJECT_UM && !within_margin_spec(distance as int, target as int) && !(
        (motion == TableMotion::Up && distance > target) || (motion == TableMotion::Down
            && distance < target)) ==> r == Interaction::NoInteraction,
{
    if distance < CLOSE_OBJECT_UM {
        Interaction::CloseObject
    } else if within_margin(distance, target) {
        Interaction::TargetMet
    } else if (motion == TableMotion::Up && distance > target) || (motion == TableMotion::Down
        && distance < target) {
        Interaction::TargetExceeded
    } else {
        Interaction::NoInteraction
    }
}

/// Turns one measurement into an interaction: a failed measurement is `NoDistance`, one
/// without a usable value is `DistanceOutOfRange`, a distance is classified.
pub fn interpret_measurement(m: Measurement, motion: TableMotion, target: u64) -> (r: Result<
    Interaction,
    HardwareError,
>)
    ensures
        r == measurement_spec(m, motion, target as int),
{
    match m {
        Measurement::Failed => Err(HardwareError::NoDistance),
        Measurement::NoValue => Err(HardwareError::DistanceOutOfRange),
        Measurement::Micrometres(d) => Ok(classify(d, motion, target)),
    }
}

/// Pins of the ultrasonic sampler: trigger and echo.
#[derive(Debug, PartialEq, Eq, Structural, Clone, Copy)]
pub struct SamplerPins {
    pub trigger_pin: u8,
    pub echo_pin: u8,
}

/// GPIO of the sampler's trigger line.
pub const GPIO_TRIG: u8 = 24;

/// GPIO of the sampler's echo line.
pub const GPIO_ECHO: u8 = 25;

/// A distance sampler that can be built from its fixed wiring.
pub trait Distance {
    type Object;

    fn new() -> Self::Object;
}

impl Distance for SamplerPins {
    type Object = SamplerPins;

    fn new() -> (r: SamplerPins)
        ensures
            r.trigger_pin == GPIO_TRIG,
            r.echo_pin == GPIO_ECHO,
    {
        SamplerPins { trigger_pin: GPIO_TRIG, echo_pin: GPIO_ECHO }
    }
}

} // verus!
