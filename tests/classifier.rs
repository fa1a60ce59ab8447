use smart_desk::distance::{classify, interpret_measurement, Measurement};
use smart_desk::hardware_error::HardwareError;
use smart_desk::motion::{Interaction, TableMotion};

#[test]
fn close_object_regardless_of_motion_and_target() {
    for motion in [TableMotion::Up, TableMotion::Down, TableMotion::Rest] {
        for target in [0u64, 150_000, 1_200_000] {
            assert_eq!(classify(150_000, motion, target), Interaction::CloseObject);
            assert_eq!(classify(0, motion, target), Interaction::CloseObject);
            assert_eq!(classify(199_999, motion, target), Interaction::CloseObject);
        }
    }
}

#[test]
fn twenty_centimetres_is_not_close() {
    assert_eq!(classify(200_000, TableMotion::Rest, 0), Interaction::NoInteraction);
}

#[test]
fn within_five_centimetres_is_target_met() {
    for motion in [TableMotion::Up, TableMotion::Down, TableMotion::Rest] {
        assert_eq!(classify(1_190_000, motion, 1_200_000), Interaction::TargetMet);
        assert_eq!(classify(1_249_999, motion, 1_200_000), Interaction::TargetMet);
        assert_eq!(classify(1_150_001, motion, 1_200_000), Interaction::TargetMet);
    }
}

#[test]
fn exactly_five_centimetres_off_is_not_met() {
    assert_eq!(classify(1_150_000, TableMotion::Rest, 1_200_000), Interaction::NoInteraction);
    assert_eq!(classify(1_250_000, TableMotion::Rest, 1_200_000), Interaction::NoInteraction);
}

#[test]
fn passing_the_target_is_exceeded() {
    assert_eq!(classify(1_300_000, TableMotion::Up, 1_200_000), Interaction::TargetExceeded);
    assert_eq!(classify(1_250_000, TableMotion::Up, 1_200_000), Interaction::TargetExceeded);
    assert_eq!(classify(600_000, TableMotion::Down, 650_000), Interaction::TargetExceeded);
}

#[test]
fn otherwise_no_interaction() {
    assert_eq!(classify(900_000, TableMotion::Up, 1_200_000), Interaction::NoInteraction);
    assert_eq!(classify(1_150_000, TableMotion::Up, 1_200_000), Interaction::NoInteraction);
    assert_eq!(classify(900_000, TableMotion::Down, 650_000), Interaction::NoInteraction);
    assert_eq!(classify(1_300_000, TableMotion::Down, 1_200_000), Interaction::NoInteraction);
    assert_eq!(classify(1_300_000, TableMotion::Rest, 1_200_000), Interaction::NoInteraction);
    assert_eq!(classify(250_000, TableMotion::Rest, 0), Interaction::NoInteraction);
}

#[test]
fn failed_measurement_is_no_distance() {
    assert_eq!(
        interpret_measurement(Measurement::Failed, TableMotion::Up, 1_200_000),
        Err(HardwareError::NoDistance)
    );
}

#[test]
fn measurement_without_value_is_out_of_range() {
    assert_eq!(
        interpret_measurement(Measurement::NoValue, TableMotion::Up, 1_200_000),
        Err(HardwareError::DistanceOutOfRange)
    );
}

#[test]
fn measured_distance_is_classified() {
    assert_eq!(
        interpret_measurement(Measurement::Micrometres(1_210_000), TableMotion::Up, 1_200_000),
        Ok(Interaction::TargetMet)
    );
}

#[test]
fn error_messages() {
    assert_eq!(HardwareError::NoDistance.message(), "Distance measurement failed");
    assert_eq!(HardwareError::DistanceOutOfRange.message(), "Object out of range");
    assert_eq!(HardwareError::NotConfigured.message(), "Hardware not configured");
}
