use vstd::prelude::*;

verus! {

/// Failures of the sensing hardware, or of its configuration.
#[derive(Debug, PartialEq, Eq, Structural, Clone, Copy)]
pub enum HardwareError {
    NoDistance,
    DistanceOutOfRange,
    NotConfigured,
}

impl HardwareError {
    /// A human-readable description of the error.
    pub fn message(&self) -> (r: &'static str)
        ensures
            *self == HardwareError::NoDistance ==> r@ == "Distance measurement failed"@,
            *self == HardwareError::DistanceOutOfRange ==> r@ == "Object out of range"@,
            *self == HardwareError::NotConfigured ==> r@ == "Hardware not configured"@,
    {
        match self {
            HardwareError::NoDistance => "Distance measurement failed",
            HardwareError::DistanceOutOfRange => "Object out of range",
            HardwareError::NotConfigured => "Hardware not configured",
        }
    }
}

} // verus!
