use vstd::prelude::*;

use crate::distance::{interpret_measurement, measurement_spec, Distance, Measurement};
use crate::hardware_error::HardwareError;
use crate::motion::{Interaction, TableMotion};
use crate::motor::{Motor, Moving, Resting};

verus! {

/// A motor handle tagged with its phase.
pub enum MotorObject<M: MoveAction, R: RestAction> {
    Moving(R),
    Resting(M),
}

/// Builds a resting motor handle from its initialisation parameters.
pub trait MotorBuilder<M, R> where M: MoveAction, R: RestAction {
    type InitParams;

    type Err;

    fn new(init: Self::InitParams) -> (r: Result<MotorObject<M, R>, Self::Err>)
        ensures
            r matches Ok(MotorObject::Resting(_)),
    ;
}

/// A motor operation was asked of a handle in the wrong phase.
#[derive(Debug, PartialEq, Eq, Structural, Clone, Copy)]
pub enum SmartDeskError {
    WrongState,
}

/// The operation of a resting handle: start moving in a direction.
pub trait MoveAction: Sized {
    type NextState;

    fn start_move_desk(self, direction: TableMotion) -> (r: Result<Self::NextState, SmartDeskError>)
        ensures
            direction == TableMotion::Rest ==> r is Err,
    ;
}

/// The operation of a moving handle: stop.
pub trait RestAction: Sized {
    type NextState;

    fn stop_move_desk(self) -> (r: Result<Self::NextState, SmartDeskError>);
}

/// The hardware composite: one motor slot and one distance-sampler slot, both
/// filled once before use.
pub struct IO<M: MoveAction, R: RestAction, D: Distance> {
    motor: Option<MotorObject<M, R>>,
    distance: Option<D>,
}

impl<M: MoveAction, R: RestAction, D: Distance> IO<M, R, D> {
    /// What the motor slot holds.
    pub closed spec fn motor_slot(&self) -> Option<MotorObject<M, R>> {
        self.motor
    }

    /// What the sampler slot holds.
    pub closed spec fn distance_slot(&self) -> Option<D> {
        self.distance
    }

    /// The motor slot holds a resting handle.
    pub open spec fn is_resting(&self) -> bool {
        self.motor_slot() matches Some(MotorObject::Resting(_))
    }

    /// The motor slot holds a moving handle.
    pub open spec fn is_moving(&self) -> bool {
        self.motor_slot() matches Some(MotorObject::Moving(_))
    }

    /// Both slots are filled.
    pub open spec fn is_configured(&self) -> bool {
        self.motor_slot() is Some && self.distance_slot() is Some
    }

    pub fn new() -> (r: IO<M, R, D>)
        ensures
            r.motor_slot() is None,
            r.distance_slot() is None,
    {
        IO { motor: None, distance: None }
    }

    pub fn configure_distance(&mut self, distance_sensor: D)
        ensures
            final(self).distance_slot() == Some(distance_sensor),
            final(self).motor_slot() == old(self).motor_slot(),
    {
        self.distance = Some(distance_sensor)
    }

    pub fn configure_motor(&mut self, motor: MotorObject<M, R>)
        ensures
            final(self).motor_slot() == Some(motor),
            final(self).distance_slot() == old(self).distance_slot(),
    {
        self.motor = Some(motor)
    }

    /// The configured sampler, if any.
    pub fn distance_sensor(&self) -> (r: Option<&D>)
        ensures
            r is Some <==> self.distance_slot() is Some,
            r is Some ==> *r->Some_0 == self.distance_slot()->Some_0,
    {
        match &self.distance {
            Some(d) => Some(d),
            None => None,
        }
    }

    /// Classifies one measurement of the sampler against the motion and the target
    /// (micrometres); `NotConfigured` when no sampler is attached.
    pub fn find_interaction(&self, measurement: Measurement, motion: TableMotion, target: u64) -> (r:
        Result<Interaction, HardwareError>)
        ensures
            self.distance_slot() is None ==> r == Err::<Interaction, HardwareError>(
                HardwareError::NotConfigured,
            ),
            self.distance_slot() is Some ==> r == measurement_spec(
                measurement,
                motion,
                target as int,
            ),
    {
        if self.distance.is_none() {
            return Err(HardwareError::NotConfigured);
        }
        interpret_measurement(measurement, motion, target)
    }
}

/// A composite whose motor is the relay motor.
pub type RelayIO<D> = IO<Motor<Resting>, Motor<Moving>, D>;

impl<D: Distance> RelayIO<D> {
    /// The motor slot holds a moving handle that drives exactly the relay of `direction`.
    pub open spec fn drives(&self, direction: TableMotion) -> bool {
        match self.motor_slot() {
            Some(MotorObject::Moving(m)) => (direction == TableMotion::Up && m.up_high() && !m.down_high())
                || (direction == TableMotion::Down && !m.up_high() && m.down_high()),
            _ => false,
        }
    }

    /// The motor slot holds a resting handle with both relays low.
    pub open spec fn released(&self) -> bool {
        match self.motor_slot() {
            Some(MotorObject::Resting(m)) => !m.up_high() && !m.down_high(),
            _ => false,
        }
    }

    /// Relay levels (raise, lower) of the configured motor; `None` when none is attached.
    pub fn relay_levels(&self) -> (r: Option<(bool, bool)>)
        ensures
            match self.motor_slot() {
                Some(MotorObject::Resting(m)) => r == Some((m.up_high(), m.down_high())),
                Some(MotorObject::Moving(m)) => r == Some((m.up_high(), m.down_high())),
                None => r is None,
            },
    {
        match &self.motor {
            Some(MotorObject::Resting(m)) => Some((m.relay_up_level(), m.relay_down_level())),
            Some(MotorObject::Moving(m)) => Some((m.relay_up_level(), m.relay_down_level())),
            None => None,
        }
    }
}

impl<D: Distance> MoveAction for RelayIO<D> {
    type NextState = RelayIO<D>;

    /// Starts the resting motor towards `direction`. Refused as `WrongState` when the
    /// motor slot holds no resting handle, or when the direction is `Rest`.
    fn start_move_desk(self, direction: TableMotion) -> (r: Result<RelayIO<D>, SmartDeskError>)
        ensures
            r is Ok <==> (self.is_resting() && direction != TableMotion::Rest),
            r is Err ==> r == Err::<RelayIO<D>, SmartDeskError>(SmartDeskError::WrongState),
            r is Ok ==> r->Ok_0.drives(direction) && r->Ok_0.distance_slot() == self.distance_slot(),
    {
        match self.motor {
            Some(MotorObject::Resting(obj)) => {
                match obj.start_move_desk(direction) {
                    Ok(moving) => Ok(
                        IO { motor: Some(MotorObject::Moving(moving)), distance: self.distance },
                    ),
                    Err(e) => Err(e),
                }
            },
            _ => Err(SmartDeskError::WrongState),
        }
    }
}

impl<D: Distance> RestAction for RelayIO<D> {
    type NextState = RelayIO<D>;

    /// Stops the moving motor, releasing both relays. Refused as `WrongState` when the
    /// motor slot holds no moving handle.
    fn stop_move_desk(self) -> (r: Result<RelayIO<D>, SmartDeskError>)
        ensures
            r is Ok <==> self.is_moving(),
            r is Err ==> r == Err::<RelayIO<D>, SmartDeskError>(SmartDeskError::WrongState),
            r is Ok ==> r->Ok_0.released() && r->Ok_0.distance_slot() == self.distance_slot(),
    {
        match self.motor {
            Some(MotorObject::Moving(obj)) => {
                match obj.stop_move_desk() {
                    Ok(resting) => Ok(
                        IO { motor: Some(MotorObject::Resting(resting)), distance: self.distance },
                    ),
                    Err(e) => Err(e),
                }
            },
            _ => Err(SmartDeskError::WrongState),
        }
    }
}

} // verus!
