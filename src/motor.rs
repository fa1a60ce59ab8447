use vstd::prelude::*;

use crate::hal::{MotorBuilder, MotorObject, MoveAction, RestAction, SmartDeskError};
use crate::hardware_error::HardwareError;
use crate::motion::TableMotion;
use core::marker::PhantomData;

verus! {

/// Phase marker of a motor that drives one relay.
pub struct Moving;

/// Phase marker of a motor with both relays released.
pub struct Resting;

/// A motor handle in phase `T`: the relay pins and the level each relay is driven to.
pub struct Motor<T> {
    pins: MotorRelayPins,
    relay_up: bool,
    relay_down: bool,
    _state: PhantomData<T>,
}

/// GPIO numbers of the raise and lower relays.
#[derive(Debug, PartialEq, Eq, Structural, Clone, Copy)]
pub struct MotorRelayPins {
    pub gpio_relay_up_pin: u8,
    pub gpio_relay_down_pin: u8,
}

impl<T> Motor<T> {
    /// The relay pins the handle drives.
    pub closed spec fn pins_spec(&self) -> MotorRelayPins {
        self.pins
    }

    /// The raise relay is driven high.
    pub closed spec fn up_high(&self) -> bool {
        self.relay_up
    }

    /// The lower relay is driven high.
    pub closed spec fn down_high(&self) -> bool {
        self.relay_down
    }

    pub fn pins(&self) -> (r: MotorRelayPins)
        ensures
            r == self.pins_spec(),
    {
        self.pins
    }

    /// Level of the raise relay.
    pub fn relay_up_level(&self) -> (r: bool)
        ensures
            r == self.up_high(),
    {
        self.relay_up
    }

    /// Level of the lower relay.
    pub fn relay_down_level(&self) -> (r: bool)
        ensures
            r == self.down_high(),
    {
        self.relay_down
    }
}

impl MotorBuilder<Motor<Resting>, Motor<Moving>> for MotorObject<Motor<Resting>, Motor<Moving>> {
    type InitParams = MotorRelayPins;

    type Err = HardwareError;

    /// A resting handle on the given pins, both relays low.
    fn new(pins: MotorRelayPins) -> (r: Result<MotorObject<Motor<Resting>, Motor<Moving>>, HardwareError>)
        ensures
            r matches Ok(MotorObject::Resting(m)) && m.pins_spec() == pins && !m.up_high() && !m.down_high(),
    {
        Ok(MotorObject::Resting(Motor { pins, relay_up: false, relay_down: false, _state: PhantomData }))
    }
}

impl MoveAction for Motor<Resting> {
    type NextState = Motor<Moving>;

    /// `Up` drives the raise relay high and the lower one low, `Down` the reverse;
    /// `Rest` is refused.
    fn start_move_desk(self, direction: TableMotion) -> (r: Result<Motor<Moving>, SmartDeskError>)
        ensures
            direction == TableMotion::Up ==> (r matches Ok(m) && m.up_high() && !m.down_high()
                && m.pins_spec() == self.pins_spec()),
            direction == TableMotion::Down ==> (r matches Ok(m) && !m.up_high() && m.down_high()
                && m.pins_spec() == self.pins_spec()),
            direction == TableMotion::Rest ==> r == Err::<Motor<Moving>, SmartDeskError>(
                SmartDeskError::WrongState,
            ),
    {
        let pins = self.pins;
        match direction {
            TableMotion::Up => Ok(Motor { pins, relay_up: true, relay_down: false, _state: PhantomData }),
            TableMotion::Down => Ok(Motor { pins, relay_up: false, relay_down: true, _state: PhantomData }),
            TableMotion::Rest => Err(SmartDeskError::WrongState),
        }
    }
}

impl RestAction for Motor<Moving> {
    type NextState = Motor<Resting>;

    /// Drives both relays low.
    fn stop_move_desk(self) -> (r: Result<Motor<Resting>, SmartDeskError>)
        ensures
            r matches Ok(m) && !m.up_high() && !m.down_high() && m.pins_spec() == self.pins_spec(),
    {
        Ok(Motor { pins: self.pins, relay_up: false, relay_down: false, _state: PhantomData })
    }
}

} // verus!
