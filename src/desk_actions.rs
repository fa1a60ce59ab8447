use vstd::prelude::*;

use crate::distance::{measurement_spec, Distance, Measurement, SamplerPins, UM_PER_CM};
use crate::hal::{MotorBuilder, MotorObject, MoveAction, RelayIO, RestAction, SmartDeskError, IO};
use crate::hardware_error::HardwareError;
use crate::motion::{Interaction, TableMotion};
use crate::motor::{Motor, MotorRelayPins, Moving, Resting};

verus! {

/// A close object must persist longer than this (ms) to count as a presence trigger.
pub const PRESENCE_DEBOUNCE_MS: u64 = 100;

/// Motion is aborted once an object has stayed close for longer than this (ms).
pub const OBSTACLE_ABORT_MS: u64 = 2000;

/// Motion that has not met its target after this long (ms) is abandoned.
pub const STALL_TIMEOUT_MS: u64 = 30_000;

/// A match must hold for longer than this (ms) before the target counts as reached.
pub const TARGET_SETTLE_MS: u64 = 10;

/// Pause (ms) after an idle reading that shows no interaction.
pub const IDLE_SLEEP_MS: u64 = 500;

/// The hardware the desk runs on.
pub type HAL = RelayIO<SamplerPins>;

/// Phase of the control loop, with its debounce clock (all times in ms).
#[derive(Debug, Clone, Copy)]
pub enum DeskPhase {
    /// Stationary; `close_since` is when the current run of close readings began.
    Idle { close_since: Option<u64> },
    /// Driving towards `target` (micrometres from the sensor).
    Moving {
        motion: TableMotion,
        target: u64,
        started: u64,
        last_not_close: u64,
        last_not_match: u64,
    },
}

/// Why a motion ended.
#[derive(Debug, PartialEq, Eq, Structural, Clone, Copy)]
pub enum StopReason {
    ObstacleAbort,
    StallTimeout,
    TargetReached,
}

/// What the loop around the desk does after a step.
#[derive(Debug, PartialEq, Eq, Structural, Clone, Copy)]
pub enum DeskAction {
    /// Take the next reading.
    Sample,
    /// The motor was started in this direction: apply the relay levels.
    Started(TableMotion),
    /// The motor was stopped: apply the relay levels.
    Stopped(StopReason),
    /// The idle phase is over without motion: pause this long, then begin it again.
    Yield { sleep_ms: u64 },
}

/// A failure of one step: a hardware error from the reading, or a motor operation in
/// the wrong phase.
#[derive(Debug, PartialEq, Eq, Structural, Clone, Copy)]
pub enum DeskError {
    Hardware(HardwareError),
    Motor(SmartDeskError),
}

/// In every well-formed state the two relays are never driven high together:
/// both are low while idle, and exactly the one of the motion is high while moving.
pub proof fn lemma_relays_exclusive(desk: SmartDesk)
    requires
        desk.wf(),
    ensures
        match desk.hal_spec().motor_slot() {
            Some(MotorObject::Resting(m)) => !m.up_high() && !m.down_high(),
            Some(MotorObject::Moving(m)) => m.up_high() != m.down_high(),
            None => false,
        },
{
}

/// Milliseconds from `since` to `now`, zero if `now` is not later.
pub open spec fn elapsed_spec(now: int, since: int) -> int {
    if now > since {
        now - since
    } else {
        0
    }
}

/// The motion and the target (micrometres) that a reading is classified against.
pub open spec fn classify_args(phase: DeskPhase, previous_motion: TableMotion) -> (TableMotion, int) {
    match phase {
        DeskPhase::Idle { .. } => (previous_motion, 0),
        DeskPhase::Moving { motion, target, .. } => (motion, target as int),
    }
}

/// The motion a presence trigger starts after `previous_motion`.
pub open spec fn next_motion_spec(previous_motion: TableMotion) -> TableMotion {
    if previous_motion == TableMotion::Up {
        TableMotion::Down
    } else {
        TableMotion::Up
    }
}

/// One decision of the control loop: from the phase, the last motion, the
/// interaction just read at `now`, and the two targets (micrometres), to the next
/// phase, the next last motion, and the action.
///
/// While idle, a presence trigger is timed from the first reading of an unbroken run
/// of close readings; the run starts afresh on every entry to the idle phase. While
/// moving, every reading that is not close restarts the obstacle timer, every reading
/// that does not match the target restarts the settle timer, and the stall timer runs
/// from the start of the motion.
pub open spec fn decide(
    phase: DeskPhase,
    previous_motion: TableMotion,
    interaction: Interaction,
    now: int,
    standing: int,
    resting: int,
) -> (DeskPhase, TableMotion, DeskAction) {
    match phase {
        DeskPhase::Idle { close_since } => match interaction {
            Interaction::CloseObject => {
                let since = match close_since {
                    Some(t) => t as int,
                    None => now,
                };
                if elapsed_spec(now, since) > PRESENCE_DEBOUNCE_MS {
                    let next = next_motion_spec(previous_motion);
                    let target = if next == TableMotion::Up {
                        standing
                    } else {
                        resting
                    };
                    (
                        DeskPhase::Moving {
                            motion: next,
                            target: target as u64,
                            started: now as u64,
                            last_not_close: now as u64,
                            last_not_match: now as u64,
                        },
                        next,
                        DeskAction::Started(next),
                    )
                } else {
                    (DeskPhase::Idle { close_since: Some(since as u64) }, previous_motion, DeskAction::Sample)
                }
            },
            Interaction::NoInteraction => (
                DeskPhase::Idle { close_since: None },
                previous_motion,
                DeskAction::Yield { sleep_ms: IDLE_SLEEP_MS },
            ),
            _ => (DeskPhase::Idle { close_since: None }, previous_motion, DeskAction::Yield { sleep_ms: 0 }),
        },
        DeskPhase::Moving { motion, target, started, last_not_close, last_not_match } => {
            match interaction {
                Interaction::CloseObject => if elapsed_spec(now, last_not_close as int) > OBSTACLE_ABORT_MS {
                    (
                        DeskPhase::Idle { close_since: None },
                        previous_motion,
                        DeskAction::Stopped(StopReason::ObstacleAbort),
                    )
                } else {
                    (
                        DeskPhase::Moving {
                            motion,
                            target,
                            started,
                            last_not_close,
                            last_not_match: now as u64,
                        },
                        previous_motion,
                        DeskAction::Sample,
                    )
                },
                Interaction::NoInteraction => if elapsed_spec(now, started as int) > STALL_TIMEOUT_MS {
                    (
                        DeskPhase::Idle { close_since: None },
                        previous_motion,
                        DeskAction::Stopped(StopReason::StallTimeout),
                    )
                } else {
                    (
                        DeskPhase::Moving {
                            motion,
                            target,
                            started,
                            last_not_close: now as u64,
                            last_not_match: now as u64,
                        },
                        previous_motion,
                        DeskAction::Sample,
                    )
                },
                _ => if elapsed_spec(now, last_not_match as int) > TARGET_SETTLE_MS {
                    (
                        DeskPhase::Idle { close_since: None },
                        previous_motion,
                        DeskAction::Stopped(StopReason::TargetReached),
                    )
                } else {
                    (
                        DeskPhase::Moving {
                            motion,
                            target,
                            started,
                            last_not_close: now as u64,
                            last_not_match,
                        },
                        previous_motion,
                        DeskAction::Sample,
                    )
                },
            }
        },
    }
}

fn elapsed(now: u64, since: u64) -> (r: u64)
    ensures
        r == elapsed_spec(now as int, since as int),
{
    if now > since {
        now - since
    } else {
        0
    }
}

/// The desk: its hardware, its two target heights (cm), the last motion and the phase
/// of the control loop.
pub struct SmartDesk {
    hal: HAL,
    standing_height: u32,
    resting_height: u32,
    previous_motion: TableMotion,
    phase: DeskPhase,
}

impl SmartDesk {
    pub closed spec fn hal_spec(&self) -> HAL {
        self.hal
    }

    pub closed spec fn standing_spec(&self) -> u32 {
        self.standing_height
    }

    pub closed spec fn resting_spec(&self) -> u32 {
        self.resting_height
    }

    pub closed spec fn previous_motion_spec(&self) -> TableMotion {
        self.previous_motion
    }

    pub closed spec fn phase_spec(&self) -> DeskPhase {
        self.phase
    }

    /// The hardware matches the phase: both slots filled; relays released while idle;
    /// exactly the relay of the motion driven while moving.
    pub open spec fn wf(&self) -> bool {
        &&& self.hal_spec().is_configured()
        &&& match self.phase_spec() {
            DeskPhase::Idle { .. } => self.hal_spec().released(),
            DeskPhase::Moving { motion, .. } => self.hal_spec().drives(motion),
        }
    }

    /// A desk at rest on relays `gpio_relay_up_pin` / `gpio_relay_down_pin`, with the
    /// sampler on its fixed pins, idle after a `Rest` motion.
    pub fn new(
        gpio_relay_up_pin: u8,
        gpio_relay_down_pin: u8,
        standing_height: u32,
        resting_height: u32,
    ) -> (r: Result<SmartDesk, HardwareError>)
        ensures
            r is Ok,
            r matches Ok(d) && d.wf() && d.standing_spec() == standing_height
                && d.resting_spec() == resting_height && d.previous_motion_spec() == TableMotion::Rest
                && d.phase_spec() == (DeskPhase::Idle { close_since: None }),
    {
        let mut hal: HAL = IO::new();
        hal.configure_distance(<SamplerPins as Distance>::new());
        let pins = MotorRelayPins { gpio_relay_up_pin, gpio_relay_down_pin };
        let motor = match <MotorObject<Motor<Resting>, Motor<Moving>> as MotorBuilder<
            Motor<Resting>,
            Motor<Moving>,
        >>::new(pins) {
            Ok(m) => m,
            Err(e) => {
                return Err(e);
            },
        };
        hal.configure_motor(motor);
        Ok(
            SmartDesk {
                hal,
                standing_height,
                resting_height,
                previous_motion: TableMotion::Rest,
                phase: DeskPhase::Idle { close_since: None },
            },
        )
    }

    /// The motion of the last presence trigger (`Rest` before the first).
    pub fn previous_motion(&self) -> (r: TableMotion)
        ensures
            r == self.previous_motion_spec(),
    {
        self.previous_motion
    }

    /// The phase of the control loop.
    pub fn phase(&self) -> (r: DeskPhase)
        ensures
            r == self.phase_spec(),
    {
        self.phase
    }

    /// Height of the standing position (cm).
    pub fn standing_height(&self) -> (r: u32)
        ensures
            r == self.standing_spec(),
    {
        self.standing_height
    }

    /// Height of the resting position (cm).
    pub fn resting_height(&self) -> (r: u32)
        ensures
            r == self.resting_spec(),
    {
        self.resting_height
    }

    /// The hardware composite.
    pub fn hal(&self) -> (r: &HAL)
        ensures
            *r == self.hal_spec(),
    {
        &self.hal
    }

    /// Levels (raise, lower) the relays are to be driven to.
    pub fn relay_levels(&self) -> (r: (bool, bool))
        requires
            self.wf(),
        ensures
            !(r.0 && r.1),
            self.phase_spec() is Idle ==> !r.0 && !r.1,
            self.phase_spec() matches DeskPhase::Moving { motion, .. } ==> (motion == TableMotion::Up
                && r.0 && !r.1) || (motion == TableMotion::Down && !r.0 && r.1),
    {
        match self.hal.relay_levels() {
            Some(levels) => levels,
            None => (false, false),
        }
    }

    /// A desk from its parts.
    fn with_phase(
        hal: HAL,
        standing_height: u32,
        resting_height: u32,
        previous_motion: TableMotion,
        phase: DeskPhase,
    ) -> (r: SmartDesk)
        ensures
            r.hal_spec() == hal,
            r.standing_spec() == standing_height,
            r.resting_spec() == resting_height,
            r.previous_motion_spec() == previous_motion,
            r.phase_spec() == phase,
    {
        SmartDesk { hal, standing_height, resting_height, previous_motion, phase }
    }

    /// Releases the motor and returns to idle, reporting why the motion ended.
    fn end_motion(self, reason: StopReason) -> (r: Result<(SmartDesk, DeskAction), DeskError>)
        requires
            self.wf(),
            self.phase_spec() is Moving,
        ensures
            r matches Ok((d, a)) && d.wf() && a == DeskAction::Stopped(reason)
                && d.phase_spec() == (DeskPhase::Idle { close_since: None })
                && d.previous_motion_spec() == self.previous_motion_spec()
                && d.standing_spec() == self.standing_spec() && d.resting_spec() == self.resting_spec(),
    {
        let SmartDesk { hal, standing_height, resting_height, previous_motion, phase } = self;
        let hal = match hal.stop_move_desk() {
            Ok(h) => h,
            Err(e) => {
                return Err(DeskError::Motor(e));
            },
        };
        let phase = DeskPhase::Idle { close_since: None };
        let desk = SmartDesk::with_phase(hal, standing_height, resting_height, previous_motion, phase);
        Ok((desk, DeskAction::Stopped(reason)))
    }

    /// One turn of the control loop: classifies `measurement`, taken at `now` (ms),
    /// against the phase, and applies the decision to the motor. A hardware error of
    /// the measurement comes back as it is.
    pub fn step(self, measurement: Measurement, now: u64) -> (r: Result<
        (SmartDesk, DeskAction),
        DeskError,
    >)
        requires
            self.wf(),
        ensures
            ({
                let args = classify_args(self.phase_spec(), self.previous_motion_spec());
                match measurement_spec(measurement, args.0, args.1) {
                    Err(e) => r == Err::<(SmartDesk, DeskAction), DeskError>(DeskError::Hardware(e)),
                    Ok(i) => r matches Ok((d, a)) && d.wf()
                        && (d.phase_spec(), d.previous_motion_spec(), a) == decide(
                            self.phase_spec(),
                            self.previous_motion_spec(),
                            i,
                            now as int,
                            self.standing_spec() as int * UM_PER_CM as int,
                            self.resting_spec() as int * UM_PER_CM as int,
                        ) && d.standing_spec() == self.standing_spec() && d.resting_spec() == self.resting_spec(),
                }
            }),
    {
        let (motion, target) = match self.phase {
            DeskPhase::Idle { .. } => (self.previous_motion, 0u64),
            DeskPhase::Moving { motion, target, .. } => (motion, target),
        };
        let interaction = match self.hal.find_interaction(measurement, motion, target) {
            Ok(i) => i,
            Err(e) => {
                return Err(DeskError::Hardware(e));
            },
        };
        match self.phase {
            DeskPhase::Idle { close_since } => match interaction {
                Interaction::CloseObject => {
                    let since = match close_since {
                        Some(t) => t,
                        None => now,
                    };
                    if elapsed(now, since) > PRESENCE_DEBOUNCE_MS {
                        let next = if self.previous_motion == TableMotion::Up {
                            TableMotion::Down
                        } else {
                            TableMotion::Up
                        };
                        let target = if next == TableMotion::Up {
                            self.standing_height as u64 * UM_PER_CM
                        } else {
                            self.resting_height as u64 * UM_PER_CM
                        };
                        let SmartDesk { hal, standing_height, resting_height, .. } = self;
                        let hal = match hal.start_move_desk(next) {
                            Ok(h) => h,
                            Err(e) => {
                                return Err(DeskError::Motor(e));
                            },
                        };
                        let phase = DeskPhase::Moving {
                            motion: next,
                            target,
                            started: now,
                            last_not_close: now,
                            last_not_match: now,
                        };
                        let desk = SmartDesk::with_phase(
                            hal,
                            standing_height,
                            resting_height,
                            next,
                            phase,
                        );
                        Ok((desk, DeskAction::Started(next)))
                    } else {
                        let SmartDesk { hal, standing_height, resting_height, previous_motion, .. } =
                            self;
                        let phase = DeskPhase::Idle { close_since: Some(since) };
                        let desk = SmartDesk::with_phase(
                            hal,
                            standing_height,
                            resting_height,
                            previous_motion,
                            phase,
                        );
                        Ok((desk, DeskAction::Sample))
                    }
                },
                Interaction::NoInteraction => {
                    let SmartDesk { hal, standing_height, resting_height, previous_motion, .. } = self;
                    let phase = DeskPhase::Idle { close_since: None };
                    let desk = SmartDesk::with_phase(
                        hal,
                        standing_height,
                        resting_height,
                        previous_motion,
                        phase,
                    );
                    Ok((desk, DeskAction::Yield { sleep_ms: IDLE_SLEEP_MS }))
                },
                _ => {
                    let SmartDesk { hal, standing_height, resting_height, previous_motion, .. } = self;
                    let phase = DeskPhase::Idle { close_since: None };
                    let desk = SmartDesk::with_phase(
                        hal,
                        standing_height,
                        resting_height,
                        previous_motion,
                        phase,
                    );
                    Ok((desk, DeskAction::Yield { sleep_ms: 0 }))
                },
            },
            DeskPhase::Moving { motion, target, started, last_not_close, last_not_match } => {
                match interaction {
                    Interaction::CloseObject => {
                        if elapsed(now, last_not_close) > OBSTACLE_ABORT_MS {
                            self.end_motion(StopReason::ObstacleAbort)
                        } else {
                            let SmartDesk { hal, standing_height, resting_height, previous_motion, .. } =
                            self;
                            let phase = DeskPhase::Moving {
                                motion,
                                target,
                                started,
                                last_not_close,
                                last_not_match: now,
                            };
                            let desk = SmartDesk::with_phase(
                                hal,
                                standing_height,
                                resting_height,
                                previous_motion,
                                phase,
                            );
                            Ok((desk, DeskAction::Sample))
                        }
                    },
                    Interaction::NoInteraction => {
                        if elapsed(now, started) > STALL_TIMEOUT_MS {
                            self.end_motion(StopReason::StallTimeout)
                        } else {
                            let SmartDesk { hal, standing_height, resting_height, previous_motion, .. } =
                            self;
                            let phase = DeskPhase::Moving {
                                motion,
                                target,
                                started,
                                last_not_close: now,
                                last_not_match: now,
                            };
                            let desk = SmartDesk::with_phase(
                                hal,
                                standing_height,
                                resting_height,
                                previous_motion,
                                phase,
                            );
                            Ok((desk, DeskAction::Sample))
                        }
                    },
                    _ => {
                        if elapsed(now, last_not_match) > TARGET_SETTLE_MS {
                            self.end_motion(StopReason::TargetReached)
                        } else {
                            let SmartDesk { hal, standing_height, resting_height, previous_motion, .. } =
                            self;
                            let phase = DeskPhase::Moving {
                                motion,
                                target,
                                started,
                                last_not_close: now,
                                last_not_match,
                            };
                            let desk = SmartDesk::with_phase(
                                hal,
                                standing_height,
                                resting_height,
                                previous_motion,
                                phase,
                            );
                            Ok((desk, DeskAction::Sample))
                        }
                    },
                }
            },
        }
    }
}

} // verus!
