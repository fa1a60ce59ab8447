use smart_desk::desk_actions::{DeskAction, DeskError, DeskPhase, SmartDesk, StopReason};
use smart_desk::distance::Measurement;
use smart_desk::hardware_error::HardwareError;
use smart_desk::motion::TableMotion;

fn cm(x: u64) -> Measurement {
    Measurement::Micrometres(x * 10_000)
}

fn desk() -> SmartDesk {
    SmartDesk::new(5, 22, 120, 65).ok().unwrap()
}

fn step(d: SmartDesk, m: Measurement, now: u64) -> (SmartDesk, DeskAction) {
    d.step(m, now).ok().unwrap()
}

/// Confirms a presence with close readings from `t` to `t + 105` ms, every 5 ms.
fn trigger(mut d: SmartDesk, t: u64) -> (SmartDesk, DeskAction) {
    let mut now = t;
    loop {
        let (nd, a) = step(d, cm(15), now);
        d = nd;
        if a != DeskAction::Sample {
            return (d, a);
        }
        now += 5;
        assert!(now <= t + 105, "presence not confirmed in time");
    }
}

#[test]
fn new_desk_is_idle_and_released() {
    let d = desk();
    assert_eq!(d.previous_motion(), TableMotion::Rest);
    assert!(matches!(d.phase(), DeskPhase::Idle { close_since: None }));
    assert_eq!(d.relay_levels(), (false, false));
    assert_eq!((d.standing_height(), d.resting_height()), (120, 65));
}

#[test]
fn presence_then_target_met_stops_moving_up() {
    let d = desk();
    let mut now: u64 = 0;
    let mut d = d;
    while now < 100 {
        let (nd, a) = step(d, cm(15), now);
        assert_eq!(a, DeskAction::Sample);
        d = nd;
        now += 5;
    }
    let (d, a) = step(d, cm(15), 150);
    assert_eq!(a, DeskAction::Started(TableMotion::Up));
    assert_eq!(d.relay_levels(), (true, false));
    assert!(matches!(d.phase(), DeskPhase::Moving { motion: TableMotion::Up, target: 1_200_000, .. }));
    let (d, a) = step(d, cm(90), 160);
    assert_eq!(a, DeskAction::Sample);
    let (d, a) = step(d, cm(115), 170);
    assert_eq!(a, DeskAction::Sample);
    let (d, a) = step(d, cm(119), 175);
    assert_eq!(a, DeskAction::Sample);
    let (d, a) = step(d, cm(119), 180);
    assert_eq!(a, DeskAction::Sample);
    let (d, a) = step(d, cm(119), 181);
    assert_eq!(a, DeskAction::Stopped(StopReason::TargetReached));
    assert_eq!(d.relay_levels(), (false, false));
    assert_eq!(d.previous_motion(), TableMotion::Up);
    assert!(matches!(d.phase(), DeskPhase::Idle { close_since: None }));
}

#[test]
fn presence_debounce_counts_from_first_close_reading() {
    let d = desk();
    let (d, a) = step(d, cm(15), 1_000);
    assert_eq!(a, DeskAction::Sample);
    let (d, a) = step(d, cm(15), 1_100);
    assert_eq!(a, DeskAction::Sample);
    let (_, a) = step(d, cm(15), 1_101);
    assert_eq!(a, DeskAction::Started(TableMotion::Up));
}

#[test]
fn idle_reading_of_twenty_five_cm_is_no_trigger() {
    let (d, a) = step(desk(), cm(25), 0);
    assert_eq!(a, DeskAction::Yield { sleep_ms: 500 });
    assert_eq!(d.relay_levels(), (false, false));
    assert!(matches!(d.phase(), DeskPhase::Idle { close_since: None }));
}

#[test]
fn obstacle_abort_after_two_seconds_close() {
    let (d, a) = trigger(desk(), 0);
    assert_eq!(a, DeskAction::Started(TableMotion::Up));
    let (mut d, a) = step(d, cm(90), 200);
    assert_eq!(a, DeskAction::Sample);
    let mut now: u64 = 205;
    let mut stopped = None;
    while now <= 200 + 2_100 {
        let (nd, a) = step(d, cm(10), now);
        d = nd;
        if a != DeskAction::Sample {
            stopped = Some((a, now));
            break;
        }
        now += 5;
    }
    assert_eq!(stopped, Some((DeskAction::Stopped(StopReason::ObstacleAbort), 2_205)));
    assert_eq!(d.relay_levels(), (false, false));
    assert_eq!(d.previous_motion(), TableMotion::Up);
}

#[test]
fn transient_close_reading_does_not_abort() {
    let (d, _) = trigger(desk(), 0);
    let (d, a) = step(d, cm(10), 1_000);
    assert_eq!(a, DeskAction::Sample);
    let (d, a) = step(d, cm(90), 2_000);
    assert_eq!(a, DeskAction::Sample);
    let (d, a) = step(d, cm(10), 3_500);
    assert_eq!(a, DeskAction::Sample);
    assert_eq!(d.relay_levels(), (true, false));
}

#[test]
fn stall_timeout_after_thirty_seconds() {
    let (d, a) = trigger(desk(), 0);
    assert_eq!(a, DeskAction::Started(TableMotion::Up));
    let mut d = d;
    let mut now: u64 = 200;
    let mut stopped = None;
    while now <= 31_000 {
        let reading = if (now / 100) % 2 == 0 { cm(90) } else { cm(60) };
        let (nd, a) = step(d, reading, now);
        d = nd;
        if a != DeskAction::Sample {
            stopped = Some((a, now));
            break;
        }
        now += 100;
    }
    let (a, at) = stopped.unwrap();
    assert_eq!(a, DeskAction::Stopped(StopReason::StallTimeout));
    assert!(at > 30_000 && at <= 30_200);
    assert_eq!(d.relay_levels(), (false, false));
}

#[test]
fn second_trigger_moves_down_to_resting_height() {
    let (d, _) = trigger(desk(), 0);
    let (d, a) = step(d, cm(120), 200);
    assert_eq!(a, DeskAction::Stopped(StopReason::TargetReached));
    let (d, a) = trigger(d, 1_000);
    assert_eq!(a, DeskAction::Started(TableMotion::Down));
    assert_eq!(d.relay_levels(), (false, true));
    assert!(matches!(d.phase(), DeskPhase::Moving { motion: TableMotion::Down, target: 650_000, .. }));
    let (d, a) = step(d, cm(60), 1_200);
    assert_eq!(a, DeskAction::Stopped(StopReason::TargetReached));
    assert_eq!(d.previous_motion(), TableMotion::Down);
}

#[test]
fn idle_after_raising_sees_target_exceeded() {
    let (d, _) = trigger(desk(), 0);
    let (d, a) = step(d, cm(120), 200);
    assert_eq!(a, DeskAction::Stopped(StopReason::TargetReached));
    let (_, a) = step(d, cm(80), 300);
    assert_eq!(a, DeskAction::Yield { sleep_ms: 0 });
}

#[test]
fn hardware_error_is_passed_on() {
    assert!(matches!(
        desk().step(Measurement::Failed, 0),
        Err(DeskError::Hardware(HardwareError::NoDistance))
    ));
    let (d, _) = trigger(desk(), 0);
    assert!(matches!(
        d.step(Measurement::NoValue, 200),
        Err(DeskError::Hardware(HardwareError::DistanceOutOfRange))
    ));
}
