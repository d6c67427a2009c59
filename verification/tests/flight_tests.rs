use flight_control::controller::pulse_duty;
use flight_control::flight::{
    calc_pid, esc_pulse, esc_pulses, level_correction_enabled, limit_throttle, motor_duties,
    should_start_motors, stick_arming, stick_offset, stick_pass, switch_arming, switch_pass,
    yaw_offset, ArmingStep, EscPulses, PassDecision, ReceiverChannels, StartState,
    START_MOTOS_VALUE,
};

fn rc(ch1: u16, ch2: u16, ch3: u16, ch4: u16, ch6: u16) -> ReceiverChannels {
    ReceiverChannels { ch1, ch2, ch3, ch4, ch5: 1500, ch6 }
}

#[test]
fn start_codes() {
    assert_eq!(StartState::Stopped.code(), 0);
    assert_eq!(StartState::Starting.code(), 1);
    assert_eq!(StartState::Started.code(), 2);
}

#[test]
fn sticks_low_enter_starting() {
    let s = stick_arming(StartState::Stopped, 1000, 1000);
    assert_eq!(s, ArmingStep { state: StartState::Starting, sync_angles: false });
}

#[test]
fn yaw_back_to_center_starts_motors() {
    let s = stick_arming(StartState::Starting, 1000, 1500);
    assert_eq!(s, ArmingStep { state: StartState::Started, sync_angles: true });
}

#[test]
fn full_start_sequence() {
    let a = stick_arming(StartState::Stopped, 1000, 1000);
    let b = stick_arming(a.state, 1040, 1500);
    assert_eq!(b.state, StartState::Started);
    assert!(b.sync_angles);
}

#[test]
fn no_start_in_one_pass_from_stopped() {
    for ch3 in [900u16, 1000, 1049, 1050, 1500, 2000] {
        for ch4 in [900u16, 1000, 1049, 1451, 1500, 1951, 2000] {
            assert_ne!(stick_arming(StartState::Stopped, ch3, ch4).state, StartState::Started);
        }
    }
}

#[test]
fn stop_gesture_stops_motors() {
    assert_eq!(stick_arming(StartState::Started, 1000, 2000).state, StartState::Stopped);
    // from Starting the same pass starts and stops again
    let s = stick_arming(StartState::Starting, 1000, 2000);
    assert_eq!(s, ArmingStep { state: StartState::Stopped, sync_angles: true });
    assert_eq!(stick_arming(StartState::Stopped, 1000, 2000).state, StartState::Stopped);
}

#[test]
fn started_persists_in_flight() {
    let s = stick_arming(StartState::Started, 1500, 1500);
    assert_eq!(s, ArmingStep { state: StartState::Started, sync_angles: false });
    assert_eq!(stick_arming(StartState::Started, 1000, 1900).state, StartState::Started);
    // sticks low again: back to Starting
    assert_eq!(stick_arming(StartState::Started, 1000, 1000).state, StartState::Starting);
}

#[test]
fn switch_arming_follows_channel_six() {
    assert_eq!(switch_arming(2000), ArmingStep { state: StartState::Started, sync_angles: true });
    assert_eq!(switch_arming(1901), ArmingStep { state: StartState::Started, sync_angles: true });
    assert_eq!(switch_arming(1900), ArmingStep { state: StartState::Stopped, sync_angles: false });
    assert_eq!(switch_arming(1000), ArmingStep { state: StartState::Stopped, sync_angles: false });
}

#[test]
fn direct_motor_start_condition() {
    assert!(should_start_motors(1000, 1500));
    assert!(!should_start_motors(1001, 1500));
    assert!(!should_start_motors(1000, 1499));
    assert_eq!(START_MOTOS_VALUE, 10);
}

#[test]
fn stick_dead_band() {
    assert_eq!(stick_offset(1500), 0);
    assert_eq!(stick_offset(1492), 0);
    assert_eq!(stick_offset(1508), 0);
    assert_eq!(stick_offset(1509), 1);
    assert_eq!(stick_offset(1491), -1);
    assert_eq!(stick_offset(2000), 492);
    assert_eq!(stick_offset(1000), -492);
    assert_eq!(stick_offset(0), -1492);
    assert_eq!(stick_offset(65535), 64027);
}

#[test]
fn yaw_ignored_at_low_throttle() {
    assert_eq!(yaw_offset(1050, 2000), 0);
    assert_eq!(yaw_offset(1051, 2000), 492);
    assert_eq!(yaw_offset(1500, 1000), -492);
    assert_eq!(yaw_offset(1500, 1500), 0);
}

#[test]
fn auto_level_switch() {
    assert!(!level_correction_enabled(0));
    assert!(level_correction_enabled(1));
    assert!(level_correction_enabled(-1));
}

#[test]
fn throttle_limited_when_started() {
    assert_eq!(limit_throttle(StartState::Started, 1900), 1800);
    assert_eq!(limit_throttle(StartState::Started, 1800), 1800);
    assert_eq!(limit_throttle(StartState::Started, 1200), 1200);
    assert_eq!(limit_throttle(StartState::Stopped, 1900), 1900);
    assert_eq!(limit_throttle(StartState::Starting, 1900), 1900);
}

#[test]
fn esc_pulse_limits() {
    assert_eq!(esc_pulse(StartState::Started, 900), 1100);
    assert_eq!(esc_pulse(StartState::Started, 1099), 1100);
    assert_eq!(esc_pulse(StartState::Started, 1100), 1100);
    assert_eq!(esc_pulse(StartState::Started, 1550), 1550);
    assert_eq!(esc_pulse(StartState::Started, 2000), 2000);
    assert_eq!(esc_pulse(StartState::Started, 2001), 2000);
    assert_eq!(esc_pulse(StartState::Started, i64::MAX), 2000);
    assert_eq!(esc_pulse(StartState::Started, i64::MIN), 1100);
    assert_eq!(esc_pulse(StartState::Stopped, 1550), 1000);
    assert_eq!(esc_pulse(StartState::Starting, 1550), 1000);
}

#[test]
fn esc_pulses_and_duties() {
    let e = esc_pulses(StartState::Started, 1500, 2500, -40, 1999);
    assert_eq!(e, EscPulses { esc_1: 1500, esc_2: 2000, esc_3: 1100, esc_4: 1999 });
    let d = motor_duties(&e);
    assert_eq!(d.c0, pulse_duty(1500));
    assert_eq!((d.c0, d.c1, d.c2, d.c3), (2047, 4095, 409, 4090));
}

#[test]
fn motor_duties_accepted_whatever_the_mix() {
    for state in [StartState::Stopped, StartState::Starting, StartState::Started] {
        for m in [i64::MIN, -1, 0, 1099, 1100, 1700, 2000, 2001, i64::MAX] {
            let d = motor_duties(&esc_pulses(state, m, m, m, m));
            assert!(d.c0 <= 4095 && d.c1 <= 4095 && d.c2 <= 4095 && d.c3 <= 4095);
            if state != StartState::Started {
                assert_eq!((d.c0, d.c1, d.c2, d.c3), (0, 0, 0, 0));
            }
        }
    }
}

#[test]
fn stick_pass_decisions() {
    let d = stick_pass(StartState::Starting, &rc(1600, 1400, 1000, 1500, 1000));
    assert_eq!(
        d,
        PassDecision {
            arming: ArmingStep { state: StartState::Started, sync_angles: true },
            start_motors: false,
            roll_offset: 92,
            pitch_offset: -92,
            yaw_offset: 0,
            throttle: 1000,
        }
    );
    let d = stick_pass(StartState::Started, &rc(1000, 1500, 1900, 1700, 1000));
    assert_eq!(d.throttle, 1800);
    assert_eq!(d.yaw_offset, 192);
    assert_eq!(d.arming.state, StartState::Started);
    assert!(stick_pass(StartState::Stopped, &rc(1000, 1500, 1500, 1500, 1000)).start_motors);
}

#[test]
fn switch_pass_decisions() {
    let d = switch_pass(&rc(1500, 1500, 1950, 1400, 2000));
    assert_eq!(d.arming, ArmingStep { state: StartState::Started, sync_angles: true });
    assert!(!d.start_motors);
    assert_eq!(d.throttle, 1800);
    assert_eq!(d.yaw_offset, -92);
    let d = switch_pass(&rc(1000, 1000, 1950, 1400, 1000));
    assert_eq!(d.arming.state, StartState::Stopped);
    assert_eq!(d.throttle, 1950);
    assert_eq!((d.roll_offset, d.pitch_offset), (-492, -492));
}

#[test]
fn calc_pid_does_nothing() {
    calc_pid();
}
