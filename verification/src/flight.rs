//! The decisions of the flight loop: the stick and switch arming sequences,
//! the receiver dead band, the throttle limit and the ESC pulse limits.
//!
//! Each function takes the values read in one pass of the loop (receiver
//! channels, the current start state, the mixed motor commands) and returns
//! what the loop does next.

use vstd::prelude::*;
use crate::controller::{ChannelDuties, throttle_duties, pulse_duty_value, lemma_pulse_duty_in_range};

verus! {

/// The pulse width that `start_motors` sends to all four ESCs.
pub const START_MOTOS_VALUE: u16 = 10;

/// Pulse width sent to every ESC while the motors are not started.
pub const ESC_IDLE_PULSE: u16 = 1000;

/// Lowest pulse width sent to an ESC while the motors run.
pub const ESC_MIN_RUNNING_PULSE: u16 = 1100;

/// Highest pulse width sent to an ESC.
pub const ESC_MAX_PULSE: u16 = 2000;

/// Highest throttle pulse used while the motors run.
pub const THROTTLE_LIMIT: u16 = 1800;

/// One frame of the radio receiver: the pulse width of each channel in
/// microseconds (1 roll, 2 pitch, 3 throttle, 4 yaw, 5 auxiliary, 6 arming
/// switch).
#[derive(Clone, Copy, Debug, PartialEq, Eq)]
pub struct ReceiverChannels {
    pub ch1: u16,
    pub ch2: u16,
    pub ch3: u16,
    pub ch4: u16,
    pub ch5: u16,
    pub ch6: u16,
}

/// The motor start sequence: `Stopped` (0), `Starting` (1, throttle and yaw
/// stick low) and `Started` (2, motors running).
#[derive(Clone, Copy, Debug, PartialEq, Eq, Structural)]
pub enum StartState {
    Stopped,
    Starting,
    Started,
}

/// The number by which the loop reports a start state.
pub open spec fn start_code(s: StartState) -> i32 {
    match s {
        StartState::Stopped => 0,
        StartState::Starting => 1,
        StartState::Started => 2,
    }
}

impl StartState {
    /// The state's number: 0, 1 or 2.
    pub fn code(&self) -> (c: i32)
        ensures
            c == start_code(*self),
    {
        match self {
            StartState::Stopped => 0,
            StartState::Starting => 1,
            StartState::Started => 2,
        }
    }
}

/// The outcome of one pass of an arming rule: the new start state, and
/// whether the gyro angles are to be set to the accelerometer angles (which
/// happens when the motors start).
#[derive(Clone, Copy, Debug, PartialEq, Eq)]
pub struct ArmingStep {
    pub state: StartState,
    pub sync_angles: bool,
}

/// Throttle and yaw sticks both low: step 1 of the start sequence.
pub open spec fn sticks_low_left(ch3: u16, ch4: u16) -> bool {
    ch3 < 1050 && ch4 < 1050
}

/// The state after step 1: throttle and yaw low puts any state into `Starting`.
pub open spec fn after_step_one(start: StartState, ch3: u16, ch4: u16) -> StartState {
    if sticks_low_left(ch3, ch4) {
        StartState::Starting
    } else {
        start
    }
}

/// Step 2 fires: from `Starting`, throttle low and yaw back past center.
pub open spec fn step_two_fires(start: StartState, ch3: u16, ch4: u16) -> bool {
    after_step_one(start, ch3, ch4) == StartState::Starting && ch3 < 1050 && ch4 > 1450
}

/// The state after step 2.
pub open spec fn after_step_two(start: StartState, ch3: u16, ch4: u16) -> StartState {
    if step_two_fires(start, ch3, ch4) {
        StartState::Started
    } else {
        after_step_one(start, ch3, ch4)
    }
}

/// The state after the stop rule: started, throttle low and yaw fully right
/// stops the motors.
pub open spec fn next_start_state(start: StartState, ch3: u16, ch4: u16) -> StartState {
    if after_step_two(start, ch3, ch4) == StartState::Started && ch3 < 1050 && ch4 > 1950 {
        StartState::Stopped
    } else {
        after_step_two(start, ch3, ch4)
    }
}

/// The stick arming rule: one pass of the start sequence on the throttle
/// (`ch3`) and yaw (`ch4`) pulses.
pub fn stick_arming(start: StartState, ch3: u16, ch4: u16) -> (step: ArmingStep)
    ensures
        step.state == next_start_state(start, ch3, ch4),
        step.sync_angles == step_two_fires(start, ch3, ch4),
        step.sync_angles == (start == StartState::Starting && ch3 < 1050 && ch4 > 1450),
        start == StartState::Stopped ==> step.state == (if ch3 < 1050 && ch4 < 1050 {
            StartState::Starting
        } else {
            StartState::Stopped
        }),
        start == StartState::Starting ==> step.state == (if ch3 < 1050 && ch4 < 1050 {
            StartState::Starting
        } else if ch3 < 1050 && ch4 > 1950 {
            StartState::Stopped
        } else if ch3 < 1050 && ch4 > 1450 {
            StartState::Started
        } else {
            StartState::Starting
        }),
        start == StartState::Started ==> step.state == (if ch3 < 1050 && ch4 < 1050 {
            StartState::Starting
        } else if ch3 < 1050 && ch4 > 1950 {
            StartState::Stopped
        } else {
            StartState::Started
        }),
{
    let mut state = start;
    let mut sync_angles = false;
    if ch3 < 1050 && ch4 < 1050 {
        state = StartState::Starting;
    }
    if state == StartState::Starting && ch3 < 1050 && ch4 > 1450 {
        state = StartState::Started;
        sync_angles = true;
    }
    if state == StartState::Started && ch3 < 1050 && ch4 > 1950 {
        state = StartState::Stopped;
    }
    ArmingStep { state, sync_angles }
}

/// The state that the arming switch (`ch6`) selects in one pass of the loop,
/// which starts each pass from `Stopped`.
pub open spec fn switch_start_state(ch6: u16) -> StartState {
    if ch6 > 1900 {
        StartState::Started
    } else {
        StartState::Stopped
    }
}

/// The switch arming rule: switch high starts the motors and syncs the
/// angles; switch low while started stops them.
pub fn switch_arming(ch6: u16) -> (step: ArmingStep)
    ensures
        step.state == switch_start_state(ch6),
        step.sync_angles == (ch6 > 1900),
        step.state == (if ch6 > 1900 { StartState::Started } else { StartState::Stopped }),
{
    let mut state = StartState::Stopped;
    let mut sync_angles = false;
    if ch6 > 1900 {
        state = StartState::Started;
        sync_angles = true;
    }
    if state == StartState::Started && ch6 < 1050 {
        state = StartState::Stopped;
    }
    ArmingStep { state, sync_angles }
}

/// The motors are started directly when roll is at 1000 and throttle at 1500.
pub fn should_start_motors(ch1: u16, ch3: u16) -> (go: bool)
    ensures
        go == (ch1 == 1000 && ch3 == 1500),
{
    ch1 == 1000 && ch3 == 1500
}

/// A stick pulse relative to center, with a dead band of 16 µs: pulses in
/// `1492..=1508` count as center.
pub open spec fn stick_offset_value(pulse: u16) -> int {
    if pulse > 1508 {
        pulse - 1508
    } else if pulse < 1492 {
        pulse - 1492
    } else {
        0
    }
}

/// The stick input of roll or pitch: the pulse relative to center, with the
/// dead band.
pub fn stick_offset(pulse: u16) -> (off: i32)
    ensures
        off == stick_offset_value(pulse),
{
    if pulse > 1508 {
        pulse as i32 - 1508
    } else if pulse < 1492 {
        pulse as i32 - 1492
    } else {
        0
    }
}

/// The yaw input: the yaw stick relative to center, but none while the
/// throttle is at or below 1050 (so that yaw does not act while the motors are
/// being switched off).
pub open spec fn yaw_offset_value(ch3: u16, ch4: u16) -> int {
    if ch3 > 1050 {
        stick_offset_value(ch4)
    } else {
        0
    }
}

/// The yaw input of the throttle (`ch3`) and yaw (`ch4`) pulses.
pub fn yaw_offset(ch3: u16, ch4: u16) -> (off: i32)
    ensures
        off == yaw_offset_value(ch3, ch4),
        ch3 <= 1050 ==> off == 0,
        ch3 > 1050 ==> off == stick_offset_value(ch4),
{
    if ch3 > 1050 {
        stick_offset(ch4)
    } else {
        0
    }
}

/// Whether the auto-level correction applies: any configured value but 0.
pub fn level_correction_enabled(autolevel: i32) -> (on: bool)
    ensures
        on == (autolevel != 0),
{
    autolevel != 0
}

/// The throttle pulse that the motor mix uses.
pub open spec fn limited_throttle_value(start: StartState, ch3: u16) -> u16 {
    if start == StartState::Started && ch3 > THROTTLE_LIMIT {
        THROTTLE_LIMIT
    } else {
        ch3
    }
}

/// The throttle pulse for the motor mix: the throttle channel, limited to 1800
/// while the motors run.
pub fn limit_throttle(start: StartState, ch3: u16) -> (t: u16)
    ensures
        t == limited_throttle_value(start, ch3),
{
    if start == StartState::Started && ch3 > THROTTLE_LIMIT {
        THROTTLE_LIMIT
    } else {
        ch3
    }
}

/// The pulse sent to one ESC for a mixed motor command (throttle plus or
/// minus the PID outputs, rounded toward zero).
pub open spec fn esc_pulse_value(start: StartState, mixed: i64) -> u16 {
    if start == StartState::Started {
        if mixed < 1100 {
            ESC_MIN_RUNNING_PULSE
        } else if mixed > 2000 {
            ESC_MAX_PULSE
        } else {
            mixed as u16
        }
    } else {
        ESC_IDLE_PULSE
    }
}

/// The pulse for one ESC: 1000 while the motors are not started; otherwise
/// the mixed command kept within `1100..=2000`.
pub fn esc_pulse(start: StartState, mixed: i64) -> (p: u16)
    ensures
        p == esc_pulse_value(start, mixed),
        start == StartState::Started ==> ESC_MIN_RUNNING_PULSE <= p <= ESC_MAX_PULSE,
        start != StartState::Started ==> p == ESC_IDLE_PULSE,
        start == StartState::Started && 1100 <= mixed <= 2000 ==> p == mixed,
        start == StartState::Started && mixed < 1100 ==> p == 1100,
        start == StartState::Started && mixed > 2000 ==> p == 2000,
{
    if start == StartState::Started {
        if mixed < 1100 {
            ESC_MIN_RUNNING_PULSE
        } else if mixed > 2000 {
            ESC_MAX_PULSE
        } else {
            mixed as u16
        }
    } else {
        ESC_IDLE_PULSE
    }
}

/// The pulses for ESC 1 to 4.
#[derive(Clone, Copy, Debug, PartialEq, Eq)]
pub struct EscPulses {
    pub esc_1: u16,
    pub esc_2: u16,
    pub esc_3: u16,
    pub esc_4: u16,
}

/// The four ESC pulses for the mixed commands of ESC 1 (front right) to ESC 4
/// (front left).
pub fn esc_pulses(start: StartState, m1: i64, m2: i64, m3: i64, m4: i64) -> (e: EscPulses)
    ensures
        e.esc_1 == esc_pulse_value(start, m1),
        e.esc_2 == esc_pulse_value(start, m2),
        e.esc_3 == esc_pulse_value(start, m3),
        e.esc_4 == esc_pulse_value(start, m4),
{
    EscPulses {
        esc_1: esc_pulse(start, m1),
        esc_2: esc_pulse(start, m2),
        esc_3: esc_pulse(start, m3),
        esc_4: esc_pulse(start, m4),
    }
}

/// The PCA9685 channel values for the four ESC pulses.
pub fn motor_duties(e: &EscPulses) -> (d: ChannelDuties)
    ensures
        d.c0 == pulse_duty_value(e.esc_1),
        d.c1 == pulse_duty_value(e.esc_2),
        d.c2 == pulse_duty_value(e.esc_3),
        d.c3 == pulse_duty_value(e.esc_4),
{
    throttle_duties(e.esc_1, e.esc_2, e.esc_3, e.esc_4)
}

/// What one pass of the loop decides from a receiver frame: the arming
/// outcome, whether to start the motors directly, the roll, pitch and yaw
/// stick inputs, and the throttle for the motor mix.
#[derive(Clone, Copy, Debug, PartialEq, Eq)]
pub struct PassDecision {
    pub arming: ArmingStep,
    pub start_motors: bool,
    pub roll_offset: i32,
    pub pitch_offset: i32,
    pub yaw_offset: i32,
    pub throttle: u16,
}

/// The decisions of one pass of the stick-armed loop, in the order the loop
/// takes them: direct motor start on roll 1000 and throttle 1500, the start
/// sequence on throttle and yaw, the stick inputs, then the throttle limit in
/// the new state.
pub fn stick_pass(start: StartState, rc: &ReceiverChannels) -> (d: PassDecision)
    ensures
        d.start_motors == (rc.ch1 == 1000 && rc.ch3 == 1500),
        d.arming.state == next_start_state(start, rc.ch3, rc.ch4),
        d.arming.sync_angles == step_two_fires(start, rc.ch3, rc.ch4),
        d.roll_offset == stick_offset_value(rc.ch1),
        d.pitch_offset == stick_offset_value(rc.ch2),
        d.yaw_offset == yaw_offset_value(rc.ch3, rc.ch4),
        d.throttle == limited_throttle_value(next_start_state(start, rc.ch3, rc.ch4), rc.ch3),
{
    let start_motors = should_start_motors(rc.ch1, rc.ch3);
    let arming = stick_arming(start, rc.ch3, rc.ch4);
    PassDecision {
        arming,
        start_motors,
        roll_offset: stick_offset(rc.ch1),
        pitch_offset: stick_offset(rc.ch2),
        yaw_offset: yaw_offset(rc.ch3, rc.ch4),
        throttle: limit_throttle(arming.state, rc.ch3),
    }
}

/// The decisions of one pass of the switch-armed loop: the arming switch on
/// channel 6 selects the state, then the stick inputs and the throttle limit
/// follow as in the stick-armed loop. This loop never starts the motors
/// directly.
pub fn switch_pass(rc: &ReceiverChannels) -> (d: PassDecision)
    ensures
        !d.start_motors,
        d.arming.state == switch_start_state(rc.ch6),
        d.arming.sync_angles == (rc.ch6 > 1900),
        d.roll_offset == stick_offset_value(rc.ch1),
        d.pitch_offset == stick_offset_value(rc.ch2),
        d.yaw_offset == yaw_offset_value(rc.ch3, rc.ch4),
        d.throttle == limited_throttle_value(switch_start_state(rc.ch6), rc.ch3),
{
    let arming = switch_arming(rc.ch6);
    PassDecision {
        arming,
        start_motors: false,
        roll_offset: stick_offset(rc.ch1),
        pitch_offset: stick_offset(rc.ch2),
        yaw_offset: yaw_offset(rc.ch3, rc.ch4),
        throttle: limit_throttle(arming.state, rc.ch3),
    }
}

/// PID computation hook of the stick-armed loop; the PID controllers run in
/// the loop itself, so it has nothing to do.
pub fn calc_pid() {
}

/// Every ESC pulse lies in `1000..=2000`: 1000 while the motors are not
/// started, `1100..=2000` while they run.
pub proof fn lemma_esc_pulse_bounds(start: StartState, mixed: i64)
    ensures
        ESC_IDLE_PULSE <= esc_pulse_value(start, mixed) <= ESC_MAX_PULSE,
        start == StartState::Started ==> esc_pulse_value(start, mixed) >= ESC_MIN_RUNNING_PULSE,
        start != StartState::Started ==> esc_pulse_value(start, mixed) == ESC_IDLE_PULSE,
{
}

/// Whatever the mixed commands, the channel values that the loop writes for
/// its ESC pulses are inside `0..=4095`, the range the PCA9685 accepts; while
/// the motors are not started they are all 0.
pub proof fn lemma_motor_duties_accepted(start: StartState, m1: i64, m2: i64, m3: i64, m4: i64)
    ensures
        pulse_duty_value(esc_pulse_value(start, m1)) <= 4095,
        pulse_duty_value(esc_pulse_value(start, m2)) <= 4095,
        pulse_duty_value(esc_pulse_value(start, m3)) <= 4095,
        pulse_duty_value(esc_pulse_value(start, m4)) <= 4095,
        start != StartState::Started ==> {
            &&& pulse_duty_value(esc_pulse_value(start, m1)) == 0
            &&& pulse_duty_value(esc_pulse_value(start, m2)) == 0
            &&& pulse_duty_value(esc_pulse_value(start, m3)) == 0
            &&& pulse_duty_value(esc_pulse_value(start, m4)) == 0
        },
{
    let p1 = esc_pulse_value(start, m1);
    let p2 = esc_pulse_value(start, m2);
    let p3 = esc_pulse_value(start, m3);
    let p4 = esc_pulse_value(start, m4);
    lemma_pulse_duty_in_range(p1, p1);
    lemma_pulse_duty_in_range(p2, p2);
    lemma_pulse_duty_in_range(p3, p3);
    lemma_pulse_duty_in_range(p4, p4);
}

/// The motors cannot be started from `Stopped` in one pass: starting takes
/// the sticks low first (`Starting`), then the yaw stick back.
pub proof fn lemma_no_direct_start(ch3: u16, ch4: u16)
    ensures
        next_start_state(StartState::Stopped, ch3, ch4) != StartState::Started,
        !step_two_fires(StartState::Stopped, ch3, ch4),
{
}

/// The start sequence: sticks low from `Stopped` gives `Starting`; then
/// throttle low with the yaw stick in `1451..=1950` gives `Started` and syncs
/// the angles.
pub proof fn lemma_start_sequence(ch3_a: u16, ch4_a: u16, ch3_b: u16, ch4_b: u16)
    requires
        ch3_a < 1050,
        ch4_a < 1050,
        ch3_b < 1050,
        1450 < ch4_b <= 1950,
    ensures
        next_start_state(StartState::Stopped, ch3_a, ch4_a) == StartState::Starting,
        next_start_state(next_start_state(StartState::Stopped, ch3_a, ch4_a), ch3_b, ch4_b)
            == StartState::Started,
        step_two_fires(next_start_state(StartState::Stopped, ch3_a, ch4_a), ch3_b, ch4_b),
{
}

/// Throttle low with the yaw stick fully right (above 1950) leaves the motors
/// not started, from any state.
pub proof fn lemma_stop_gesture(start: StartState, ch3: u16, ch4: u16)
    requires
        ch3 < 1050,
        ch4 > 1950,
    ensures
        next_start_state(start, ch3, ch4) != StartState::Started,
{
}

/// Once started, the motors stay started, without a new angle sync, unless
/// the throttle is low with the yaw stick low (back to `Starting`) or fully
/// right (`Stopped`).
pub proof fn lemma_started_persists(ch3: u16, ch4: u16)
    ensures
        next_start_state(StartState::Started, ch3, ch4) == (if ch3 < 1050 && ch4 < 1050 {
            StartState::Starting
        } else if ch3 < 1050 && ch4 > 1950 {
            StartState::Stopped
        } else {
            StartState::Started
        }),
        !step_two_fires(StartState::Started, ch3, ch4),
{
}

/// The angles are synced exactly when `Starting` turns into `Started`
/// (throttle low, yaw stick past 1450).
pub proof fn lemma_sync_on_start(start: StartState, ch3: u16, ch4: u16)
    ensures
        step_two_fires(start, ch3, ch4) <==> (start == StartState::Starting && ch3 < 1050 && ch4 > 1450),
{
}

/// With the arming switch the motors run exactly while the switch is above
/// 1900, whatever happened in earlier passes.
pub proof fn lemma_switch_started_iff_high(ch6: u16)
    ensures
        (switch_start_state(ch6) == StartState::Started) <==> ch6 > 1900,
{
}

/// The dead band: the stick input is 0 exactly for pulses in `1492..=1508`,
/// has the sign of the deviation from center, and never decreases as the
/// pulse grows.
pub proof fn lemma_stick_offset_dead_band(p: u16, q: u16)
    ensures
        (stick_offset_value(p) == 0) <==> (1492 <= p <= 1508),
        stick_offset_value(p) > 0 <==> p > 1508,
        stick_offset_value(p) < 0 <==> p < 1492,
        p <= q ==> stick_offset_value(p) <= stick_offset_value(q),
{
}

/// While the motors run, the throttle used by the mix never exceeds 1800 and
/// is never above the throttle channel.
pub proof fn lemma_throttle_limit(start: StartState, ch3: u16)
    ensures
        limited_throttle_value(start, ch3) <= ch3,
        start == StartState::Started ==> limited_throttle_value(start, ch3) <= THROTTLE_LIMIT,
        ch3 <= THROTTLE_LIMIT ==> limited_throttle_value(start, ch3) == ch3,
{
}

/// The whole stick start sequence, state by state. From `Stopped` only
/// throttle and yaw both below 1050 lead anywhere (to `Starting`). From
/// `Starting` the state is kept until the sticks go low again (stays
/// `Starting`), the yaw stick passes 1450 with throttle low (`Started`), or
/// passes 1950 with throttle low (started and stopped again in the same pass).
/// From `Started` sticks low go back to `Starting`, throttle low with yaw
/// above 1950 stops, anything else keeps the motors running.
pub proof fn lemma_stick_start_table(start: StartState, ch3: u16, ch4: u16)
    ensures
        next_start_state(start, ch3, ch4) == (match start {
            StartState::Stopped => if ch3 < 1050 && ch4 < 1050 {
                StartState::Starting
            } else {
                StartState::Stopped
            },
            StartState::Starting => if ch3 < 1050 && ch4 < 1050 {
                StartState::Starting
            } else if ch3 < 1050 && ch4 > 1950 {
                StartState::Stopped
            } else if ch3 < 1050 && ch4 > 1450 {
                StartState::Started
            } else {
                StartState::Starting
            },
            StartState::Started => if ch3 < 1050 && ch4 < 1050 {
                StartState::Starting
            } else if ch3 < 1050 && ch4 > 1950 {
                StartState::Stopped
            } else {
                StartState::Started
            },
        }),
        step_two_fires(start, ch3, ch4) == (start == StartState::Starting && ch3 < 1050 && ch4 > 1450),
{
}

/// From `Stopped` the next state is `Starting` exactly when throttle and yaw
/// are both below 1050, and `Stopped` otherwise.
pub proof fn lemma_stopped_leaves_only_on_sticks_low(ch3: u16, ch4: u16)
    ensures
        next_start_state(StartState::Stopped, ch3, ch4) == (if ch3 < 1050 && ch4 < 1050 {
            StartState::Starting
        } else {
            StartState::Stopped
        }),
        (ch3 >= 1050 || ch4 >= 1050) ==> next_start_state(StartState::Stopped, ch3, ch4)
            == StartState::Stopped,
{
}

/// A state other than `Started` is kept by a pass in which neither step one
/// (throttle and yaw below 1050) nor step two (from `Starting`, throttle below
/// 1050 and yaw above 1450) fires; in particular, with throttle low and the
/// yaw stick on its way back (`1050..=1450`), `Starting` stays `Starting`.
pub proof fn lemma_unstarted_state_kept(start: StartState, ch3: u16, ch4: u16)
    requires
        start != StartState::Started,
        !(ch3 < 1050 && ch4 < 1050),
        !(start == StartState::Starting && ch3 < 1050 && ch4 > 1450),
    ensures
        next_start_state(start, ch3, ch4) == start,
        !step_two_fires(start, ch3, ch4),
        ch3 < 1050 && 1050 <= ch4 <= 1450 ==> next_start_state(StartState::Starting, ch3, ch4)
            == StartState::Starting,
{
}

/// The switch loop never reports `Starting`: the state is `Started` when
/// channel 6 is above 1900 and `Stopped` otherwise.
pub proof fn lemma_switch_never_starting(ch6: u16)
    ensures
        switch_start_state(ch6) != StartState::Starting,
        ch6 <= 1900 ==> switch_start_state(ch6) == StartState::Stopped,
        ch6 > 1900 ==> switch_start_state(ch6) == StartState::Started,
{
}

/// While the motors run, a mixed command inside `1100..=2000` reaches the ESC
/// unchanged; below it the ESC gets 1100, above it 2000. So the pulse is the
/// command itself whenever the command is a pulse the ESC may get, and
/// otherwise the nearest such pulse.
pub proof fn lemma_esc_pulse_passes_running_range(m: i64, n: i64)
    ensures
        1100 <= m <= 2000 ==> esc_pulse_value(StartState::Started, m) == m,
        m < 1100 ==> esc_pulse_value(StartState::Started, m) == 1100,
        m > 2000 ==> esc_pulse_value(StartState::Started, m) == 2000,
        m <= n ==> esc_pulse_value(StartState::Started, m) <= esc_pulse_value(StartState::Started, n),
{
}

/// No yaw input while the throttle is at or below 1050, whatever the yaw
/// stick; above 1050 the yaw input is the yaw stick's dead-banded offset: 0
/// inside `1492..=1508`, otherwise the distance past the band edge, with its
/// sign.
pub proof fn lemma_yaw_suppressed_at_low_throttle(ch3: u16, ch4: u16)
    ensures
        ch3 <= 1050 ==> yaw_offset_value(ch3, ch4) == 0,
        ch3 > 1050 ==> yaw_offset_value(ch3, ch4) == stick_offset_value(ch4),
        ch3 > 1050 && ch4 > 1508 ==> yaw_offset_value(ch3, ch4) == ch4 - 1508,
        ch3 > 1050 && ch4 < 1492 ==> yaw_offset_value(ch3, ch4) == ch4 - 1492,
        ch3 > 1050 && 1492 <= ch4 <= 1508 ==> yaw_offset_value(ch3, ch4) == 0,
{
}

} // verus!
