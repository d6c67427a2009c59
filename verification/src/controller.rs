//! The ESC side of the controller: which driver configuration is accepted,
//! the integer `map` that scales a receiver pulse onto the PCA9685 duty
//! counter, and the four-channel throttle plan.

use vstd::prelude::*;
use crate::arith::{trunc_div, i32_div, lemma_trunc_div_monotone, lemma_trunc_div_exact};

verus! {

/// Frequency setting of the PWM signal, handed to the PCA9685 as prescale.
pub const FREQ_CONST: i32 = 200;

/// The PWM driver that the configuration must name.
pub open spec fn supported_driver() -> Seq<char> {
    seq!['p', 'c', 'a', '9', '6', '8', '5']
}

/// When the ESC configuration passes the driver check: the driver is the
/// PCA9685 and the bitwise complement of the motor amount is not 4.
pub open spec fn driver_config_ok(driver: Seq<char>, amount: u8) -> bool {
    &&& !amount != 4u8
    &&& driver == supported_driver()
}

/// The prescale value written to the PCA9685: `FREQ_CONST` as a byte.
pub fn pwm_prescale() -> (p: u8)
    ensures
        p == FREQ_CONST as u8,
        p == 200,
{
    FREQ_CONST as u8
}

/// Whether the driver check accepts this configuration.
pub fn driver_config_accepted(driver: &String, amount: u8) -> (ok: bool)
    ensures
        ok == driver_config_ok(driver@, amount),
{
    proof {
        assert((!amount == 4u8) == (amount == 251u8)) by (bit_vector);
    }
    if amount == 251 {
        return false;
    }
    let name = driver.as_str();
    let expected = "pca9685";
    proof {
        reveal_strlit("pca9685");
    }
    assert(expected@ == supported_driver());
    let n = name.unicode_len();
    if n != 7 {
        return false;
    }
    let mut i: usize = 0;
    while i < 7
        invariant
            0 <= i <= 7,
            name@.len() == 7,
            expected@ == supported_driver(),
            name@ == driver@,
            forall|j: int| 0 <= j < i ==> name@[j] == expected@[j],
        decreases 7 - i,
    {
        if name.get_char(i) != expected.get_char(i) {
            return false;
        }
        i = i + 1;
    }
    assert(name@ =~= expected@);
    true
}

/// The driver check that the ESC setup runs on its configuration; the
/// configuration must pass it (see `driver_config_accepted`).
pub fn check_driver_config_check(driver: String, amount: u8)
    requires
        driver_config_ok(driver@, amount),
{
}

/// Version string of the ESC PWM module.
pub fn get_esc_verison() -> (v: &'static str)
    ensures
        v@ == "ESC PWM  MODULE VERSION 0.0.1 18/09/2020"@,
{
    "ESC PWM  MODULE VERSION 0.0.1 18/09/2020"
}

/// The linear rescaling that `map` computes, with Rust's rounding toward zero:
/// `(x - in_min) * (out_max - out_min) / (in_max - in_min) + out_min`.
pub open spec fn map_value(x: int, in_min: int, in_max: int, out_min: int, out_max: int) -> int {
    trunc_div((x - in_min) * (out_max - out_min), in_max - in_min) + out_min
}

/// `i32` bounds.
pub open spec fn fits_i32(v: int) -> bool {
    i32::MIN <= v <= i32::MAX
}

/// The inputs on which `map` computes its value without an arithmetic fault
/// (overflow of a step, division by zero).
pub open spec fn map_defined(x: int, in_min: int, in_max: int, out_min: int, out_max: int) -> bool {
    &&& in_max != in_min
    &&& fits_i32(x - in_min)
    &&& fits_i32(out_max - out_min)
    &&& fits_i32(in_max - in_min)
    &&& fits_i32((x - in_min) * (out_max - out_min))
    &&& !((x - in_min) * (out_max - out_min) == i32::MIN && in_max - in_min == -1)
    &&& fits_i32(map_value(x, in_min, in_max, out_min, out_max))
}

/// Rescales `x` from the range `in_min..in_max` onto `out_min..out_max`.
pub fn map(x: i32, in_min: i32, in_max: i32, out_min: i32, out_max: i32) -> (val: i32)
    requires
        map_defined(x as int, in_min as int, in_max as int, out_min as int, out_max as int),
    ensures
        val == map_value(x as int, in_min as int, in_max as int, out_min as int, out_max as int),
{
    let q = i32_div((x - in_min) * (out_max - out_min), in_max - in_min);
    q + out_min
}

/// `map` where every step is checked: `None` exactly on the inputs on which a
/// step of `map` would fault.
pub fn checked_map(x: i32, in_min: i32, in_max: i32, out_min: i32, out_max: i32) -> (val: Option<i32>)
    ensures
        val is Some <==> map_defined(x as int, in_min as int, in_max as int, out_min as int, out_max as int),
        val matches Some(v) ==> v == map_value(x as int, in_min as int, in_max as int, out_min as int, out_max as int),
{
    let span_in = match in_max.checked_sub(in_min) {
        Some(d) => d,
        None => return None,
    };
    if span_in == 0 {
        return None;
    }
    let offset = match x.checked_sub(in_min) {
        Some(d) => d,
        None => return None,
    };
    let span_out = match out_max.checked_sub(out_min) {
        Some(d) => d,
        None => return None,
    };
    let scaled = match offset.checked_mul(span_out) {
        Some(p) => p,
        None => return None,
    };
    if scaled == i32::MIN && span_in == -1 {
        return None;
    }
    let q = i32_div(scaled, span_in);
    match q.checked_add(out_min) {
        Some(v) => Some(v),
        None => None,
    }
}

/// The ESC pulse width (in microseconds) that maps to duty 0.
pub const PULSE_MIN: i32 = 1000;

/// The ESC pulse width (in microseconds) that maps to full duty.
pub const PULSE_MAX: i32 = 2000;

/// The largest value of the PCA9685's 12-bit `ON` counter.
pub const DUTY_MAX: i32 = 4095;

/// The `ON` counter value for a pulse width: the pulse mapped from
/// `1000..2000` onto `0..4095`, then cast to `u16` (wrapping, as `as` does).
pub open spec fn pulse_duty_value(pulse: u16) -> u16 {
    map_value(pulse as int, 1000, 2000, 0, 4095) as u16
}

/// The PCA9685 `ON` counter value for one ESC pulse width.
pub fn pulse_duty(pulse: u16) -> (duty: u16)
    ensures
        duty == pulse_duty_value(pulse),
{
    let v = self::map(pulse as i32, PULSE_MIN, PULSE_MAX, 0, DUTY_MAX);
    v as u16
}

/// The `ON` counter values for the four motor channels `C0` to `C3`.
#[derive(Clone, Copy, Debug, PartialEq, Eq)]
pub struct ChannelDuties {
    pub c0: u16,
    pub c1: u16,
    pub c2: u16,
    pub c3: u16,
}

/// The four channel values that the throttle command writes for the pulse
/// widths of ESC 1 to 4, in that order on channels `C0` to `C3`.
pub fn throttle_duties(ch1: u16, ch2: u16, ch3: u16, ch4: u16) -> (d: ChannelDuties)
    ensures
        d.c0 == pulse_duty_value(ch1),
        d.c1 == pulse_duty_value(ch2),
        d.c2 == pulse_duty_value(ch3),
        d.c3 == pulse_duty_value(ch4),
{
    ChannelDuties {
        c0: pulse_duty(ch1),
        c1: pulse_duty(ch2),
        c2: pulse_duty(ch3),
        c3: pulse_duty(ch4),
    }
}

/// `map` sends the ends of the input range onto the ends of the output range.
pub proof fn lemma_map_endpoints(in_min: int, in_max: int, out_min: int, out_max: int)
    requires
        in_max != in_min,
    ensures
        map_value(in_min, in_min, in_max, out_min, out_max) == out_min,
        map_value(in_max, in_min, in_max, out_min, out_max) == out_max,
{
    lemma_trunc_div_exact(0, in_max - in_min);
    assert(0 * (in_max - in_min) == 0);
    lemma_trunc_div_exact(out_max - out_min, in_max - in_min);
    assert((in_max - in_min) * (out_max - out_min) == (out_max - out_min) * (in_max - in_min))
        by (nonlinear_arith);
}

/// On an increasing input range and a non-decreasing output range, `map` is
/// monotone.
pub proof fn lemma_map_monotone(x1: int, x2: int, in_min: int, in_max: int, out_min: int, out_max: int)
    requires
        x1 <= x2,
        in_min < in_max,
        out_min <= out_max,
    ensures
        map_value(x1, in_min, in_max, out_min, out_max) <= map_value(x2, in_min, in_max, out_min, out_max),
{
    assert((x1 - in_min) * (out_max - out_min) <= (x2 - in_min) * (out_max - out_min))
        by (nonlinear_arith)
        requires
            x1 <= x2,
            out_min <= out_max,
    ;
    lemma_trunc_div_monotone(
        (x1 - in_min) * (out_max - out_min),
        (x2 - in_min) * (out_max - out_min),
        in_max - in_min,
    );
}

/// A pulse inside `1000..=2000` gives a counter value inside `0..=4095`, the
/// range the PCA9685 accepts; the ends give 0 and 4095, and a longer pulse
/// never gives a smaller value.
pub proof fn lemma_pulse_duty_in_range(p1: u16, p2: u16)
    requires
        1000 <= p1 <= p2 <= 2000,
    ensures
        0 <= pulse_duty_value(p1) <= pulse_duty_value(p2) <= 4095,
        p1 == 1000 ==> pulse_duty_value(p1) == 0,
        p2 == 2000 ==> pulse_duty_value(p2) == 4095,
{
    lemma_map_endpoints(1000, 2000, 0, 4095);
    lemma_map_monotone(1000, p1 as int, 1000, 2000, 0, 4095);
    lemma_map_monotone(p1 as int, p2 as int, 1000, 2000, 0, 4095);
    lemma_map_monotone(p2 as int, 2000, 1000, 2000, 0, 4095);
}

/// A pulse shorter than 1000 maps to a negative value, which the cast to `u16`
/// wraps above 4095: such a pulse is outside what the PCA9685 accepts.
pub proof fn lemma_short_pulse_wraps(p: u16)
    requires
        p < 1000,
    ensures
        pulse_duty_value(p) > 4095,
{
    let m = map_value(p as int, 1000, 2000, 0, 4095);
    let num = (p - 1000) * 4095;
    assert(-4095000 <= num <= -4095) by (nonlinear_arith)
        requires
            num == (p - 1000) * 4095,
            0 <= p < 1000,
    ;
    assert(-4095 <= (-num) / 1000 <= 4095) by (nonlinear_arith)
        requires
            4095 <= -num <= 4095000,
    ;
    assert((-num) / 1000 >= 4) by (nonlinear_arith)
        requires
            4095 <= -num,
    ;
    assert(-4095 <= m <= -4);
    let mi: i32 = m as i32;
    assert(mi == m);
    assert(-4095 <= mi <= -4 ==> (mi as u16) > 4095u16) by (bit_vector);
}

} // verus!
