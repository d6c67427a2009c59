//! The raw readings of the MPU6050 inertial sensor, as the flight loop
//! consumes them.

use vstd::prelude::*;

verus! {

/// Averaged gyroscope reading of the three axes.
#[derive(Clone, Copy, Debug, PartialEq, Eq)]
pub struct GyroMpu6050RawData {
    pub x: i32,
    pub y: i32,
    pub z: i32,
}

/// Averaged accelerometer reading of the three axes, one byte each.
#[derive(Clone, Copy, Debug, PartialEq, Eq)]
pub struct AccMpu6050RawData {
    pub x: u8,
    pub y: u8,
    pub z: u8,
}

/// Version string of the MPU6050 driver.
pub fn driver_mpu6050_version() -> (v: &'static str)
    ensures
        v@ == " MPU6050 DRIVER  V0.0.1 verison is 14/11/2020 ID is: 4gQvYOdD"@,
{
    " MPU6050 DRIVER  V0.0.1 verison is 14/11/2020 ID is: 4gQvYOdD"
}

/// The squared length of the acceleration vector, `x² + y² + z²`.
pub open spec fn acc_square_sum_value(acc: AccMpu6050RawData) -> int {
    acc.x * acc.x + acc.y * acc.y + acc.z * acc.z
}

/// The squared length is computed in `u8`: it is defined when neither a square
/// nor the sum leaves the byte.
pub open spec fn acc_square_sum_fits(acc: AccMpu6050RawData) -> bool {
    acc_square_sum_value(acc) <= u8::MAX
}

/// The squared length of the acceleration vector, computed on bytes as the
/// flight loop does before it takes the square root.
pub fn acc_total_vector_no_square(acc: &AccMpu6050RawData) -> (s: u8)
    requires
        acc_square_sum_fits(*acc),
    ensures
        s == acc_square_sum_value(*acc),
{
    assert(acc.x * acc.x <= u8::MAX && acc.y * acc.y <= u8::MAX && acc.z * acc.z <= u8::MAX) by (nonlinear_arith)
        requires
            acc.x * acc.x + acc.y * acc.y + acc.z * acc.z <= u8::MAX,
    ;
    acc.x * acc.x + acc.y * acc.y + acc.z * acc.z
}

/// The squared length, or `None` exactly when the byte arithmetic of
/// `acc_total_vector_no_square` would overflow.
pub fn checked_acc_total_vector_no_square(acc: &AccMpu6050RawData) -> (s: Option<u8>)
    ensures
        s is Some <==> acc_square_sum_fits(*acc),
        s matches Some(v) ==> v == acc_square_sum_value(*acc),
{
    let xx = match acc.x.checked_mul(acc.x) {
        Some(v) => v,
        None => {
            assert(acc.y * acc.y >= 0 && acc.z * acc.z >= 0) by (nonlinear_arith);
            return None;
        },
    };
    let yy = match acc.y.checked_mul(acc.y) {
        Some(v) => v,
        None => {
            assert(acc.z * acc.z >= 0) by (nonlinear_arith);
            return None;
        },
    };
    let zz = match acc.z.checked_mul(acc.z) {
        Some(v) => v,
        None => return None,
    };
    let xy = match xx.checked_add(yy) {
        Some(v) => v,
        None => return None,
    };
    match xy.checked_add(zz) {
        Some(v) => Some(v),
        None => None,
    }
}

} // verus!
