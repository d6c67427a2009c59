//! Verified decision logic of a quadcopter flight controller: the PWM
//! mapping of ESC pulses onto a PCA9685 board, the raw sensor records of an
//! MPU6050, and the arming, dead-band, throttle and motor-mixing rules of the
//! flight loop.
//!
//! Hardware access (I2C, UART) and the floating-point attitude and PID
//! computations live outside this crate.

mod arith;
pub mod controller;
pub mod imu;
pub mod flight;
