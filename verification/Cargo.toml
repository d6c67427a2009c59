[package]
name = "flight_control"
version = "0.1.0"
edition = "2021"
publish = false

[dependencies]
pid = "2"
pwm-pca9685 = "0.3"
linux-embedded-hal = "0.3"
rppal = "0.11"
mpu6050 = "0.1"
