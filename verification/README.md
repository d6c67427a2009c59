# flight_control

Decision logic of a small quadcopter flight controller, verified with Verus.

- `src/controller.rs`: the ESC board side: the driver check on the ESC
  configuration, the integer `map` (with a checked variant) and the PCA9685
  `ON` counter for an ESC pulse width, with laws on its range.
- `src/imu.rs`: the raw MPU6050 records and the byte-sized squared length of
  the acceleration vector.
- `src/flight.rs`: the decisions of one pass of the flight loop: the stick and
  switch arming rules, the receiver dead band, the throttle limit, the ESC
  pulse limits, and laws on all of them.
- `app/`: the hardware side (I2C devices, receiver, the floating-point
  attitude and PID computations, the loops), which uses the library.
