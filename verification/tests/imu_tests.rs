use flight_control::imu::{
    acc_total_vector_no_square, checked_acc_total_vector_no_square, driver_mpu6050_version,
    AccMpu6050RawData, GyroMpu6050RawData,
};

#[test]
fn square_sum_of_small_reading() {
    let acc = AccMpu6050RawData { x: 3, y: 4, z: 12 };
    assert_eq!(acc_total_vector_no_square(&acc), 169);
}

#[test]
fn square_sum_at_byte_limit() {
    let acc = AccMpu6050RawData { x: 15, y: 5, z: 2 };
    assert_eq!(acc_total_vector_no_square(&acc), 254);
    assert_eq!(checked_acc_total_vector_no_square(&AccMpu6050RawData { x: 15, y: 5, z: 3 }), None);
}

#[test]
fn checked_square_sum() {
    assert_eq!(checked_acc_total_vector_no_square(&AccMpu6050RawData { x: 1, y: 2, z: 3 }), Some(14));
    assert_eq!(checked_acc_total_vector_no_square(&AccMpu6050RawData { x: 0, y: 0, z: 0 }), Some(0));
    // a square overflows
    assert_eq!(checked_acc_total_vector_no_square(&AccMpu6050RawData { x: 16, y: 0, z: 0 }), None);
    // the squares fit, their sum does not
    assert_eq!(checked_acc_total_vector_no_square(&AccMpu6050RawData { x: 15, y: 6, z: 0 }), None);
}

#[test]
fn mpu_version_string() {
    assert_eq!(
        driver_mpu6050_version(),
        " MPU6050 DRIVER  V0.0.1 verison is 14/11/2020 ID is: 4gQvYOdD"
    );
}

#[test]
fn gyro_record_holds_axes() {
    let g = GyroMpu6050RawData { x: -5, y: 0, z: 7 };
    assert_eq!((g.x, g.y, g.z), (-5, 0, 7));
}
