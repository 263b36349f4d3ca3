use sentry::servo::{Bounds, Error, Servo};

#[test]
fn test_zero_period() {
    let bounds = Bounds::from_period_ms(53333, 0);
    assert_eq!(bounds, Err(Error::ZeroPeriod));
}

#[test]
fn test_big_scale() {
    let bounds = Bounds::scale_from_period_ms(53333, 50, 101, 100);
    assert_eq!(bounds, Err(Error::InvalidArgument));
}

#[test]
fn test_bounds() {
    let bounds = Bounds::from_period_ms(53333, 50);
    assert_eq!(bounds, Ok(Bounds { lower_bound: 1066, width: 1066 }));
}

#[test]
fn test_scaled_one_to_one_bounds() {
    let bounds = Bounds::scale_from_period_ms(53333, 50, 1, 1);
    assert_eq!(bounds, Ok(Bounds { lower_bound: 1066, width: 1066 }));
}

#[test]
fn test_scaled_bounds() {
    let bounds = Bounds::scale_from_period_ms(53333, 50, 40000, 65535);
    assert_eq!(bounds, Ok(Bounds { lower_bound: 1274, width: 651 }));
}

#[test]
fn test_full_range() {
    let bounds = Bounds::from_period_ms(53333, 50).unwrap();
    let servo = Servo::new(bounds);

    for i in 0..=100u16 {
        let duty = servo.calculate_duty(i, 100);
        assert!(duty.is_ok());
        assert_eq!(duty.unwrap() as u32, 1066 + (1066 * i as u32) / 100);
    }
}

#[test]
fn set_rejects_ratio_above_one() {
    let bounds = Bounds::from_period_ms(53333, 50).unwrap();
    let mut servo = Servo::new(bounds);
    assert_eq!(
        servo.set(sentry::servo::ServoTarget { numer: 3, denom: 2 }),
        Err(Error::InvalidArgument)
    );
    assert_eq!(servo.set(sentry::servo::ServoTarget { numer: 1, denom: 2 }), Ok(()));
}

#[test]
fn overflow_check_rejects_one_millisecond_period() {
    assert_eq!(Bounds::from_period_ms(53333, 1), Err(Error::UpperBoundOverflow));
    assert_eq!(Bounds::scale_from_period_ms(53333, 1, 1, 2), Err(Error::UpperBoundOverflow));
}
