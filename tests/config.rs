use busy::config::{ArgError, BusyArgs};

#[test]
fn speed_zero_is_rejected() {
    assert_eq!(BusyArgs::new(5, false, false, 0, false), Err(ArgError::SpeedOutOfRange(0)));
}

#[test]
fn speed_one_hundred_one_is_rejected() {
    assert_eq!(
        BusyArgs::new(5, false, false, 101, false),
        Err(ArgError::SpeedOutOfRange(101))
    );
}

#[test]
fn speed_bounds_are_accepted() {
    let slow = BusyArgs::new(1, true, true, 1, true).unwrap();
    assert_eq!(slow.mouse_speed, 1);
    assert!(slow.click && slow.center_mouse && slow.enable_logging);
    assert_eq!(slow.steps(), 256);
    let fast = BusyArgs::new(1, false, false, 100, false).unwrap();
    assert_eq!(fast.steps(), 32);
}

#[test]
fn zero_interval_is_kept() {
    assert_eq!(BusyArgs::new(0, false, false, 50, false).unwrap().update_interval, 0);
}

#[test]
fn defaults_match_documented_values() {
    let d = BusyArgs::default();
    assert_eq!(d, BusyArgs::defaults());
    assert_eq!(d.update_interval, 5);
    assert_eq!(d.mouse_speed, 75);
    assert!(!d.click && !d.center_mouse && !d.enable_logging);
    assert_eq!(d.steps(), 89);
}
