use ruka::gesture::{GesturePolicy, RukaGesture};
use ruka::hand::RukaInput;

#[test]
fn new_store_is_empty() {
    let store = RukaInput::default();
    assert!(!store.is_init());
    assert_eq!(store.get_fingers(), [0; 5]);
    assert_eq!(store.get_limits(), [(0, 0); 5]);
    assert_eq!(store.get_accel(), [0; 3]);
    assert_eq!(store.get_gyro(), [0; 3]);
}

#[test]
fn init_flag_is_set() {
    let mut store = RukaInput::new();
    store.set_init(true);
    assert!(store.is_init());
    assert!(store.snapshot().ready);
}

#[test]
fn finger_update_calibrates() {
    let mut store = RukaInput::new();
    store.update_fingers([3000, 4000, 5000, 6000, 7000]);
    assert_eq!(store.get_fingers(), [3000, 4000, 5000, 6000, 7000]);
    assert_eq!(
        store.get_limits(),
        [(3000, 3000), (4000, 4000), (5000, 5000), (6000, 6000), (7000, 7000)]
    );
    store.update_fingers([2000, 5000, 5000, 6000, 7000]);
    assert_eq!(store.get_limits()[0], (2000, 3000));
    assert_eq!(store.get_limits()[1], (4000, 5000));
}

#[test]
fn imu_update_splits_vectors() {
    let mut store = RukaInput::new();
    store.update_imu([1, -2, 981, -150, 0, 32767]);
    assert_eq!(store.get_accel(), [1, -2, 981]);
    assert_eq!(store.get_gyro(), [-150, 0, 32767]);
    assert_eq!(store.get_fingers(), [0; 5]);
}

#[test]
fn store_gesture_follows_latest_fingers() {
    let mut store = RukaInput::new();
    store.update_fingers([1000; 5]);
    store.update_fingers([9000; 5]);
    // Bounds are now (1000, 9000) everywhere.
    store.update_fingers([2000; 5]);
    assert_eq!(store.get_gesture(), RukaGesture::Fist);
    store.update_fingers([2000, 2000, 2000, 2000, 8000]);
    assert_eq!(store.get_gesture(), RukaGesture::Idle);
    store.update_fingers([8000, 2000, 2000, 2000, 2000]);
    assert_eq!(store.get_gesture(), RukaGesture::Fist);
    assert_eq!(store.get_gesture_with(GesturePolicy::AllFingers), RukaGesture::Idle);
}
