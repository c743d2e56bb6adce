use ruka::frame::SensorFrame;
use ruka::hand::RukaInput;
use ruka::handoff::Handoff;

fn frame_of(n: u16) -> SensorFrame {
    SensorFrame {
        fingers: [n, n + 1, n + 2, n + 3, n + 4],
        imu: [n as i16, -(n as i16), 1, 2, 3, n as i16],
    }
}

#[test]
fn last_of_many_posts_is_delivered_whole() {
    let mut handoff = Handoff::new();
    for n in 0..1000u16 {
        handoff.post(frame_of(n));
    }
    let mut store = RukaInput::new();
    handoff.deliver(&mut store);
    assert_eq!(store.get_fingers(), [999, 1000, 1001, 1002, 1003]);
    assert_eq!(store.get_accel(), [999, -999, 1]);
    assert_eq!(store.get_gyro(), [2, 3, 999]);
    assert!(handoff.take().is_none());
}

#[test]
fn take_returns_latest_then_nothing() {
    let mut handoff = Handoff::new();
    assert!(handoff.take().is_none());
    handoff.post(frame_of(1));
    handoff.post(frame_of(7));
    assert_eq!(handoff.take().unwrap().fingers, [7, 8, 9, 10, 11]);
    assert!(handoff.take().is_none());
}

#[test]
fn readiness_is_delivered_before_frames() {
    let mut handoff = Handoff::new();
    let mut store = RukaInput::new();
    handoff.deliver(&mut store);
    assert!(!store.is_init());
    handoff.signal_ready();
    assert!(handoff.is_ready());
    handoff.deliver(&mut store);
    assert!(store.is_init());
    assert_eq!(store.get_fingers(), [0; 5]);
    handoff.post(frame_of(5));
    handoff.deliver(&mut store);
    assert!(store.is_init());
    assert_eq!(store.get_fingers(), [5, 6, 7, 8, 9]);
}

#[test]
fn delivery_without_frame_keeps_store() {
    let mut handoff = Handoff::new();
    let mut store = RukaInput::new();
    handoff.post(frame_of(3));
    handoff.deliver(&mut store);
    handoff.deliver(&mut store);
    assert_eq!(store.get_fingers(), [3, 4, 5, 6, 7]);
    assert_eq!(store.get_limits()[0], (3, 3));
}
