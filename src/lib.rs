//! Host-side acquisition core for the Ruka sensor glove: decoding of the
//! glove's GATT payloads, per-finger calibration, gesture classification,
//! the shared hand-state store, the latest-frame hand-off between the
//! acquisition task and its consumer, and the decisions of a BLE session.
pub mod calibration;
pub mod frame;
pub mod gesture;
pub mod hand;
pub mod handoff;
pub mod session;
