//! Core logic of a single-core, interrupt-driven watch firmware: a wrap-safe
//! monotonic clock, a priority-ceiling resource arbiter, a coalescing task
//! scheduler, a two-stage radio interrupt/worker handoff, and the small state
//! machines driven by the scheduled tasks (button debouncing, battery
//! monitoring, backlight control, sprite animation).
//!
//! Everything here is pure state-machine logic over plain values; reading
//! pins, driving the display bus and servicing the radio stack happen at the
//! edge, which hands values in and carries draw commands out.

pub mod animator;
pub mod arbiter;
pub mod backlight;
pub mod battery;
pub mod ble;
pub mod clock;
pub mod debounce;
pub mod firmware;
pub mod sched;
pub mod textfmt;
