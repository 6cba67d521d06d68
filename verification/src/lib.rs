//! A frame-stepped particle effect simulation in fixed-point arithmetic.
//!
//! A spawner is configured once, owns a pool of particle slots of fixed size,
//! emits bursts while its lifetime lasts, and lets the particles that are
//! still alive finish before it reports that it is done. Every quantity is an
//! integer: lengths, sizes, speeds and colour channels count in steps of
//! `1 / ONE`, and time counts in nanoseconds.

pub mod components;
pub mod interp;
pub mod lifecycle;
pub mod random;
pub mod systems;
pub mod timer;
pub mod units;
