//! Core logic of a real-time, interrupt-driven feedback controller.
//!
//! The crate models every hardware-facing register block as an owned value
//! with named accessor methods, so that the driver logic — bitmap masking,
//! routing, priority tables, acknowledge/end-of-interrupt bookkeeping, the
//! lock-free handoff between interrupt context and the control loop, and the
//! fixed shared-memory parameter protocol — is verified down to the bit level.
//! Binding these models to volatile memory-mapped registers, and the
//! floating-point control arithmetic, live outside the verified library.

pub mod control;
pub mod cpu;
pub mod gic;
pub mod handoff;
pub mod rt;
pub mod types;
pub mod words;
