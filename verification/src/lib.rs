//! A capture contract for camera devices: one set of operations to list
//! formats, set them, adjust controls and take frames, whatever the capture
//! technology behind a device.
//!
//! - [`types`], [`control`], [`buffer`] and [`error`] hold the values that go
//!   in and out.
//! - [`traits`] is the contract itself: what every capture session offers and
//!   what each operation may do to the stream.
//! - [`backend`] is what a driver has to answer.
//! - [`stream`] decides what is asked of a driver and what follows from its
//!   answers; [`laws`] says what holds of these decisions whatever a driver
//!   answers.
//! - [`negotiate`] turns what a device offers into formats to choose from,
//!   and [`oneshot`] takes a single frame.
//! - [`session`] puts a driver and the decisions together, one blocking call
//!   at a time.

pub mod backend;
pub mod buffer;
pub mod control;
pub mod error;
pub mod laws;
pub mod negotiate;
pub mod oneshot;
pub mod session;
pub mod stream;
pub mod traits;
pub mod types;
