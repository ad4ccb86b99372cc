//! Core of a tray-resident uploader shell: a typed state model, the task
//! engine that owns the single cancellable upload operation, the
//! presentation-side decision logic, and typed clients for the two bounded
//! message channels that connect the two sides.
//!
//! Progress is measured in hundredths throughout: the operation advances by
//! one hundredth per step and is complete at one hundred.

pub mod chan;
pub mod gui;
pub mod task;
