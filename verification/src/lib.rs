//! The decision core of a console sink for class-validation diagnostics.
//!
//! A scan pushes one event per unrecognized class. The sink turns each event
//! into a diagnostic line, remembers whether any event was seen, and at the
//! end yields a verdict and a summary line. Everything here is a pure function
//! of its arguments: queues, tasks and the actual printing live with the caller.

pub mod console;
pub mod decimal;
pub mod event;
pub mod laws;
pub mod message;

pub use crate::console::{summary, Console};
pub use crate::event::SearchFileEvent;
pub use crate::message::{Message, Stream};
