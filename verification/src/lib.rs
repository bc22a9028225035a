//! A request relay for a single-threaded event loop.
//!
//! Code running outside the loop — another thread, typically — asks the loop
//! to spawn a new state machine by sending a request through a [`sync::Funnel`].
//! Each send signals a [`sync::Notifier`], which the event-loop driver watches;
//! the driver then wakes the owning [`machines::RequestMachine`], which drains
//! the queue without ever blocking and turns each request that its handler
//! accepts into a spawn instruction for the driver.

pub mod handlers;
pub mod machines;
pub mod sync;
