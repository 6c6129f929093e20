//! Coordination core of a two-thread screen locker.
//!
//! A control thread owns the windowing and session state; a render thread
//! owns the graphics context and draws. The two share nothing and talk over
//! two ordered channels. This crate holds what both sides must agree on and
//! every decision the render thread takes, free of any I/O:
//!
//! * [`message`]: the values that cross the thread boundary;
//! * [`ui::egl`]: the lifecycle of the graphics context, from the native
//!   handles to a context that is current, and the operations on a live one;
//! * [`render_thread`]: the render loop as a state machine from events to
//!   the actions that the thread must perform;
//! * [`trusted`]: what is taken from other crates and believed of them.
//!
//! The caller performs the actions against the driver, the toolkit and the
//! channels, and reports back what happened.

pub mod message;
pub mod render_thread;
pub mod trusted;
pub mod ui;
