//! The behaviour of a debugger's main window, apart from the toolkit that
//! draws it: what each signal of the window's widgets makes the window do.
//!
//! The program around this library owns the widgets. It turns what they
//! report into a [`signal::Signal`], asks [`reaction::react`] for the
//! [`command::Command`]s, and carries them out one by one. Where a command
//! asks the toolkit a question, the answer comes back as one more signal.

pub mod command;
pub mod marks;
pub mod reaction;
pub mod signal;
