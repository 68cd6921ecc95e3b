//! The relay engine of a dumb terminal for serial lines: what is typed goes
//! to the line, what the line sends is shown, and an escape key gives access
//! to commands that change the line's settings while the session runs.
//!
//! Everything here is a function of plain values. The program around the
//! library reads the keyboard, talks to the serial device and draws on the
//! screen, and hands what it observed to the machines of this library, which
//! decide what happens next:
//!
//! - [`key`] turns a key press into the bytes that a terminal sends for it;
//! - [`inputstream`] is the memory of the worker that reads the keyboard,
//!   and the typing of a line;
//! - [`commands`] holds the command-mode machine and the commands;
//! - [`serial_in`] decodes the escape sequences among the bytes from the
//!   line;
//! - [`terminal`] and [`escape_handlers`] say what is done on the screen for
//!   a unit of data;
//! - [`relay`] takes turns between the keyboard and the line;
//! - [`args`], [`state`], [`line`] and [`notice`] hold the options, the state
//!   of a session, the settings of the line, and the messages for the user.

pub mod args;
pub mod commands;
pub mod escape_handlers;
pub mod inputstream;
pub mod key;
pub mod line;
pub mod notice;
pub mod relay;
pub mod serial_in;
pub mod state;
pub mod terminal;
pub mod utils;
