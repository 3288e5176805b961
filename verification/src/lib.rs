//! A transparent command proxy: the decisions of running a program on a
//! caller's behalf, forwarding one of its output streams line by line and
//! reading telemetry out of it on the way.
//!
//! The library holds no process, pipe or clock. Its caller spawns the child
//! and hands over plain values; the library says what to do with them:
//!
//! 1. [`dispatch::run_command_for_dir`] picks one of three paths and says
//!    which stream of the child to pipe.
//! 2. A [`tee::TeeScanner`] takes the piped stream in chunks, hands back the
//!    lines to write to the console, and reads each line with the matcher
//!    of the path ([`extract`]).
//! 3. [`outcome::conclude`] turns the way the child ended and what was read
//!    into the event for the telemetry store and the caller's result.
//! 4. [`telemetry::after_append`] says what follows an attempt to store the
//!    event.
//!
//! Each step has a model in plain mathematics, and the proof functions
//! beside the models state what holds of every run: the console gets the
//! stream byte for byte, however it is cut into chunks and whatever it
//! holds; a caller under another name leaves no event; a child's exit code
//! reaches the caller unchanged.

pub mod dispatch;
pub mod extract;
pub mod lines;
pub mod outcome;
pub mod pattern;
pub mod tee;
pub mod telemetry;
pub mod text;

pub use dispatch::run_command_for_dir;
