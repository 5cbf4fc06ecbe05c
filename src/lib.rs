//! Core of a small tool that flashes a firmware image onto an Arduino board:
//! the board profile table, the construction of the `avrdude` invocation, the
//! rendering of its outcome, and the session state that decides when a flash
//! attempt may go ahead.

pub mod board;
pub mod command;
pub mod port;
pub mod outcome;
pub mod workflow;
