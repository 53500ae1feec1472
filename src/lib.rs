//! Session recording supervisor: the decision logic of a program that runs a
//! command on a pseudo-terminal, logs its output and relays terminal events.

pub mod buffer;
pub mod child;
pub mod format;
pub mod iomode;
pub mod output;
pub mod signal;
pub mod status;
pub mod supervisor;
pub mod term;
