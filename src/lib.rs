//! A driver for engines that speak a line-based command protocol over their
//! standard input and output.
//!
//! The library holds the decisions: which line to send next, when a reply is
//! complete, and how every failure ends the run. The program around it spawns
//! the engine, performs each action the driver asks for and reports back what
//! happened as an event.
pub mod condition;
pub mod driver;
pub mod pattern;
pub mod runs;
pub mod usi;
