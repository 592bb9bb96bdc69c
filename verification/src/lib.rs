//! Decision core of a desktop shell that supervises one backend server
//! process and bridges one interactive terminal session.
//!
//! Every operation here is a function from plain values to plain values:
//! the caller performs the operating-system work (spawning, polling,
//! reading, writing) and hands the outcome back.

pub mod text;
pub mod token;
pub mod config;
pub mod terminator;
pub mod server;
pub mod pty;
pub mod installer;
pub mod deep_link;
pub mod tray;
