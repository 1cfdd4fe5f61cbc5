//! A two-party lock-step exchange over a local stream socket, as pure decision
//! logic: the controller and worker protocol engines are state machines that
//! say what to do next and what to log, and the caller performs the I/O.

pub mod common;
pub mod text;
pub mod logging;
pub mod protocol;
pub mod message;
pub mod controller;
pub mod worker;
pub mod pairing;
pub mod ipc;
pub mod exchange;
