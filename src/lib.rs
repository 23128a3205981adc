//! A serial-port layer over the POSIX terminal interface: a semantic settings
//! model encoded into terminal attribute flags, and the decisions of a device
//! handle (exclusive access, timeouts, modem control lines, teardown).

pub mod flags;
pub mod types;
pub mod settings;
pub mod proofs;
pub mod port;
pub mod lifecycle;
