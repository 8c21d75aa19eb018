//! Transports for particular buses.

pub mod canfd;

pub use canfd::{CanError, CanFdConfig, CanFdPins, CanFdTransport};
