//! Lifecycle management for a single background UDP listener.
//!
//! A manager holds at most one listener. It is started on a port and stopped
//! through a one-shot cancellation signal; the listener's task polls that
//! signal and its socket in turn and forwards every datagram that is text.
//! Sockets, threads and the subscriber belong to the caller: this crate
//! decides, the caller acts.

pub mod address;
pub mod channel;
pub mod error;
pub mod file_stat;
pub mod manager;
pub mod message;
pub mod task;

pub use crate::error::ListenerError;
pub use crate::file_stat::FileStat;
pub use crate::manager::{start_udp_listener, stop_udp_listener, UdpListenerState};
pub use crate::message::UdpMessage;
