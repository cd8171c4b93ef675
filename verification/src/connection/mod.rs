//! What passes between the user interface and the protocol workers, and the rules of each
//! protocol.
pub mod keyboard;
pub mod laws;
pub mod link;
pub mod merge;
pub mod rdp;
pub mod remote_input_policy;
pub mod serial;
pub mod telnet;
pub mod types;
pub mod vnc;

pub use crate::connection::types::{
    ConnectionEvent, ConnectionInput, KeyboardIndicators, RemoteInput, RemoteMouseButton,
};
