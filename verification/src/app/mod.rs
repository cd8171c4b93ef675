//! The application: its sessions and settings, and what becomes of each message.
pub mod connect;
pub mod effect;
pub mod laws;
pub mod listen_laws;
pub mod local_shell;
pub mod logging;
pub mod message;
pub mod message_laws;
pub mod model;
pub mod session;
pub mod session_laws;
pub mod settings_laws;
pub mod settings_names;
pub mod settings_persistence;
pub mod state;
pub mod subscription;
pub mod update;

pub use crate::app::message::Message;
pub use crate::app::model::{
    FieldId, LocalShellOption, ProtocolMode, RemoteDisplayProtocol, Session, SessionKind,
    SettingsTabKind, SettingsTextKey, SettingsToggleKey, WindowDirection,
};
pub use crate::app::state::State;
