//! What can happen to the application.
use crate::app::model::{
    ProtocolMode, SettingsTabKind, SettingsTextKey, SettingsToggleKey, WindowDirection,
};
use crate::connection::keyboard::{Key, Modifiers};
use crate::connection::types::{ConnectionEvent, RemoteInput};
use vstd::prelude::*;

verus! {

/// Something that happened: an action of the user, an event of a connection, or a reply of the
/// window system.
#[derive(Debug, Clone)]
pub enum Message {
    TabSelected(usize),
    CloseTab(usize),
    NewSshTab,
    TerminalInput(Vec<u8>),
    ImePreedit(String),
    ImeCommit(String),
    FontLoaded,
    /// An event of the connection of the session with this id.
    ConnectionMessage(u64, ConnectionEvent),
    RemoteDisplayRedrawPulse,
    /// The rows and the columns that the terminal has room for.
    TerminalResize(usize, usize),
    /// A turn of the wheel over the terminal: true is back into the history.
    TerminalScroll(bool),
    TerminalScrollTo(usize),
    HostChanged(String),
    PortChanged(String),
    UserChanged(String),
    PassChanged(String),
    SerialPortChanged(String),
    SerialBaudChanged(String),
    RdpHostChanged(String),
    RdpPortChanged(String),
    RdpUserChanged(String),
    RdpPassChanged(String),
    RdpResolutionSelected(usize),
    VncHostChanged(String),
    VncPortChanged(String),
    VncPassChanged(String),
    SelectProtocol(ProtocolMode),
    SelectLocalShell(usize),
    ConnectSsh,
    ConnectTelnet,
    ConnectSerial,
    ConnectLocal,
    ConnectRdp,
    ConnectVnc,
    SelectionStart(usize, usize),
    SelectionUpdate(usize, usize),
    CopyCurrentSelection,
    CopyText(String),
    PasteFromClipboard,
    PasteData(Option<String>),
    ClearSelection,
    TryHandleKey(Key, Modifiers),
    /// An input for the remote desktop, in the coordinates of its picture.
    RemoteDisplayInput(RemoteInput),
    RemoteDisplayInputs(Vec<RemoteInput>),
    RemoteSecureAttention(bool),
    SyncRemoteKeyboardIndicators,
    ReleaseRemoteModifiers,
    /// The width and the height of the window in whole pixels.
    WindowSizeChanged(u32, u32),
    /// The tabulator, with or without the shift key.
    TabPressed(bool),
    FieldFocused(usize),
    WindowIdCaptured(u64),
    WindowDrag,
    WindowResize(WindowDirection),
    ResizeFinished,
    MinimizeWindow,
    MaximizeWindow,
    CloseWindow,
    ToggleMenu(&'static str),
    CloseMenuDeferred,
    CloseMenu,
    OpenProtocolTab(ProtocolMode),
    OpenSettingsTab(SettingsTabKind),
    SettingsCategorySelected(usize),
    ToggleSettingsCheckbox(SettingsToggleKey),
    SettingsTextChanged(SettingsTextKey, String),
}

} // verus!
