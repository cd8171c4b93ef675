//! What the application asks of the world around it.
use crate::app::model::{texts, FieldId, WindowDirection};
use crate::connection::serial::{DataBits, Parity, StopBits};
use crate::connection::types::{ConnectionInput, Input};
use vstd::prelude::*;

verus! {

/// A connection to be opened.
#[derive(Debug)]
pub enum Dial {
    Ssh {
        host: String,
        port: u16,
        user: String,
        pass: String,
        keepalive: u64,
        terminal_type: String,
    },
    Telnet { host: String, port: u16 },
    Serial {
        port_name: String,
        baud: u32,
        data_bits: DataBits,
        stop_bits: StopBits,
        parity: Parity,
        hardware_flow: bool,
    },
    Local { program: String, args: Vec<String> },
    Rdp {
        host: String,
        port: u16,
        user: String,
        pass: String,
        width: u16,
        height: u16,
        enable_credssp: bool,
        enable_audio: bool,
        color_depth: u32,
        font_smoothing: bool,
        desktop_composition: bool,
    },
    Vnc {
        host: String,
        port: u16,
        pass: Option<String>,
        remote_cursor: bool,
        shared_session: bool,
        view_only: bool,
        timeout_secs: u64,
    },
}

/// A connection to be opened, as a mathematical value.
#[verifier::ext_equal]
pub enum Call {
    Ssh {
        host: Seq<char>,
        port: u16,
        user: Seq<char>,
        pass: Seq<char>,
        keepalive: u64,
        terminal_type: Seq<char>,
    },
    Telnet { host: Seq<char>, port: u16 },
    Serial {
        port_name: Seq<char>,
        baud: u32,
        data_bits: DataBits,
        stop_bits: StopBits,
        parity: Parity,
        hardware_flow: bool,
    },
    Local { program: Seq<char>, args: Seq<Seq<char>> },
    Rdp {
        host: Seq<char>,
        port: u16,
        user: Seq<char>,
        pass: Seq<char>,
        width: u16,
        height: u16,
        enable_credssp: bool,
        enable_audio: bool,
        color_depth: u32,
        font_smoothing: bool,
        desktop_composition: bool,
    },
    Vnc {
        host: Seq<char>,
        port: u16,
        pass: Option<Seq<char>>,
        remote_cursor: bool,
        shared_session: bool,
        view_only: bool,
        timeout_secs: u64,
    },
}

impl View for Dial {
    type V = Call;

    open spec fn view(&self) -> Call {
        match *self {
            Dial::Ssh { host, port, user, pass, keepalive, terminal_type } => Call::Ssh {
                host: host@,
                port,
                user: user@,
                pass: pass@,
                keepalive,
                terminal_type: terminal_type@,
            },
            Dial::Telnet { host, port } => Call::Telnet { host: host@, port },
            Dial::Serial { port_name, baud, data_bits, stop_bits, parity, hardware_flow } => {
                Call::Serial {
                    port_name: port_name@,
                    baud,
                    data_bits,
                    stop_bits,
                    parity,
                    hardware_flow,
                }
            },
            Dial::Local { program, args } => Call::Local { program: program@, args: texts(args@) },
            Dial::Rdp {
                host,
                port,
                user,
                pass,
                width,
                height,
                enable_credssp,
                enable_audio,
                color_depth,
                font_smoothing,
                desktop_composition,
            } => Call::Rdp {
                host: host@,
                port,
                user: user@,
                pass: pass@,
                width,
                height,
                enable_credssp,
                enable_audio,
                color_depth,
                font_smoothing,
                desktop_composition,
            },
            Dial::Vnc {
                host,
                port,
                pass,
                remote_cursor,
                shared_session,
                view_only,
                timeout_secs,
            } => Call::Vnc {
                host: host@,
                port,
                pass: match pass {
                    Some(p) => Some(p@),
                    None => None,
                },
                remote_cursor,
                shared_session,
                view_only,
                timeout_secs,
            },
        }
    }
}

/// Something to be done outside.
#[derive(Debug)]
pub enum Effect {
    /// Hand an input to the connection that takes inputs on this channel.
    Send { channel: u64, input: ConnectionInput },
    /// Hand the present state of the lock keys to the connection on this channel.
    SendIndicators { channel: u64 },
    /// Close a channel; its connection then ends.
    Hang { channel: u64 },
    /// Open a connection for the session with this id.
    Connect { session_id: u64, dial: Dial },
    /// Forget the clipboard of the session with this id.
    RemoveClipboard { session_id: u64 },
    /// Draw again after a moment.
    RedrawPulse,
    /// Put the keyboard's attention to a field.
    Focus(FieldId),
    /// Copy a text, as the message of that name does.
    ThenCopy(String),
    /// Type a byte, as the message for terminal input does.
    ThenType(u8),
    /// Paste, as the message of that name does.
    ThenPaste,
    /// Forget the selection, as the message of that name does.
    ThenClearSelection,
    /// Close the menu, as the message of that name does.
    ThenCloseMenu,
    /// Put a text on the clipboard.
    WriteClipboard(String),
    /// Read the clipboard; what it holds comes as a message.
    ReadClipboard,
    DragWindow(u64),
    DragResizeWindow(u64, WindowDirection),
    MinimizeWindow(u64),
    ToggleMaximizeWindow(u64),
    CloseWindow(u64),
    /// Store the settings.
    SaveSettings,
    /// The terminal was asked for something that it cannot carry out.
    Fault,
}

/// Something to be done outside, as a mathematical value.
#[verifier::ext_equal]
pub enum Fx {
    Send { channel: u64, input: Input },
    SendIndicators { channel: u64 },
    Hang { channel: u64 },
    Connect { session_id: u64, call: Call },
    RemoveClipboard { session_id: u64 },
    RedrawPulse,
    Focus(FieldId),
    ThenCopy(Seq<char>),
    ThenType(u8),
    ThenPaste,
    ThenClearSelection,
    ThenCloseMenu,
    WriteClipboard(Seq<char>),
    ReadClipboard,
    DragWindow(u64),
    DragResizeWindow(u64, WindowDirection),
    MinimizeWindow(u64),
    ToggleMaximizeWindow(u64),
    CloseWindow(u64),
    SaveSettings,
    Fault,
}

impl View for Effect {
    type V = Fx;

    open spec fn view(&self) -> Fx {
        match *self {
            Effect::Send { channel, input } => Fx::Send { channel, input: input@ },
            Effect::SendIndicators { channel } => Fx::SendIndicators { channel },
            Effect::Hang { channel } => Fx::Hang { channel },
            Effect::Connect { session_id, dial } => Fx::Connect { session_id, call: dial@ },
            Effect::RemoveClipboard { session_id } => Fx::RemoveClipboard { session_id },
            Effect::RedrawPulse => Fx::RedrawPulse,
            Effect::Focus(field) => Fx::Focus(field),
            Effect::ThenCopy(text) => Fx::ThenCopy(text@),
            Effect::ThenType(byte) => Fx::ThenType(byte),
            Effect::ThenPaste => Fx::ThenPaste,
            Effect::ThenClearSelection => Fx::ThenClearSelection,
            Effect::ThenCloseMenu => Fx::ThenCloseMenu,
            Effect::WriteClipboard(text) => Fx::WriteClipboard(text@),
            Effect::ReadClipboard => Fx::ReadClipboard,
            Effect::DragWindow(id) => Fx::DragWindow(id),
            Effect::DragResizeWindow(id, direction) => Fx::DragResizeWindow(id, direction),
            Effect::MinimizeWindow(id) => Fx::MinimizeWindow(id),
            Effect::ToggleMaximizeWindow(id) => Fx::ToggleMaximizeWindow(id),
            Effect::CloseWindow(id) => Fx::CloseWindow(id),
            Effect::SaveSettings => Fx::SaveSettings,
            Effect::Fault => Fx::Fault,
        }
    }
}

/// Effects as mathematical values.
pub open spec fn fxs(effects: Seq<Effect>) -> Seq<Fx> {
    Seq::new(effects.len(), |i: int| effects[i]@)
}

/// A list of one effect.
pub fn one(effect: Effect) -> (effects: Vec<Effect>)
    ensures
        fxs(effects@) == seq![effect@],
{
    let ghost added = effect@;
    let mut effects: Vec<Effect> = Vec::new();
    effects.push(effect);
    assert(fxs(effects@) =~= seq![added]);
    effects
}

/// No effects.
pub fn nothing() -> (effects: Vec<Effect>)
    ensures
        fxs(effects@) == Seq::<Fx>::empty(),
{
    let effects: Vec<Effect> = Vec::new();
    assert(fxs(effects@) =~= Seq::<Fx>::empty());
    effects
}

/// Appends an effect to a list.
pub fn push_effect(effects: &mut Vec<Effect>, effect: Effect)
    ensures
        fxs(final(effects)@) == fxs(old(effects)@).push(effect@),
{
    let ghost before = fxs(effects@);
    let ghost added = effect@;
    effects.push(effect);
    assert(fxs(effects@) =~= before.push(added));
}

} // verus!
