//! A terminal with SSH, Telnet, serial, local shell, RDP and VNC sessions: everything that it
//! decides and computes, apart from its windows, sockets and devices.
pub mod app;
pub mod connection;
pub mod remote_display;
pub mod terminal;
pub mod text;
pub mod text_laws;
pub mod ui;
