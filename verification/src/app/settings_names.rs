//! The names under which settings are stored.
use crate::app::model::{SettingsTextKey, SettingsToggleKey};
use crate::text::same_text;
use vstd::prelude::*;

verus! {

/// The settings that are on or off, in the order in which they are stored.
pub open spec fn toggle_keys() -> Seq<SettingsToggleKey> {
    seq![
        SettingsToggleKey::AutoReconnect,
        SettingsToggleKey::UseAgentForwarding,
        SettingsToggleKey::EchoLocally,
        SettingsToggleKey::HardwareFlowControl,
        SettingsToggleKey::LaunchInLoginMode,
        SettingsToggleKey::RdpNla,
        SettingsToggleKey::RdpEnableAudio,
        SettingsToggleKey::RdpFontSmoothing,
        SettingsToggleKey::RdpDesktopComposition,
        SettingsToggleKey::VncRemoteCursor,
        SettingsToggleKey::VncSharedSession,
        SettingsToggleKey::VncViewOnly,
        SettingsToggleKey::CompactTabStyle,
    ]
}

/// The settings that are texts, in the order in which they are stored.
pub open spec fn text_keys() -> Seq<SettingsTextKey> {
    seq![
        SettingsTextKey::CommonTimeout,
        SettingsTextKey::SshKeepAliveInterval,
        SettingsTextKey::SshTerminalType,
        SettingsTextKey::TelnetLineEnding,
        SettingsTextKey::SerialDataBits,
        SettingsTextKey::SerialStopBits,
        SettingsTextKey::SerialParity,
        SettingsTextKey::LocalDefaultShell,
        SettingsTextKey::LocalStartupArgs,
        SettingsTextKey::RdpColorDepth,
        SettingsTextKey::VncTimeout,
    ]
}

/// The name under which a setting is stored.
pub open spec fn toggle_name(key: SettingsToggleKey) -> Seq<char> {
    match key {
        SettingsToggleKey::AutoReconnect => "auto_reconnect"@,
        SettingsToggleKey::UseAgentForwarding => "ssh_use_agent_forwarding"@,
        SettingsToggleKey::EchoLocally => "telnet_echo_locally"@,
        SettingsToggleKey::HardwareFlowControl => "serial_hardware_flow_control"@,
        SettingsToggleKey::LaunchInLoginMode => "local_launch_in_login_mode"@,
        SettingsToggleKey::RdpNla => "rdp_nla"@,
        SettingsToggleKey::RdpEnableAudio => "rdp_enable_audio"@,
        SettingsToggleKey::RdpFontSmoothing => "rdp_font_smoothing"@,
        SettingsToggleKey::RdpDesktopComposition => "rdp_desktop_composition"@,
        SettingsToggleKey::VncRemoteCursor => "vnc_remote_cursor"@,
        SettingsToggleKey::VncSharedSession => "vnc_shared_session"@,
        SettingsToggleKey::VncViewOnly => "vnc_view_only"@,
        SettingsToggleKey::CompactTabStyle => "theme_compact_tab_style"@,
    }
}

/// The name under which a setting is stored.
pub open spec fn text_name(key: SettingsTextKey) -> Seq<char> {
    match key {
        SettingsTextKey::CommonTimeout => "common_timeout"@,
        SettingsTextKey::SshKeepAliveInterval => "ssh_keepalive"@,
        SettingsTextKey::SshTerminalType => "ssh_terminal_type"@,
        SettingsTextKey::TelnetLineEnding => "telnet_line_ending"@,
        SettingsTextKey::SerialDataBits => "serial_data_bits"@,
        SettingsTextKey::SerialStopBits => "serial_stop_bits"@,
        SettingsTextKey::SerialParity => "serial_parity"@,
        SettingsTextKey::LocalDefaultShell => "local_default_shell"@,
        SettingsTextKey::LocalStartupArgs => "local_startup_args"@,
        SettingsTextKey::RdpColorDepth => "rdp_color_depth"@,
        SettingsTextKey::VncTimeout => "vnc_timeout"@,
    }
}

/// The key of a setting that is on or off, by its name.
pub fn toggle_named(name: &str) -> (key: Option<SettingsToggleKey>)
    ensures
        key == toggle_of(name@),
{
    if same_text(name, "auto_reconnect") {
        Some(SettingsToggleKey::AutoReconnect)
    } else if same_text(name, "ssh_use_agent_forwarding") {
        Some(SettingsToggleKey::UseAgentForwarding)
    } else if same_text(name, "telnet_echo_locally") {
        Some(SettingsToggleKey::EchoLocally)
    } else if same_text(name, "serial_hardware_flow_control") {
        Some(SettingsToggleKey::HardwareFlowControl)
    } else if same_text(name, "local_launch_in_login_mode") {
        Some(SettingsToggleKey::LaunchInLoginMode)
    } else if same_text(name, "rdp_nla") {
        Some(SettingsToggleKey::RdpNla)
    } else if same_text(name, "rdp_enable_audio") {
        Some(SettingsToggleKey::RdpEnableAudio)
    } else if same_text(name, "rdp_font_smoothing") {
        Some(SettingsToggleKey::RdpFontSmoothing)
    } else if same_text(name, "rdp_desktop_composition") {
        Some(SettingsToggleKey::RdpDesktopComposition)
    } else if same_text(name, "vnc_remote_cursor") {
        Some(SettingsToggleKey::VncRemoteCursor)
    } else if same_text(name, "vnc_shared_session") {
        Some(SettingsToggleKey::VncSharedSession)
    } else if same_text(name, "vnc_view_only") {
        Some(SettingsToggleKey::VncViewOnly)
    } else if same_text(name, "theme_compact_tab_style") {
        Some(SettingsToggleKey::CompactTabStyle)
    } else {
        None
    }
}

/// The key of a setting that is a text, by its name.
pub fn text_named(name: &str) -> (key: Option<SettingsTextKey>)
    ensures
        key == text_of(name@),
{
    if same_text(name, "common_timeout") {
        Some(SettingsTextKey::CommonTimeout)
    } else if same_text(name, "ssh_keepalive") {
        Some(SettingsTextKey::SshKeepAliveInterval)
    } else if same_text(name, "ssh_terminal_type") {
        Some(SettingsTextKey::SshTerminalType)
    } else if same_text(name, "telnet_line_ending") {
        Some(SettingsTextKey::TelnetLineEnding)
    } else if same_text(name, "serial_data_bits") {
        Some(SettingsTextKey::SerialDataBits)
    } else if same_text(name, "serial_stop_bits") {
        Some(SettingsTextKey::SerialStopBits)
    } else if same_text(name, "serial_parity") {
        Some(SettingsTextKey::SerialParity)
    } else if same_text(name, "local_default_shell") {
        Some(SettingsTextKey::LocalDefaultShell)
    } else if same_text(name, "local_startup_args") {
        Some(SettingsTextKey::LocalStartupArgs)
    } else if same_text(name, "rdp_color_depth") {
        Some(SettingsTextKey::RdpColorDepth)
    } else if same_text(name, "vnc_timeout") {
        Some(SettingsTextKey::VncTimeout)
    } else {
        None
    }
}

/// The key of a setting that is on or off, by its name.
pub open spec fn toggle_of(name: Seq<char>) -> Option<SettingsToggleKey> {
    if name == "auto_reconnect"@ {
        Some(SettingsToggleKey::AutoReconnect)
    } else if name == "ssh_use_agent_forwarding"@ {
        Some(SettingsToggleKey::UseAgentForwarding)
    } else if name == "telnet_echo_locally"@ {
        Some(SettingsToggleKey::EchoLocally)
    } else if name == "serial_hardware_flow_control"@ {
        Some(SettingsToggleKey::HardwareFlowControl)
    } else if name == "local_launch_in_login_mode"@ {
        Some(SettingsToggleKey::LaunchInLoginMode)
    } else if name == "rdp_nla"@ {
        Some(SettingsToggleKey::RdpNla)
    } else if name == "rdp_enable_audio"@ {
        Some(SettingsToggleKey::RdpEnableAudio)
    } else if name == "rdp_font_smoothing"@ {
        Some(SettingsToggleKey::RdpFontSmoothing)
    } else if name == "rdp_desktop_composition"@ {
        Some(SettingsToggleKey::RdpDesktopComposition)
    } else if name == "vnc_remote_cursor"@ {
        Some(SettingsToggleKey::VncRemoteCursor)
    } else if name == "vnc_shared_session"@ {
        Some(SettingsToggleKey::VncSharedSession)
    } else if name == "vnc_view_only"@ {
        Some(SettingsToggleKey::VncViewOnly)
    } else if name == "theme_compact_tab_style"@ {
        Some(SettingsToggleKey::CompactTabStyle)
    } else {
        None
    }
}

/// The key of a setting that is a text, by its name.
pub open spec fn text_of(name: Seq<char>) -> Option<SettingsTextKey> {
    if name == "common_timeout"@ {
        Some(SettingsTextKey::CommonTimeout)
    } else if name == "ssh_keepalive"@ {
        Some(SettingsTextKey::SshKeepAliveInterval)
    } else if name == "ssh_terminal_type"@ {
        Some(SettingsTextKey::SshTerminalType)
    } else if name == "telnet_line_ending"@ {
        Some(SettingsTextKey::TelnetLineEnding)
    } else if name == "serial_data_bits"@ {
        Some(SettingsTextKey::SerialDataBits)
    } else if name == "serial_stop_bits"@ {
        Some(SettingsTextKey::SerialStopBits)
    } else if name == "serial_parity"@ {
        Some(SettingsTextKey::SerialParity)
    } else if name == "local_default_shell"@ {
        Some(SettingsTextKey::LocalDefaultShell)
    } else if name == "local_startup_args"@ {
        Some(SettingsTextKey::LocalStartupArgs)
    } else if name == "rdp_color_depth"@ {
        Some(SettingsTextKey::RdpColorDepth)
    } else if name == "vnc_timeout"@ {
        Some(SettingsTextKey::VncTimeout)
    } else {
        None
    }
}

/// The name under which a setting is stored.
pub fn name_of_toggle(key: SettingsToggleKey) -> (name: &'static str)
    ensures
        name@ == toggle_name(key),
{
    match key {
        SettingsToggleKey::AutoReconnect => "auto_reconnect",
        SettingsToggleKey::UseAgentForwarding => "ssh_use_agent_forwarding",
        SettingsToggleKey::EchoLocally => "telnet_echo_locally",
        SettingsToggleKey::HardwareFlowControl => "serial_hardware_flow_control",
        SettingsToggleKey::LaunchInLoginMode => "local_launch_in_login_mode",
        SettingsToggleKey::RdpNla => "rdp_nla",
        SettingsToggleKey::RdpEnableAudio => "rdp_enable_audio",
        SettingsToggleKey::RdpFontSmoothing => "rdp_font_smoothing",
        SettingsToggleKey::RdpDesktopComposition => "rdp_desktop_composition",
        SettingsToggleKey::VncRemoteCursor => "vnc_remote_cursor",
        SettingsToggleKey::VncSharedSession => "vnc_shared_session",
        SettingsToggleKey::VncViewOnly => "vnc_view_only",
        SettingsToggleKey::CompactTabStyle => "theme_compact_tab_style",
    }
}

/// The name under which a setting is stored.
pub fn name_of_text(key: SettingsTextKey) -> (name: &'static str)
    ensures
        name@ == text_name(key),
{
    match key {
        SettingsTextKey::CommonTimeout => "common_timeout",
        SettingsTextKey::SshKeepAliveInterval => "ssh_keepalive",
        SettingsTextKey::SshTerminalType => "ssh_terminal_type",
        SettingsTextKey::TelnetLineEnding => "telnet_line_ending",
        SettingsTextKey::SerialDataBits => "serial_data_bits",
        SettingsTextKey::SerialStopBits => "serial_stop_bits",
        SettingsTextKey::SerialParity => "serial_parity",
        SettingsTextKey::LocalDefaultShell => "local_default_shell",
        SettingsTextKey::LocalStartupArgs => "local_startup_args",
        SettingsTextKey::RdpColorDepth => "rdp_color_depth",
        SettingsTextKey::VncTimeout => "vnc_timeout",
    }
}

/// The settings that are on or off, in the order in which they are stored.
pub fn all_toggles() -> (keys: [SettingsToggleKey; 13])
    ensures
        keys@ == toggle_keys(),
{
    let keys = [
        SettingsToggleKey::AutoReconnect,
        SettingsToggleKey::UseAgentForwarding,
        SettingsToggleKey::EchoLocally,
        SettingsToggleKey::HardwareFlowControl,
        SettingsToggleKey::LaunchInLoginMode,
        SettingsToggleKey::RdpNla,
        SettingsToggleKey::RdpEnableAudio,
        SettingsToggleKey::RdpFontSmoothing,
        SettingsToggleKey::RdpDesktopComposition,
        SettingsToggleKey::VncRemoteCursor,
        SettingsToggleKey::VncSharedSession,
        SettingsToggleKey::VncViewOnly,
        SettingsToggleKey::CompactTabStyle,
    ];
    assert(keys@ =~= toggle_keys());
    keys
}

/// The settings that are texts, in the order in which they are stored.
pub fn all_texts() -> (keys: [SettingsTextKey; 11])
    ensures
        keys@ == text_keys(),
{
    let keys = [
        SettingsTextKey::CommonTimeout,
        SettingsTextKey::SshKeepAliveInterval,
        SettingsTextKey::SshTerminalType,
        SettingsTextKey::TelnetLineEnding,
        SettingsTextKey::SerialDataBits,
        SettingsTextKey::SerialStopBits,
        SettingsTextKey::SerialParity,
        SettingsTextKey::LocalDefaultShell,
        SettingsTextKey::LocalStartupArgs,
        SettingsTextKey::RdpColorDepth,
        SettingsTextKey::VncTimeout,
    ];
    assert(keys@ =~= text_keys());
    keys
}

/// Each setting is found by its name, and by no other's.
pub proof fn names_tell_settings_apart(toggle: SettingsToggleKey, text: SettingsTextKey)
    ensures
        toggle_of(toggle_name(toggle)) == Some(toggle),
        text_of(toggle_name(toggle)) is None,
        text_of(text_name(text)) == Some(text),
        toggle_of(text_name(text)) is None,
{
    reveal_strlit("auto_reconnect");
    reveal_strlit("ssh_use_agent_forwarding");
    reveal_strlit("telnet_echo_locally");
    reveal_strlit("serial_hardware_flow_control");
    reveal_strlit("local_launch_in_login_mode");
    reveal_strlit("rdp_nla");
    reveal_strlit("rdp_enable_audio");
    reveal_strlit("rdp_font_smoothing");
    reveal_strlit("rdp_desktop_composition");
    reveal_strlit("vnc_remote_cursor");
    reveal_strlit("vnc_shared_session");
    reveal_strlit("vnc_view_only");
    reveal_strlit("theme_compact_tab_style");
    reveal_strlit("common_timeout");
    reveal_strlit("ssh_keepalive");
    reveal_strlit("ssh_terminal_type");
    reveal_strlit("telnet_line_ending");
    reveal_strlit("serial_data_bits");
    reveal_strlit("serial_stop_bits");
    reveal_strlit("serial_parity");
    reveal_strlit("local_default_shell");
    reveal_strlit("local_startup_args");
    reveal_strlit("rdp_color_depth");
    reveal_strlit("vnc_timeout");
    assert("auto_reconnect"@.len() == 14);
    assert("ssh_use_agent_forwarding"@.len() == 24);
    assert("telnet_echo_locally"@.len() == 19);
    assert("serial_hardware_flow_control"@.len() == 28);
    assert("local_launch_in_login_mode"@.len() == 26);
    assert("rdp_nla"@.len() == 7);
    assert("rdp_enable_audio"@.len() == 16);
    assert("rdp_font_smoothing"@.len() == 18);
    assert("rdp_desktop_composition"@.len() == 23);
    assert("vnc_remote_cursor"@.len() == 17);
    assert("vnc_shared_session"@.len() == 18);
    assert("vnc_view_only"@.len() == 13);
    assert("theme_compact_tab_style"@.len() == 23);
    assert("common_timeout"@.len() == 14);
    assert("ssh_keepalive"@.len() == 13);
    assert("ssh_terminal_type"@.len() == 17);
    assert("telnet_line_ending"@.len() == 18);
    assert("serial_data_bits"@.len() == 16);
    assert("serial_stop_bits"@.len() == 16);
    assert("serial_parity"@.len() == 13);
    assert("local_default_shell"@.len() == 19);
    assert("local_startup_args"@.len() == 18);
    assert("rdp_color_depth"@.len() == 15);
    assert("vnc_timeout"@.len() == 11);
    assert("auto_reconnect"@[0] != "common_timeout"@[0]);
    assert("telnet_echo_locally"@[0] != "local_default_shell"@[0]);
    assert("rdp_enable_audio"@[0] != "serial_data_bits"@[0]);
    assert("rdp_enable_audio"@[0] != "serial_stop_bits"@[0]);
    assert("rdp_font_smoothing"@[0] != "vnc_shared_session"@[0]);
    assert("rdp_font_smoothing"@[0] != "telnet_line_ending"@[0]);
    assert("rdp_font_smoothing"@[0] != "local_startup_args"@[0]);
    assert("rdp_desktop_composition"@[0] != "theme_compact_tab_style"@[0]);
    assert("vnc_remote_cursor"@[0] != "ssh_terminal_type"@[0]);
    assert("vnc_shared_session"@[0] != "telnet_line_ending"@[0]);
    assert("vnc_shared_session"@[0] != "local_startup_args"@[0]);
    assert("vnc_view_only"@[0] != "ssh_keepalive"@[0]);
    assert("vnc_view_only"@[0] != "serial_parity"@[0]);
    assert("ssh_keepalive"@[1] != "serial_parity"@[1]);
    assert("telnet_line_ending"@[0] != "local_startup_args"@[0]);
    assert("serial_data_bits"@[7] != "serial_stop_bits"@[7]);
    assert(toggle_of("auto_reconnect"@) == Some(SettingsToggleKey::AutoReconnect));
    assert(toggle_of("ssh_use_agent_forwarding"@) == Some(SettingsToggleKey::UseAgentForwarding));
    assert(toggle_of("telnet_echo_locally"@) == Some(SettingsToggleKey::EchoLocally));
    assert(toggle_of("serial_hardware_flow_control"@) == Some(SettingsToggleKey::HardwareFlowControl));
    assert(toggle_of("local_launch_in_login_mode"@) == Some(SettingsToggleKey::LaunchInLoginMode));
    assert(toggle_of("rdp_nla"@) == Some(SettingsToggleKey::RdpNla));
    assert(toggle_of("rdp_enable_audio"@) == Some(SettingsToggleKey::RdpEnableAudio));
    assert(toggle_of("rdp_font_smoothing"@) == Some(SettingsToggleKey::RdpFontSmoothing));
    assert(toggle_of("rdp_desktop_composition"@) == Some(SettingsToggleKey::RdpDesktopComposition));
    assert(toggle_of("vnc_remote_cursor"@) == Some(SettingsToggleKey::VncRemoteCursor));
    assert(toggle_of("vnc_shared_session"@) == Some(SettingsToggleKey::VncSharedSession));
    assert(toggle_of("vnc_view_only"@) == Some(SettingsToggleKey::VncViewOnly));
    assert(toggle_of("theme_compact_tab_style"@) == Some(SettingsToggleKey::CompactTabStyle));
    assert(text_of("common_timeout"@) == Some(SettingsTextKey::CommonTimeout));
    assert(text_of("ssh_keepalive"@) == Some(SettingsTextKey::SshKeepAliveInterval));
    assert(text_of("ssh_terminal_type"@) == Some(SettingsTextKey::SshTerminalType));
    assert(text_of("telnet_line_ending"@) == Some(SettingsTextKey::TelnetLineEnding));
    assert(text_of("serial_data_bits"@) == Some(SettingsTextKey::SerialDataBits));
    assert(text_of("serial_stop_bits"@) == Some(SettingsTextKey::SerialStopBits));
    assert(text_of("serial_parity"@) == Some(SettingsTextKey::SerialParity));
    assert(text_of("local_default_shell"@) == Some(SettingsTextKey::LocalDefaultShell));
    assert(text_of("local_startup_args"@) == Some(SettingsTextKey::LocalStartupArgs));
    assert(text_of("rdp_color_depth"@) == Some(SettingsTextKey::RdpColorDepth));
    assert(text_of("vnc_timeout"@) == Some(SettingsTextKey::VncTimeout));
}

} // verus!
