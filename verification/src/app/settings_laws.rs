//! What the settings are at the start, and how they are stored and read.
use crate::app::model::{SettingsTextKey, SettingsToggleKey};
use crate::app::settings_names::{
    names_tell_settings_apart, text_name, text_of, toggle_keys, toggle_name, toggle_of,
};
use crate::app::settings_persistence::{
    read, stored_flags, stored_texts, Entry, Reading, Settings, SettingsData, SettingsError, Value,
};
use vstd::prelude::*;

verus! {

/// At the start everything is on, but for what would change how a session behaves unasked: reconnecting,
/// forwarding of the agent, flow control, viewing only and the compact style.
pub proof fn settings_start_with_their_defaults(key: SettingsToggleKey)
    ensures
        Settings::standard().flag(key) == !(key == SettingsToggleKey::AutoReconnect || key
            == SettingsToggleKey::UseAgentForwarding || key
            == SettingsToggleKey::HardwareFlowControl || key == SettingsToggleKey::VncViewOnly
            || key == SettingsToggleKey::CompactTabStyle),
        Settings::standard().text(SettingsTextKey::CommonTimeout) == seq!['3', '0'],
        Settings::standard().text(SettingsTextKey::SshKeepAliveInterval) == seq!['0'],
        Settings::standard().text(SettingsTextKey::SerialDataBits) == seq!['8'],
        Settings::standard().text(SettingsTextKey::SerialStopBits) == seq!['1'],
        Settings::standard().text(SettingsTextKey::SerialParity) == seq!['N', 'o', 'n', 'e'],
        Settings::standard().text(SettingsTextKey::TelnetLineEnding) == seq!['C', 'R', 'L', 'F'],
        Settings::standard().text(SettingsTextKey::RdpColorDepth) == seq!['3', '2'],
        Settings::standard().text(SettingsTextKey::VncTimeout) == seq!['1', '0'],
        Settings::standard().text(SettingsTextKey::LocalDefaultShell).len() == 0,
        Settings::standard().text(SettingsTextKey::LocalStartupArgs).len() == 0,
{
    reveal_strlit("30");
    reveal_strlit("0");
    reveal_strlit("8");
    reveal_strlit("1");
    reveal_strlit("None");
    reveal_strlit("CRLF");
    reveal_strlit("32");
    reveal_strlit("10");
    reveal_strlit("");
    assert("30"@ =~= seq!['3', '0']);
    assert("0"@ =~= seq!['0']);
    assert("8"@ =~= seq!['8']);
    assert("1"@ =~= seq!['1']);
    assert("None"@ =~= seq!['N', 'o', 'n', 'e']);
    assert("CRLF"@ =~= seq!['C', 'R', 'L', 'F']);
    assert("32"@ =~= seq!['3', '2']);
    assert("10"@ =~= seq!['1', '0']);
}

/// Each setting has the field of its name.
pub proof fn settings_have_their_fields(data: SettingsData)
    ensures
        data.flag_of(SettingsToggleKey::AutoReconnect) == data.auto_reconnect,
        data.flag_of(SettingsToggleKey::UseAgentForwarding) == data.ssh_use_agent_forwarding,
        data.flag_of(SettingsToggleKey::EchoLocally) == data.telnet_echo_locally,
        data.flag_of(SettingsToggleKey::HardwareFlowControl) == data.serial_hardware_flow_control,
        data.flag_of(SettingsToggleKey::LaunchInLoginMode) == data.local_launch_in_login_mode,
        data.flag_of(SettingsToggleKey::RdpNla) == data.rdp_nla,
        data.flag_of(SettingsToggleKey::RdpEnableAudio) == data.rdp_enable_audio,
        data.flag_of(SettingsToggleKey::RdpFontSmoothing) == data.rdp_font_smoothing,
        data.flag_of(SettingsToggleKey::RdpDesktopComposition) == data.rdp_desktop_composition,
        data.flag_of(SettingsToggleKey::VncRemoteCursor) == data.vnc_remote_cursor,
        data.flag_of(SettingsToggleKey::VncSharedSession) == data.vnc_shared_session,
        data.flag_of(SettingsToggleKey::VncViewOnly) == data.vnc_view_only,
        data.flag_of(SettingsToggleKey::CompactTabStyle) == data.theme_compact_tab_style,
        data.text_held(SettingsTextKey::CommonTimeout) == data.common_timeout@,
        data.text_held(SettingsTextKey::SshKeepAliveInterval) == data.ssh_keepalive@,
        data.text_held(SettingsTextKey::SshTerminalType) == data.ssh_terminal_type@,
        data.text_held(SettingsTextKey::TelnetLineEnding) == data.telnet_line_ending@,
        data.text_held(SettingsTextKey::SerialDataBits) == data.serial_data_bits@,
        data.text_held(SettingsTextKey::SerialStopBits) == data.serial_stop_bits@,
        data.text_held(SettingsTextKey::SerialParity) == data.serial_parity@,
        data.text_held(SettingsTextKey::LocalDefaultShell) == data.local_default_shell@,
        data.text_held(SettingsTextKey::LocalStartupArgs) == data.local_startup_args@,
        data.text_held(SettingsTextKey::RdpColorDepth) == data.rdp_color_depth@,
        data.text_held(SettingsTextKey::VncTimeout) == data.vnc_timeout@,
{
}

/// An entry with the name of a setting and a value of its type sets it and nothing else. A value of
/// another type, or a second entry of the name, cannot be used; a name that means nothing is passed
/// over.
#[verifier::rlimit(40)]
pub proof fn entries_are_read(
    r: Reading,
    key: SettingsToggleKey,
    on: bool,
    text_key: SettingsTextKey,
    text: Seq<char>,
    entry: Entry,
)
    ensures
        ({
            let flag = Entry { name: toggle_name(key), value: Value::Flag(on) };
            let wrong = Entry { name: toggle_name(key), value: Value::Text(text) };
            let after = r.with_entry(flag);
            &&& !r.flags.contains(key) ==> after is Ok && after->Ok_0.settings.flag(key) == on
                && after->Ok_0.flags.contains(key)
            &&& !r.flags.contains(key) ==> r.with_entry(wrong) == Err::<Reading, SettingsError>(
                SettingsError::WrongType,
            )
            &&& r.flags.contains(key) ==> after == Err::<Reading, SettingsError>(
                SettingsError::Duplicate,
            )
        }),
        ({
            let words = Entry { name: text_name(text_key), value: Value::Text(text) };
            let wrong = Entry { name: text_name(text_key), value: Value::Flag(on) };
            let after = r.with_entry(words);
            &&& !r.texts.contains(text_key) ==> after is Ok && after->Ok_0.settings.text(text_key)
                == text && after->Ok_0.texts.contains(text_key)
            &&& !r.texts.contains(text_key) ==> r.with_entry(wrong) == Err::<
                Reading,
                SettingsError,
            >(SettingsError::WrongType)
            &&& r.texts.contains(text_key) ==> after == Err::<Reading, SettingsError>(
                SettingsError::Duplicate,
            )
        }),
        toggle_of(entry.name) is None && text_of(entry.name) is None ==> r.with_entry(entry) == Ok::<
            Reading,
            SettingsError,
        >(r),
{
    names_tell_settings_apart(key, text_key);
    assert(r.flags.push(key)[r.flags.len() as int] == key);
    assert(r.texts.push(text_key)[r.texts.len() as int] == text_key);
}

/// Entries are read in their order, and the first that cannot be used ends it.
pub proof fn entries_are_read_in_order(entries: Seq<Entry>, entry: Entry)
    ensures
        read(Seq::empty()) is Ok && read(Seq::empty())->Ok_0.settings == Settings::standard(),
        read(entries) matches Ok(r) ==> read(entries.push(entry)) == r.with_entry(entry),
        read(entries) matches Err(e) ==> read(entries.push(entry)) == Err::<Reading, SettingsError>(
            e,
        ),
{
    assert(entries.push(entry).drop_last() =~= entries);
}

/// A setting is stored under its name where it differs from its default, and only there.
pub proof fn changed_settings_are_stored(
    s: Settings,
    keys: Seq<SettingsToggleKey>,
    key: SettingsToggleKey,
    text_keys: Seq<SettingsTextKey>,
    text_key: SettingsTextKey,
)
    ensures
        ({
            let more = stored_flags(s, keys.push(key));
            let entry = Entry { name: toggle_name(key), value: Value::Flag(s.flag(key)) };
            &&& s.flag(key) != Settings::standard().flag(key) ==> more == stored_flags(
                s,
                keys,
            ).push(entry)
            &&& s.flag(key) == Settings::standard().flag(key) ==> more == stored_flags(s, keys)
        }),
        ({
            let more = stored_texts(s, text_keys.push(text_key));
            let entry = Entry { name: text_name(text_key), value: Value::Text(s.text(text_key)) };
            &&& s.text(text_key) != Settings::standard().text(text_key) ==> more == stored_texts(
                s,
                text_keys,
            ).push(entry)
            &&& s.text(text_key) == Settings::standard().text(text_key) ==> more == stored_texts(
                s,
                text_keys,
            )
        }),
        toggle_keys().len() == 13,
{
    assert(keys.push(key).drop_last() =~= keys);
    assert(text_keys.push(text_key).drop_last() =~= text_keys);
}

} // verus!
