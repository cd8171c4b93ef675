//! The lines of the trace of a session: one for each message of the server.
use crate::connection::rdp::decode::{
    channel_data, channel_message, io_channel_message, io_view, send_data_indication, About,
    IoDetail, IoMessage, IoPdu,
};
use crate::text::{decimal, hex, hex_head, push_decimal};
use vstd::prelude::*;

verus! {

/// At most the first `n` of some bytes.
pub open spec fn head(bytes: Seq<u8>, n: int) -> Seq<u8> {
    bytes.take(
        if n < bytes.len() {
            n
        } else {
            bytes.len() as int
        },
    )
}

/// The words about what a message of the main channel with the given name says.
pub open spec fn detail_words(name: Seq<char>, about: About) -> Seq<char> {
    match about {
        About::KeyboardIndicators(raw) => "***SetKeyboardIndicators*** raw="@ + hex(head(raw, 8)),
        About::SessionInfo => "SaveSessionInfo"@,
        About::ErrorInfo(text) => "ServerSetErrorInfo "@ + text,
        _ => name,
    }
}

/// The byte at which a dynamic channel would tell its command, where the frame is long enough.
pub open spec fn command_hint(frame: Seq<u8>) -> Seq<char> {
    if frame.len() > 10 {
        " dvc_b0=0x"@ + hex(seq![frame[10]])
    } else {
        Seq::empty()
    }
}

/// The line about a frame with data of a channel, which the main channel's decoder made `message`
/// of. What it could make nothing of belongs to another channel, and is shown as it is.
pub open spec fn channel_words(
    frame: Seq<u8>,
    channel_id: u16,
    message: Option<IoMessage>,
) -> Seq<char> {
    let channel = decimal(channel_id as nat);
    match message {
        None => "SVC ch="@ + channel + command_hint(frame) + " raw="@ + hex(head(frame, 32)),
        Some(IoMessage::DeactivateAll) => "X224 ch="@ + channel + " ***DeactivateAll***"@,
        Some(IoMessage::Data { name, about }) => "X224 ch="@ + channel + " "@ + name + " "@
            + detail_words(name, about),
    }
}

/// The line about a frame outside the fast path.
pub open spec fn x224_line(frame: Seq<u8>) -> Seq<char> {
    match send_data_indication(frame) {
        Some(data) => channel_words(frame, data.channel_id, io_channel_message(data)),
        None => "X224 <decode-fail: not SendDataIndication> raw="@ + hex(head(frame, 32)),
    }
}

/// The line about a frame on the fast path.
pub open spec fn fastpath_line(frame: Seq<u8>) -> Seq<char> {
    "FastPath len="@ + decimal(frame.len()) + " raw="@ + hex(head(frame, 24))
}

/// The words about what a message of the main channel with the given name says.
fn describe_detail(name: &str, detail: &IoDetail) -> (words: String)
    ensures
        words@ == detail_words(name@, detail@),
{
    match detail {
        IoDetail::KeyboardIndicators(raw) => String::from_str(
            "***SetKeyboardIndicators*** raw=",
        ).concat(hex_head(raw.as_slice(), 8).as_str()),
        IoDetail::SessionInfo => String::from_str("SaveSessionInfo"),
        IoDetail::ErrorInfo(text) => String::from_str("ServerSetErrorInfo ").concat(text.as_str()),
        _ => String::from_str(name),
    }
}

/// The line about a frame with data of a channel, which the main channel's decoder made `message`
/// of.
pub fn describe_channel(frame: &[u8], channel_id: u16, message: &Option<IoPdu>) -> (line: String)
    ensures
        line@ == channel_words(frame@, channel_id, io_view(*message)),
{
    match message {
        None => {
            let mut line = String::from_str("SVC ch=");
            push_decimal(&mut line, channel_id as u64);
            if frame.len() > 10 {
                let b0: [u8; 1] = [frame[10]];
                assert(b0@.take(1) =~= seq![frame@[10]]);
                line = line.concat(" dvc_b0=0x").concat(hex_head(&b0, 1).as_str());
            }
            let line = line.concat(" raw=").concat(hex_head(frame, 32).as_str());
            assert(line@ =~= channel_words(frame@, channel_id, None));
            line
        },
        Some(IoPdu::DeactivateAll) => {
            let mut line = String::from_str("X224 ch=");
            push_decimal(&mut line, channel_id as u64);
            line.concat(" ***DeactivateAll***")
        },
        Some(IoPdu::Data { name, detail }) => {
            let mut line = String::from_str("X224 ch=");
            push_decimal(&mut line, channel_id as u64);
            let words = describe_detail(name.as_str(), detail);
            line.concat(" ").concat(name.as_str()).concat(" ").concat(words.as_str())
        },
    }
}

/// The line about a frame outside the fast path. A frame that no decoder knows is shown as it is,
/// so that none is missing in the trace.
pub fn describe_x224(frame: &[u8]) -> (line: String)
    ensures
        line@ == x224_line(frame@),
{
    match channel_data(frame) {
        Some(data) => {
            let message = channel_message(&data);
            describe_channel(frame, data.channel_id, &message)
        },
        None => String::from_str("X224 <decode-fail: not SendDataIndication> raw=").concat(
            hex_head(frame, 32).as_str(),
        ),
    }
}

/// The line about a frame on the fast path.
pub fn describe_fastpath(frame: &[u8]) -> (line: String)
    ensures
        line@ == fastpath_line(frame@),
{
    let mut line = String::from_str("FastPath len=");
    push_decimal(&mut line, frame.len() as u64);
    line.concat(" raw=").concat(hex_head(frame, 24).as_str())
}

/// No frame is missing in the trace: one that the decoders make nothing of is shown by its first
/// bytes, and of any other the channel is told.
pub proof fn every_frame_is_shown(frame: Seq<u8>)
    ensures
        match send_data_indication(frame) {
            Some(data) => match io_channel_message(data) {
                Some(_) => ("X224 ch="@ + decimal(data.channel_id as nat)).is_prefix_of(
                    x224_line(frame),
                ),
                None => (" raw="@ + hex(head(frame, 32))).is_suffix_of(x224_line(frame)),
            },
            None => (" raw="@ + hex(head(frame, 32))).is_suffix_of(x224_line(frame)),
        },
        (" raw="@ + hex(head(frame, 24))).is_suffix_of(fastpath_line(frame)),
{
    let raw = hex(head(frame, 32));
    reveal_strlit("X224 <decode-fail: not SendDataIndication> raw=");
    reveal_strlit("X224 <decode-fail: not SendDataIndication>");
    reveal_strlit(" raw=");
    assert("X224 <decode-fail: not SendDataIndication> raw="@ + raw
        =~= "X224 <decode-fail: not SendDataIndication>"@ + (" raw="@ + raw));
    match send_data_indication(frame) {
        Some(data) => {
            let channel = decimal(data.channel_id as nat);
            assert("SVC ch="@ + channel + command_hint(frame) + " raw="@ + raw =~= ("SVC ch="@
                + channel + command_hint(frame)) + (" raw="@ + raw));
        },
        None => {},
    }
    assert(fastpath_line(frame) =~= ("FastPath len="@ + decimal(frame.len())) + (" raw="@ + hex(
        head(frame, 24),
    )));
}

} // verus!
