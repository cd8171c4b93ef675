//! What IronRDP makes of bytes, as plain values.
use ironrdp::connector::legacy::{
    decode_io_channel, decode_send_data_indication, IoChannelPdu, SendDataIndicationCtx,
};
use ironrdp::graphics::rdp6::BitmapStreamDecoder;
use ironrdp::graphics::rle::{decompress, RlePixelFormat};
use ironrdp::pdu::bitmap::BitmapUpdateData;
use ironrdp::pdu::rdp::headers::ShareDataPdu;
use ironrdp::pdu::rdp::vc::dvc::gfx::{ServerPdu, WireToSurface1Pdu};
use ironrdp::pdu::rdp::vc::dvc::gfx::Codec1Type::Uncompressed;
use ironrdp::pdu::rdp::vc::dvc::gfx::PixelFormat::ARgb;
use vstd::prelude::*;

verus! {

/// The data of a channel, with the ids that it came with.
#[derive(Debug)]
pub struct ChannelData {
    pub initiator_id: u16,
    pub channel_id: u16,
    pub user_data: Vec<u8>,
}

/// The data of a channel as a mathematical value.
#[verifier::ext_equal]
pub struct ChannelBytes {
    pub initiator_id: u16,
    pub channel_id: u16,
    pub user_data: Seq<u8>,
}

impl View for ChannelData {
    type V = ChannelBytes;

    open spec fn view(&self) -> ChannelBytes {
        ChannelBytes {
            initiator_id: self.initiator_id,
            channel_id: self.channel_id,
            user_data: self.user_data@,
        }
    }
}

/// What a message of the main channel is about.
#[derive(Debug)]
pub enum IoDetail {
    /// An update outside the fast path, as bytes.
    Update(Vec<u8>),
    /// The state of the lock keys, as bytes.
    KeyboardIndicators(Vec<u8>),
    /// A logon.
    SessionInfo,
    /// An error code, as text.
    ErrorInfo(String),
    Other,
}

/// A message of the main channel.
#[derive(Debug)]
pub enum IoPdu {
    DeactivateAll,
    Data { name: String, detail: IoDetail },
}

/// What a message of the main channel is about, as a mathematical value.
#[verifier::ext_equal]
pub enum About {
    Update(Seq<u8>),
    KeyboardIndicators(Seq<u8>),
    SessionInfo,
    ErrorInfo(Seq<char>),
    Other,
}

/// A message of the main channel as a mathematical value.
#[verifier::ext_equal]
pub enum IoMessage {
    DeactivateAll,
    Data { name: Seq<char>, about: About },
}

impl View for IoDetail {
    type V = About;

    open spec fn view(&self) -> About {
        match *self {
            IoDetail::Update(raw) => About::Update(raw@),
            IoDetail::KeyboardIndicators(raw) => About::KeyboardIndicators(raw@),
            IoDetail::SessionInfo => About::SessionInfo,
            IoDetail::ErrorInfo(text) => About::ErrorInfo(text@),
            IoDetail::Other => About::Other,
        }
    }
}

impl View for IoPdu {
    type V = IoMessage;

    open spec fn view(&self) -> IoMessage {
        match *self {
            IoPdu::DeactivateAll => IoMessage::DeactivateAll,
            IoPdu::Data { name, detail } => IoMessage::Data { name: name@, about: detail@ },
        }
    }
}

/// An optional message of the main channel as a mathematical value.
pub open spec fn io_view(pdu: Option<IoPdu>) -> Option<IoMessage> {
    match pdu {
        Some(p) => Some(p@),
        None => None,
    }
}

/// A bitmap of an update: where it goes (right and bottom belong to it), the size of its source,
/// and its pixels as they were sent.
#[derive(Debug)]
pub struct BitmapRect {
    pub left: u16,
    pub top: u16,
    pub right: u16,
    pub bottom: u16,
    pub width: u16,
    pub height: u16,
    pub bits_per_pixel: u16,
    pub compression_flags: u16,
    pub data: Vec<u8>,
}

/// A bitmap of an update as a mathematical value.
#[verifier::ext_equal]
pub struct Tile {
    pub left: u16,
    pub top: u16,
    pub right: u16,
    pub bottom: u16,
    pub width: u16,
    pub height: u16,
    pub bits_per_pixel: u16,
    pub compression_flags: u16,
    pub data: Seq<u8>,
}

impl View for BitmapRect {
    type V = Tile;

    open spec fn view(&self) -> Tile {
        Tile {
            left: self.left,
            top: self.top,
            right: self.right,
            bottom: self.bottom,
            width: self.width,
            height: self.height,
            bits_per_pixel: self.bits_per_pixel,
            compression_flags: self.compression_flags,
            data: self.data@,
        }
    }
}

/// Bitmaps as mathematical values.
pub open spec fn tiles(rects: Seq<BitmapRect>) -> Seq<Tile> {
    Seq::new(rects.len(), |i: int| rects[i]@)
}

/// The pixel format that run-length decoding gives.
#[derive(Debug, Clone, Copy, PartialEq, Eq, Structural)]
pub enum RleFormat {
    Rgb24,
    Rgb16,
    Rgb15,
    Rgb8,
}

/// A message of the graphics channel, as far as the program acts on it.
#[derive(Debug)]
pub enum GfxMessage {
    CreateSurface { surface_id: u16 },
    DeleteSurface { surface_id: u16 },
    MapSurfaceToOutput { surface_id: u16, x: u32, y: u32 },
    ResetGraphics,
    EndFrame { frame_id: u32 },
    Pixels {
        surface_id: u16,
        uncompressed: bool,
        has_alpha: bool,
        left: u16,
        top: u16,
        right: u16,
        bottom: u16,
        data: Vec<u8>,
    },
    Other,
}

/// A message of the graphics channel as a mathematical value.
#[verifier::ext_equal]
pub enum Message {
    CreateSurface { surface_id: u16 },
    DeleteSurface { surface_id: u16 },
    MapSurfaceToOutput { surface_id: u16, x: u32, y: u32 },
    ResetGraphics,
    EndFrame { frame_id: u32 },
    Pixels {
        surface_id: u16,
        uncompressed: bool,
        has_alpha: bool,
        left: u16,
        top: u16,
        right: u16,
        bottom: u16,
        data: Seq<u8>,
    },
    Other,
}

impl View for GfxMessage {
    type V = Message;

    open spec fn view(&self) -> Message {
        match *self {
            GfxMessage::CreateSurface { surface_id } => Message::CreateSurface { surface_id },
            GfxMessage::DeleteSurface { surface_id } => Message::DeleteSurface { surface_id },
            GfxMessage::MapSurfaceToOutput { surface_id, x, y } => Message::MapSurfaceToOutput {
                surface_id,
                x,
                y,
            },
            GfxMessage::ResetGraphics => Message::ResetGraphics,
            GfxMessage::EndFrame { frame_id } => Message::EndFrame { frame_id },
            GfxMessage::Pixels {
                surface_id,
                uncompressed,
                has_alpha,
                left,
                top,
                right,
                bottom,
                data,
            } => Message::Pixels {
                surface_id,
                uncompressed,
                has_alpha,
                left,
                top,
                right,
                bottom,
                data: data@,
            },
            GfxMessage::Other => Message::Other,
        }
    }
}

/// Optional bytes as a mathematical value.
pub open spec fn bytes_view(bytes: Option<Vec<u8>>) -> Option<Seq<u8>> {
    match bytes {
        Some(b) => Some(b@),
        None => None,
    }
}

/// Whether the bytes of a graphics message are whole as far as their decoder takes that for
/// granted. A reset has room for its number of monitors behind the size of the screen, and a reply
/// about imported caches has all the slots that it counts.
pub open spec fn decodable(bytes: Seq<u8>) -> bool {
    &&& bytes.len() >= 8 && bytes[0] == 0x0e && bytes[1] == 0 ==> bytes.len() < 16 || bytes.len()
        >= 20
    &&& bytes.len() >= 10 && bytes[0] == 0x11 && bytes[1] == 0 ==> bytes.len() >= 10 + 2 * (bytes[8]
        + 256 * bytes[9])
}

/// Whether the bytes of a graphics message are whole as far as their decoder takes that for
/// granted.
pub fn is_decodable(bytes: &Vec<u8>) -> (b: bool)
    ensures
        b == decodable(bytes@),
{
    let n: usize = bytes.len();
    if n >= 8 && bytes[0] == 0x0e && bytes[1] == 0 {
        n < 16 || n >= 20
    } else if n >= 10 && bytes[0] == 0x11 && bytes[1] == 0 {
        let slots: usize = bytes[8] as usize + 256 * (bytes[9] as usize);
        n >= 10 + 2 * slots
    } else {
        true
    }
}

/// What `decode_send_data_indication` makes of a frame.
pub uninterp spec fn send_data_indication(frame: Seq<u8>) -> Option<ChannelBytes>;

/// What `decode_io_channel` makes of the data of a channel.
pub uninterp spec fn io_channel_message(data: ChannelBytes) -> Option<IoMessage>;

/// What `BitmapUpdateData::decode` makes of an update.
pub uninterp spec fn bitmap_update(update: Seq<u8>) -> Option<Seq<Tile>>;

/// What `BitmapStreamDecoder::decode_bitmap_stream_to_rgb24` makes of a stream.
pub uninterp spec fn rdp6_pixels(data: Seq<u8>, width: u16, height: u16) -> Option<Seq<u8>>;

/// What run-length decoding makes of data.
pub uninterp spec fn rle_pixels(data: Seq<u8>, width: u16, height: u16, bits_per_pixel: u16)
    -> Option<(RleFormat, Seq<u8>)>;

/// The message of the graphics channel that bytes hold.
pub uninterp spec fn gfx_message(bytes: Seq<u8>) -> Option<Message>;

/// Calls `ironrdp::connector::legacy::decode_send_data_indication`. The result is settled by the
/// frame; it is none where the frame is not such an indication.
#[verifier::external_body]
pub(crate) fn channel_data(frame: &[u8]) -> (data: Option<ChannelData>)
    ensures
        match data {
            Some(d) => send_data_indication(frame@) == Some(d@),
            None => send_data_indication(frame@) is None,
        },
{
    let ctx = decode_send_data_indication(frame).ok()?;
    let user_data = ctx.user_data.to_vec();
    Some(ChannelData { initiator_id: ctx.initiator_id, channel_id: ctx.channel_id, user_data })
}

/// Calls `ironrdp::connector::legacy::decode_io_channel`, moves what the program reads out of the
/// message, and asks `ShareDataPdu::as_short_name` for its name. An error code comes as its `Debug`
/// text. The result is settled by the data; it is none where they hold no such message.
#[verifier::external_body]
pub(crate) fn channel_message(data: &ChannelData) -> (pdu: Option<IoPdu>)
    ensures
        io_view(pdu) == io_channel_message(data@),
{
    let (initiator_id, channel_id) = (data.initiator_id, data.channel_id);
    let ctx = SendDataIndicationCtx { initiator_id, channel_id, user_data: &data.user_data };
    let IoChannelPdu::Data(share) = decode_io_channel(ctx).ok()? else {
        return Some(IoPdu::DeactivateAll);
    };
    let name = share.pdu.as_short_name().to_string();
    let detail = match share.pdu {
        ShareDataPdu::Update(raw) => IoDetail::Update(raw),
        ShareDataPdu::SetKeyboardIndicators(raw) => IoDetail::KeyboardIndicators(raw),
        ShareDataPdu::SaveSessionInfo(_) => IoDetail::SessionInfo,
        ShareDataPdu::ServerSetErrorInfo(e) => IoDetail::ErrorInfo(format!("{:?}", e)),
        _ => IoDetail::Other,
    };
    Some(IoPdu::Data { name, detail })
}

/// Calls `ironrdp_core::decode` for a `BitmapUpdateData` and copies the fields of each bitmap. The
/// result is settled by the bytes; it is none where they are not such an update.
#[verifier::external_body]
pub(crate) fn bitmap_rects(update: &Vec<u8>) -> (rects: Option<Vec<BitmapRect>>)
    ensures
        match rects {
            Some(r) => bitmap_update(update@) == Some(tiles(r@)),
            None => bitmap_update(update@) is None,
        },
{
    let decoded = ironrdp_core::decode::<BitmapUpdateData<'_>>(update).ok()?;
    Some(decoded.rectangles.iter().map(|b| BitmapRect {
        left: b.rectangle.left, top: b.rectangle.top,
        right: b.rectangle.right, bottom: b.rectangle.bottom,
        width: b.width, height: b.height, bits_per_pixel: b.bits_per_pixel,
        compression_flags: b.compression_flags.bits(), data: b.bitmap_data.to_vec(),
    }).collect())
}

/// Calls `BitmapStreamDecoder::decode_bitmap_stream_to_rgb24` of a new decoder. The pixels are
/// settled by the data and the size; there are none where decoding fails.
#[verifier::external_body]
pub(crate) fn rdp6_decode(data: &Vec<u8>, width: u16, height: u16) -> (pixels: Option<Vec<u8>>)
    requires
        width > 0,
        height > 0,
    ensures
        bytes_view(pixels) == rdp6_pixels(data@, width, height),
{
    let mut pixels = Vec::new();
    BitmapStreamDecoder::default()
        .decode_bitmap_stream_to_rgb24(data, &mut pixels, usize::from(width), usize::from(height))
        .ok()?;
    Some(pixels)
}

/// Calls `ironrdp::graphics::rle::decompress`. The pixels and their format are settled by the data,
/// the size and the depth; there are none where decoding fails.
#[verifier::external_body]
pub(crate) fn rle_decode(data: &Vec<u8>, width: u16, height: u16, bits_per_pixel: u16) -> (r:
    Option<(RleFormat, Vec<u8>)>)
    ensures
        match r {
            Some((format, pixels)) => rle_pixels(data@, width, height, bits_per_pixel) == Some(
                (format, pixels@),
            ),
            None => rle_pixels(data@, width, height, bits_per_pixel) is None,
        },
{
    let mut out = Vec::new();
    let (w, h) = (usize::from(width), usize::from(height));
    let format = match decompress(data, &mut out, w, h, usize::from(bits_per_pixel)).ok()? {
        RlePixelFormat::Rgb24 => RleFormat::Rgb24,
        RlePixelFormat::Rgb16 => RleFormat::Rgb16,
        RlePixelFormat::Rgb15 => RleFormat::Rgb15,
        RlePixelFormat::Rgb8 => RleFormat::Rgb8,
    };
    Some((format, out))
}

/// Calls `ironrdp_core::decode` for a `ServerPdu` of the graphics channel and moves its fields. The
/// message is settled by the bytes; there is none where they are not one. The decoders of two kinds
/// of messages read past bytes that are cut short; those are left out.
#[verifier::external_body]
pub(crate) fn decode_gfx(bytes: &Vec<u8>) -> (message: Option<GfxMessage>)
    requires
        decodable(bytes@),
    ensures
        match message {
            Some(m) => gfx_message(bytes@) == Some(m@),
            None => gfx_message(bytes@) is None,
        },
{
    Some(match ironrdp_core::decode::<ServerPdu>(bytes).ok()? {
        ServerPdu::CreateSurface(p) => GfxMessage::CreateSurface { surface_id: p.surface_id },
        ServerPdu::DeleteSurface(p) => GfxMessage::DeleteSurface { surface_id: p.surface_id },
        ServerPdu::MapSurfaceToOutput(p) => GfxMessage::MapSurfaceToOutput {
            surface_id: p.surface_id, x: p.output_origin_x, y: p.output_origin_y },
        ServerPdu::ResetGraphics(_) => GfxMessage::ResetGraphics,
        ServerPdu::EndFrame(p) => GfxMessage::EndFrame { frame_id: p.frame_id },
        ServerPdu::WireToSurface1(WireToSurface1Pdu {
            surface_id, codec_id, pixel_format, destination_rectangle: r, bitmap_data: data,
        }) => GfxMessage::Pixels { surface_id, uncompressed: matches!(codec_id, Uncompressed),
            has_alpha: matches!(pixel_format, ARgb),
            left: r.left, top: r.top, right: r.right, bottom: r.bottom, data },
        _ => GfxMessage::Other })
}

} // verus!
