//! The graphics channel: surfaces, pixels for them, and acknowledged frames.
use crate::connection::rdp::bitmap::{gfx_pixels_to_rgba, surface_pixels};
use crate::connection::rdp::decode::{
    decodable, decode_gfx, gfx_message, is_decodable, GfxMessage, Message,
};
use crate::connection::rdp::slowpath::{count_places, places, update_view};
use crate::connection::rdp::zgfx::{
    decompress, history, is_packed, is_whole, new_decompressor, remembering_payload, unpacked,
    whole, zgfx_taken, Taken,
};
use crate::remote_display::display::{FrameUpdate, Update};
use ironrdp::graphics::zgfx::Decompressor;
use std::collections::BTreeMap;
use vstd::prelude::*;

verus! {

broadcast use vstd::std_specs::btree::group_btree_axioms;

/// Where a surface stands on the screen.
#[derive(Debug, Clone, Copy, PartialEq, Eq, Structural)]
pub struct GfxSurface {
    pub output_origin_x: u32,
    pub output_origin_y: u32,
}

/// The client's side of the graphics channel.
pub struct GfxProcessor {
    pub decompressor: Decompressor,
    pub surfaces: BTreeMap<u16, GfxSurface>,
    pub frames_decoded: u32,
}

/// The client's side of the graphics channel as a mathematical value. What is remembered are the
/// last bytes that the decompressor gave out, the newest at the end: compressed payloads refer to
/// them.
#[verifier::ext_equal]
pub struct Gfx {
    pub remembered: Seq<u8>,
    pub surfaces: Map<u16, GfxSurface>,
    pub frames_decoded: u32,
}

/// The acknowledgement of a frame.
#[derive(Debug, Clone, Copy, PartialEq, Eq, Structural)]
pub struct FrameAck {
    pub frame_id: u32,
    pub total_frames_decoded: u32,
}

/// What a message calls for: an acknowledgement, or a change of the picture.
#[derive(Debug)]
pub struct GfxReply {
    pub ack: Option<FrameAck>,
    pub update: Option<FrameUpdate>,
}

/// The place on the screen of place `at` of a surface with the given origin. Of the origin the low
/// 16 bits count.
pub open spec fn on_screen(origin: u32, at: u16) -> u16 {
    if origin % 65536 + at > 65535 {
        65535
    } else {
        (origin % 65536 + at) as u16
    }
}

/// The message that bytes of the channel hold. Bytes that are cut short hold none.
pub open spec fn message_of(bytes: Seq<u8>) -> Option<Message> {
    if decodable(bytes) {
        gfx_message(bytes)
    } else {
        None
    }
}

impl Gfx {
    /// Before the first message.
    pub open spec fn fresh() -> Gfx {
        Gfx {
            remembered: Seq::new(2_500_000, |i: int| 0u8),
            surfaces: Map::empty(),
            frames_decoded: 0,
        }
    }

    /// The number of frames after one more, around the end of the range.
    pub open spec fn one_more(self) -> u32 {
        if self.frames_decoded == u32::MAX {
            0
        } else {
            (self.frames_decoded + 1) as u32
        }
    }

    /// The state after a message.
    pub open spec fn after(self, message: Message) -> Gfx {
        match message {
            Message::CreateSurface { surface_id } => Gfx {
                surfaces: self.surfaces.insert(
                    surface_id,
                    GfxSurface { output_origin_x: 0, output_origin_y: 0 },
                ),
                ..self
            },
            Message::DeleteSurface { surface_id } => Gfx {
                surfaces: self.surfaces.remove(surface_id),
                ..self
            },
            Message::MapSurfaceToOutput { surface_id, x, y } => if self.surfaces.contains_key(
                surface_id,
            ) {
                Gfx {
                    surfaces: self.surfaces.insert(
                        surface_id,
                        GfxSurface { output_origin_x: x, output_origin_y: y },
                    ),
                    ..self
                }
            } else {
                self
            },
            Message::ResetGraphics => Gfx { surfaces: Map::empty(), ..self },
            Message::EndFrame { .. } => Gfx { frames_decoded: self.one_more(), ..self },
            _ => self,
        }
    }

    /// The acknowledgement that a message calls for: that of the frame which it ends.
    pub open spec fn ack(self, message: Message) -> Option<FrameAck> {
        match message {
            Message::EndFrame { frame_id } => Some(
                FrameAck { frame_id, total_frames_decoded: self.one_more() },
            ),
            _ => None,
        }
    }

    /// The change of the picture that a message calls for: that of uncompressed pixels for a
    /// surface that is there.
    pub open spec fn update(self, message: Message) -> Option<Update> {
        match message {
            Message::Pixels {
                surface_id,
                uncompressed,
                has_alpha,
                left,
                top,
                right,
                bottom,
                data,
            } => if uncompressed && self.surfaces.contains_key(surface_id) {
                let surface = self.surfaces[surface_id];
                let width = places(left, right);
                let height = places(top, bottom);
                Some(
                    Update::Rect {
                        x: on_screen(surface.output_origin_x, left),
                        y: on_screen(surface.output_origin_y, top),
                        width,
                        height,
                        rgba: surface_pixels(data, has_alpha, width as int, height as int),
                    },
                )
            } else {
                None
            },
            _ => None,
        }
    }

    /// The state after the bytes of a message. Bytes that are no message change nothing.
    pub open spec fn after_bytes(self, bytes: Seq<u8>) -> Gfx {
        match message_of(bytes) {
            Some(message) => self.after(message),
            None => self,
        }
    }

    /// The state after a payload. The decompressor may remember bytes of one that holds none.
    pub open spec fn after_payload(self, payload: Seq<u8>) -> Gfx {
        let taken = zgfx_taken(self.remembered, payload);
        let fed = Gfx { remembered: taken.remembered, ..self };
        match taken.bytes {
            Some(bytes) => fed.after_bytes(bytes),
            None => fed,
        }
    }

    /// The acknowledgement that a payload calls for.
    pub open spec fn payload_ack(self, payload: Seq<u8>) -> Option<FrameAck> {
        match zgfx_taken(self.remembered, payload).bytes {
            Some(bytes) => self.bytes_ack(bytes),
            None => None,
        }
    }

    /// The change of the picture that a payload calls for.
    pub open spec fn payload_update(self, payload: Seq<u8>) -> Option<Update> {
        match zgfx_taken(self.remembered, payload).bytes {
            Some(bytes) => self.bytes_update(bytes),
            None => None,
        }
    }

    /// The acknowledgement that the bytes of a message call for.
    pub open spec fn bytes_ack(self, bytes: Seq<u8>) -> Option<FrameAck> {
        match message_of(bytes) {
            Some(message) => self.ack(message),
            None => None,
        }
    }

    /// The change of the picture that the bytes of a message call for.
    pub open spec fn bytes_update(self, bytes: Seq<u8>) -> Option<Update> {
        match message_of(bytes) {
            Some(message) => self.update(message),
            None => None,
        }
    }
}

impl View for GfxProcessor {
    type V = Gfx;

    open spec fn view(&self) -> Gfx {
        Gfx {
            remembered: history(self.decompressor),
            surfaces: self.surfaces@,
            frames_decoded: self.frames_decoded,
        }
    }
}

/// The place on the screen of place `at` of a surface.
fn place_on_screen(origin: u32, at: u16) -> (place: u16)
    ensures
        place == on_screen(origin, at),
{
    let low: u16 = (origin % 65536) as u16;
    low.saturating_add(at)
}

impl GfxProcessor {
    /// A channel without surfaces.
    pub fn new() -> (gfx: Self)
        ensures
            gfx@ == Gfx::fresh(),
    {
        GfxProcessor {
            decompressor: new_decompressor(),
            surfaces: BTreeMap::new(),
            frames_decoded: 0,
        }
    }

    /// The change of the picture by pixels for a surface.
    fn pixels(&self, message: &GfxMessage) -> (update: Option<FrameUpdate>)
        ensures
            update_view(update) == self@.update(message@),
    {
        match message {
            GfxMessage::Pixels {
                surface_id,
                uncompressed,
                has_alpha,
                left,
                top,
                right,
                bottom,
                data,
            } => {
                if !*uncompressed {
                    return None;
                }
                match self.surfaces.get(surface_id) {
                    Some(surface) => {
                        let width: u16 = count_places(*left, *right);
                        let height: u16 = count_places(*top, *bottom);
                        let rgba = gfx_pixels_to_rgba(data, *has_alpha, width, height);
                        let x: u16 = place_on_screen(surface.output_origin_x, *left);
                        let y: u16 = place_on_screen(surface.output_origin_y, *top);
                        Some(FrameUpdate::Rect { x, y, width, height, rgba })
                    },
                    None => None,
                }
            },
            _ => None,
        }
    }

    /// Takes a message.
    pub fn handle(&mut self, message: &GfxMessage) -> (reply: GfxReply)
        ensures
            final(self)@ == old(self)@.after(message@),
            reply.ack == old(self)@.ack(message@),
            update_view(reply.update) == old(self)@.update(message@),
    {
        let update = self.pixels(message);
        let mut ack: Option<FrameAck> = None;
        match message {
            GfxMessage::CreateSurface { surface_id } => {
                self.surfaces.insert(
                    *surface_id,
                    GfxSurface { output_origin_x: 0, output_origin_y: 0 },
                );
            },
            GfxMessage::DeleteSurface { surface_id } => {
                self.surfaces.remove(surface_id);
            },
            GfxMessage::MapSurfaceToOutput { surface_id, x, y } => {
                if self.surfaces.contains_key(surface_id) {
                    self.surfaces.insert(
                        *surface_id,
                        GfxSurface { output_origin_x: *x, output_origin_y: *y },
                    );
                }
            },
            GfxMessage::ResetGraphics => {
                self.surfaces.clear();
            },
            GfxMessage::EndFrame { frame_id } => {
                self.frames_decoded = self.frames_decoded.wrapping_add(1);
                ack = Some(
                    FrameAck {
                        frame_id: *frame_id,
                        total_frames_decoded: self.frames_decoded,
                    },
                );
            },
            _ => {},
        }
        GfxReply { ack, update }
    }

    /// Takes the bytes of a message. Bytes that are no message are passed over.
    pub fn process_message(&mut self, bytes: &Vec<u8>) -> (reply: GfxReply)
        ensures
            final(self)@ == old(self)@.after_bytes(bytes@),
            reply.ack == old(self)@.bytes_ack(bytes@),
            update_view(reply.update) == old(self)@.bytes_update(bytes@),
    {
        if !is_decodable(bytes) {
            return GfxReply { ack: None, update: None };
        }
        match decode_gfx(bytes) {
            Some(message) => self.handle(&message),
            None => GfxReply { ack: None, update: None },
        }
    }

    /// Takes a payload of the channel, unless the decompressor does not get through it. Of one that
    /// is not packed it gives the bytes of the segments.
    pub fn process(&mut self, payload: &[u8]) -> (reply: Option<GfxReply>)
        ensures
            reply is None <==> !whole(payload@),
            match reply {
                Some(r) => {
                    &&& final(self)@ == old(self)@.after_payload(payload@)
                    &&& r.ack == old(self)@.payload_ack(payload@)
                    &&& update_view(r.update) == old(self)@.payload_update(payload@)
                },
                None => final(self)@ == old(self)@,
            },
            whole(payload@) && !is_packed(payload@) ==> zgfx_taken(
                old(self)@.remembered,
                payload@,
            ) == (Taken {
                bytes: unpacked(payload@),
                remembered: remembering_payload(old(self)@.remembered, payload@),
            }),
    {
        if !is_whole(payload) {
            return None;
        }
        match decompress(&mut self.decompressor, payload) {
            Some(bytes) => Some(self.process_message(&bytes)),
            None => Some(GfxReply { ack: None, update: None }),
        }
    }
}

/// The end of a frame is acknowledged with one frame more, however its payload was compressed, and
/// changes nothing else. A payload that holds no message changes nothing, but for what the
/// decompressor remembers.
pub proof fn ended_frames_are_acknowledged(
    gfx: Gfx,
    payload: Seq<u8>,
    bytes: Seq<u8>,
    frame_id: u32,
)
    requires
        gfx.frames_decoded < u32::MAX,
    ensures
        ({
            let taken = zgfx_taken(gfx.remembered, payload);
            let after = gfx.after_payload(payload);
            let ends = taken.bytes == Some(bytes) && message_of(bytes) == Some(
                Message::EndFrame { frame_id },
            );
            let empty = taken.bytes is None || (taken.bytes == Some(bytes) && message_of(bytes)
                is None);
            &&& after.remembered == taken.remembered
            &&& ends ==> {
                &&& gfx.payload_ack(payload) == Some(
                    FrameAck {
                        frame_id,
                        total_frames_decoded: (gfx.frames_decoded + 1) as u32,
                    },
                )
                &&& gfx.payload_update(payload) is None
                &&& after.frames_decoded == gfx.frames_decoded + 1
                &&& after.surfaces == gfx.surfaces
            }
            &&& empty ==> {
                &&& gfx.payload_ack(payload) is None
                &&& gfx.payload_update(payload) is None
                &&& after.frames_decoded == gfx.frames_decoded
                &&& after.surfaces == gfx.surfaces
            }
        }),
{
}

/// Where a surface was mapped to, its pixels appear: the first of them at the place that the
/// origin and the rectangle give, as long as that place is on the screen.
pub proof fn mapped_pixels_appear_at_the_origin(
    gfx: Gfx,
    surface_id: u16,
    x: u32,
    y: u32,
    left: u16,
    top: u16,
    right: u16,
    bottom: u16,
    has_alpha: bool,
    data: Seq<u8>,
)
    requires
        x + left <= 65535,
        y + top <= 65535,
    ensures
        ({
            let mapped = gfx.after(Message::CreateSurface { surface_id }).after(
                Message::MapSurfaceToOutput { surface_id, x, y },
            );
            let pixels = Message::Pixels {
                surface_id,
                uncompressed: true,
                has_alpha,
                left,
                top,
                right,
                bottom,
                data,
            };
            match mapped.update(pixels) {
                Some(Update::Rect { x: at_x, y: at_y, .. }) => at_x == x + left && at_y == y + top,
                _ => false,
            }
        }),
{
}

/// A surface that was deleted, or lost in a reset, shows nothing more.
pub proof fn lost_surfaces_show_nothing(gfx: Gfx, surface_id: u16, message: Message)
    requires
        message is Pixels,
        message->Pixels_surface_id == surface_id,
    ensures
        gfx.after(Message::DeleteSurface { surface_id }).update(message) is None,
        gfx.after(Message::ResetGraphics).update(message) is None,
{
}

} // verus!
