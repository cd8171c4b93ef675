use std::borrow::Cow;

use ironrdp::graphics::rdp6::{BitmapStreamEncoder, RgbChannels};
use ironrdp::pdu::geometry::InclusiveRectangle;
use ironrdp::pdu::mcs::SendDataIndication;
use ironrdp::pdu::rdp::client_info::CompressionType;
use ironrdp::pdu::rdp::headers::{
    CompressionFlags, ServerDeactivateAll, ShareControlHeader, ShareControlPdu, ShareDataHeader,
    ShareDataPdu, StreamPriority,
};
use ironrdp::pdu::rdp::server_error_info::{
    ErrorInfo, ProtocolIndependentCode, ServerSetErrorInfoPdu,
};
use ironrdp::pdu::rdp::vc::dvc::gfx::{
    Codec1Type, CreateSurfacePdu, DeleteSurfacePdu, EndFramePdu, MapSurfaceToOutputPdu,
    PixelFormat, ResetGraphicsPdu, ServerPdu, WireToSurface1Pdu,
};
use ironrdp::pdu::x224::X224;
use kterm::connection::rdp::bitmap::{
    bgr24_to_rgba_flip, bgrx_to_rgba_flip, gfx_pixels_to_rgba, rgb16_to_rgba_flip,
    rgb24_to_rgba_flip,
};
use kterm::connection::rdp::decode::{is_decodable, BitmapRect, IoDetail, IoPdu, RleFormat};
use kterm::connection::rdp::gfx::{FrameAck, GfxProcessor};
use kterm::connection::rdp::input::WireEvent;
use kterm::connection::rdp::slowpath::{
    count_places, decode_rect, decode_update, rect_update, try_handle_slowpath_bitmap,
};
use kterm::connection::rdp::trace::{describe_channel, describe_fastpath, describe_x224};
use kterm::connection::rdp::worker::{
    closed_message, connected_message, finalize_failure, handshake_events, merge_rect,
    rect_update_from_image, unprocessed, RdpAction, RdpHandshake, RdpWorker, ScreenRect,
};
use kterm::connection::rdp::zgfx::is_whole;
use kterm::connection::types::{
    ConnectionEvent, ConnectionInput, KeyboardIndicators, RemoteInput, RemoteMouseButton,
};
use kterm::remote_display::display::FrameUpdate;

fn le(values: &[u16]) -> Vec<u8> {
    values.iter().flat_map(|v| v.to_le_bytes()).collect()
}

/// The bytes of a bitmap update with one bitmap.
fn bitmap_update(rect: [u16; 4], size: [u16; 2], bpp: u16, flags: u16, data: &[u8]) -> Vec<u8> {
    let mut bytes = le(&[1, 1]);
    bytes.extend(le(&rect));
    bytes.extend(le(&size));
    bytes.extend(le(&[bpp, flags, data.len() as u16]));
    bytes.extend_from_slice(data);
    bytes
}

/// A frame that carries an update outside the fast path.
fn slow_path_frame(update: &[u8]) -> Vec<u8> {
    share_frame(2, update)
}

/// A frame with a message of the given kind on the main channel.
fn share_frame(kind: u8, body: &[u8]) -> Vec<u8> {
    let mut data = le(&[18 + body.len() as u16, 0x17, 1002]);
    data.extend(0x103eau32.to_le_bytes());
    data.extend([0, 1]);
    data.extend(le(&[4 + body.len() as u16]));
    data.extend([kind, 0]);
    data.extend(le(&[0]));
    data.extend_from_slice(body);
    let pdu = SendDataIndication { initiator_id: 1002, channel_id: 1003, user_data: Cow::Owned(data) };
    ironrdp_core::encode_vec(&X224(pdu)).unwrap()
}

fn rect_of(update: &FrameUpdate) -> (u16, u16, u16, u16, Vec<u8>) {
    match update {
        FrameUpdate::Rect { x, y, width, height, rgba } => (*x, *y, *width, *height, rgba.clone()),
        FrameUpdate::Full { .. } => panic!("a rectangle was expected"),
    }
}

#[test]
fn places_are_counted_around_the_end() {
    assert_eq!(count_places(3, 3), 1);
    assert_eq!(count_places(0, 65535), 0);
    assert_eq!(count_places(5, 4), 0);
    assert_eq!(count_places(5, 3), 65535);
}

#[test]
fn uncompressed_bitmap_in_a_frame() {
    let pixels = [1, 2, 3, 0, 4, 5, 6, 0, 7, 8, 9, 0, 10, 11, 12, 0];
    let update = bitmap_update([10, 20, 11, 21], [2, 2], 32, 0, &pixels);
    let updates = try_handle_slowpath_bitmap(&slow_path_frame(&update));
    assert_eq!(updates.len(), 1);
    assert_eq!(
        rect_of(&updates[0]),
        (10, 20, 2, 2, vec![9, 8, 7, 255, 12, 11, 10, 255, 3, 2, 1, 255, 6, 5, 4, 255])
    );
}

#[test]
fn frames_that_are_no_bitmap_update() {
    assert!(try_handle_slowpath_bitmap(&[]).is_empty());
    assert!(try_handle_slowpath_bitmap(&[3, 0, 0, 7, 2, 240, 128]).is_empty());
    assert!(try_handle_slowpath_bitmap(&slow_path_frame(&le(&[2, 0]))).is_empty());
    assert!(decode_update(&vec![1, 0, 9, 0]).is_empty());
}

#[test]
fn planar_bitmap_is_decoded() {
    let source = [10u8, 20, 30, 40, 50, 60];
    let mut stream = vec![0u8; 256];
    let written = BitmapStreamEncoder::new(2, 1)
        .encode_bitmap::<RgbChannels>(&source, &mut stream, true)
        .unwrap();
    let update = bitmap_update([0, 0, 1, 0], [2, 1], 32, 0x0401, &stream[..written]);
    let updates = try_handle_slowpath_bitmap(&slow_path_frame(&update));
    assert_eq!(updates.len(), 1);
    assert_eq!(
        rect_of(&updates[0]),
        (0, 0, 2, 1, vec![10, 20, 30, 255, 40, 50, 60, 255])
    );
}

#[test]
fn run_length_bitmap_is_decoded() {
    let data = [0x82, 0x00, 0xf8, 0x1f, 0x00];
    let update = bitmap_update([4, 4, 5, 4], [2, 1], 16, 0x0401, &data);
    let updates = decode_update(&update);
    assert_eq!(updates.len(), 1);
    assert_eq!(
        rect_of(&updates[0]),
        (4, 4, 2, 1, vec![255, 0, 0, 255, 0, 0, 255, 255])
    );
    let data = [0x81, 1, 2, 3];
    let updates = decode_update(&bitmap_update([0, 0, 0, 0], [1, 1], 24, 0x0401, &data));
    assert_eq!(rect_of(&updates[0]).4, vec![3, 2, 1, 255]);
}

fn tile(bits_per_pixel: u16, compression_flags: u16, data: Vec<u8>) -> BitmapRect {
    BitmapRect {
        left: 0,
        top: 0,
        right: 0,
        bottom: 0,
        width: 1,
        height: 1,
        bits_per_pixel,
        compression_flags,
        data,
    }
}

#[test]
fn decoded_pixels_decide() {
    let compressed = tile(32, 1, vec![]);
    assert!(rect_update(&compressed, None, None).is_none());
    let update = rect_update(&compressed, Some(vec![1, 2, 3]), None).unwrap();
    assert_eq!(rect_of(&update), (0, 0, 1, 1, vec![1, 2, 3, 255]));
    let runs = tile(16, 1, vec![]);
    assert!(rect_update(&runs, None, Some((RleFormat::Rgb15, vec![0, 0]))).is_none());
    let update = rect_update(&runs, None, Some((RleFormat::Rgb16, vec![0xe0, 0x07]))).unwrap();
    assert_eq!(rect_of(&update).4, vec![0, 255, 0, 255]);
    assert!(decode_rect(&tile(8, 0, vec![1])).is_none());
    assert!(decode_rect(&tile(24, 0, vec![1, 2, 3])).is_none());
}

#[test]
fn empty_bitmaps_are_passed_over() {
    let mut empty = tile(32, 0, vec![1, 2, 3, 4]);
    empty.width = 0;
    assert!(decode_rect(&empty).is_none());
    let mut turned = tile(32, 0, vec![1, 2, 3, 4]);
    turned.left = 1;
    assert!(decode_rect(&turned).is_none());
}

#[test]
fn bottom_row_comes_first() {
    let rows = [1, 1, 1, 2, 2, 2];
    assert_eq!(
        rgb24_to_rgba_flip(&rows, 1, 2, 1, 2),
        vec![2, 2, 2, 255, 1, 1, 1, 255]
    );
    assert_eq!(bgr24_to_rgba_flip(&[1, 2, 3], 1, 1, 1, 1), vec![3, 2, 1, 255]);
    assert_eq!(bgrx_to_rgba_flip(&[1, 2, 3, 9], 1, 1, 1, 1), vec![3, 2, 1, 255]);
}

#[test]
fn sixteen_bit_pixels_are_widened() {
    for v in 0..=u16::MAX {
        let rgba = rgb16_to_rgba_flip(&v.to_le_bytes(), 1, 1, 1, 1);
        let (r5, g6, b5) = (v >> 11 & 0x1f, v >> 5 & 0x3f, v & 0x1f);
        let wide = [
            (r5 << 3 | r5 >> 2) as u8,
            (g6 << 2 | g6 >> 4) as u8,
            (b5 << 3 | b5 >> 2) as u8,
            255,
        ];
        assert_eq!(rgba, wide);
    }
}

#[test]
fn surface_pixels_keep_their_opacity_where_they_have_one() {
    let src = vec![1, 2, 3, 7];
    assert_eq!(gfx_pixels_to_rgba(&src, true, 1, 1), vec![3, 2, 1, 7]);
    assert_eq!(gfx_pixels_to_rgba(&src, false, 1, 1), vec![3, 2, 1, 255]);
}

fn take(gfx: &mut GfxProcessor, pdu: ServerPdu) -> (Option<FrameAck>, Option<FrameUpdate>) {
    let mut payload = vec![0xe0, 0x04];
    payload.extend(ironrdp_core::encode_vec(&pdu).unwrap());
    let reply = gfx.process(&payload).unwrap();
    (reply.ack, reply.update)
}

fn pixels_for(surface_id: u16, codec_id: Codec1Type) -> ServerPdu {
    ServerPdu::WireToSurface1(WireToSurface1Pdu {
        surface_id,
        codec_id,
        pixel_format: PixelFormat::XRgb,
        destination_rectangle: InclusiveRectangle { left: 1, top: 2, right: 1, bottom: 2 },
        bitmap_data: vec![1, 2, 3, 4],
    })
}

#[test]
fn mapped_surface_shows_its_pixels() {
    let mut gfx = GfxProcessor::new();
    let create = CreateSurfacePdu { surface_id: 3, width: 8, height: 8, pixel_format: PixelFormat::ARgb };
    take(&mut gfx, ServerPdu::CreateSurface(create));
    let map = MapSurfaceToOutputPdu { surface_id: 3, output_origin_x: 100, output_origin_y: 200 };
    take(&mut gfx, ServerPdu::MapSurfaceToOutput(map));
    let (ack, update) = take(&mut gfx, pixels_for(3, Codec1Type::Uncompressed));
    assert!(ack.is_none());
    assert_eq!(rect_of(&update.unwrap()), (101, 202, 1, 1, vec![3, 2, 1, 255]));
    assert!(take(&mut gfx, pixels_for(3, Codec1Type::Planar)).1.is_none());
    assert!(take(&mut gfx, pixels_for(4, Codec1Type::Uncompressed)).1.is_none());
    take(&mut gfx, ServerPdu::DeleteSurface(DeleteSurfacePdu { surface_id: 3 }));
    assert!(take(&mut gfx, pixels_for(3, Codec1Type::Uncompressed)).1.is_none());
}

#[test]
fn frames_are_acknowledged_and_a_reset_forgets_surfaces() {
    let mut gfx = GfxProcessor::new();
    let create = CreateSurfacePdu { surface_id: 1, width: 8, height: 8, pixel_format: PixelFormat::XRgb };
    take(&mut gfx, ServerPdu::CreateSurface(create));
    let (ack, _) = take(&mut gfx, ServerPdu::EndFrame(EndFramePdu { frame_id: 9 }));
    assert_eq!(ack, Some(FrameAck { frame_id: 9, total_frames_decoded: 1 }));
    let (ack, _) = take(&mut gfx, ServerPdu::EndFrame(EndFramePdu { frame_id: 10 }));
    assert_eq!(ack, Some(FrameAck { frame_id: 10, total_frames_decoded: 2 }));
    let reset = ResetGraphicsPdu { width: 8, height: 8, monitors: vec![] };
    take(&mut gfx, ServerPdu::ResetGraphics(reset));
    assert!(gfx.surfaces.is_empty());
    let reply = gfx.process_message(&vec![1, 2, 3]);
    assert!(reply.ack.is_none() && reply.update.is_none());
}

#[test]
fn payloads_without_bytes_are_passed_over() {
    let mut gfx = GfxProcessor::new();
    for payload in [
        &[][..],
        &[0xe0][..],
        &[0xe1][..],
        &[0xe2, 4][..],
        &[0xe0, 5, 1][..],
        &[0xe0, 4][..],
        &[0xe0, 0x24][..],
        &[0xe0, 0x24, 0][..],
        &[0xe0, 0x24, 0b1000_0000, 0, 0][..],
    ] {
        let reply = gfx.process(payload).unwrap();
        assert!(reply.ack.is_none() && reply.update.is_none());
    }
    assert_eq!(gfx.frames_decoded, 0);
}

/// Bits as compressed data.
fn compressed(bits: &str) -> Vec<u8> {
    let digits: Vec<u8> = bits.bytes().filter(|b| *b != b' ').map(|b| b - b'0').collect();
    let mut data = vec![0x24];
    for chunk in digits.chunks(8) {
        data.push(chunk.iter().enumerate().map(|(i, b)| b << (7 - i)).sum());
    }
    data.push((8 - digits.len() % 8) as u8 % 8);
    data
}

/// A payload with one segment of compressed data.
fn packed(bits: &str) -> Vec<u8> {
    [&[0xe0][..], &compressed(bits)].concat()
}

fn literals(bytes: &[u8]) -> String {
    bytes.iter().map(|b| format!("0{:08b}", b)).collect()
}

fn end_of_frame(frame_id: u32) -> Vec<u8> {
    ironrdp_core::encode_vec(&ServerPdu::EndFrame(EndFramePdu { frame_id })).unwrap()
}

#[test]
fn compressed_ends_of_frames_are_acknowledged() {
    let mut gfx = GfxProcessor::new();
    let reply = gfx.process(&packed(&literals(&end_of_frame(7)))).unwrap();
    assert_eq!(reply.ack, Some(FrameAck { frame_id: 7, total_frames_decoded: 1 }));
    // The same twelve bytes again: a match of eight bytes and one of four, twelve bytes back.
    let again = packed("10001 01100 110 000 10001 01100 10 00");
    let reply = gfx.process(&again).unwrap();
    assert_eq!(reply.ack, Some(FrameAck { frame_id: 7, total_frames_decoded: 2 }));
    // A number of bytes as they are.
    let message = end_of_frame(9);
    let raw: String = message.iter().map(|b| format!("{:08b}", b)).collect();
    let reply = gfx.process(&packed(&format!("10001 00000 000000000001100 0000000 {}", raw))).unwrap();
    assert_eq!(reply.ack, Some(FrameAck { frame_id: 9, total_frames_decoded: 3 }));
    // A segment as it is, and a compressed one.
    let first = [&[4][..], &message[..5]].concat();
    let second = compressed(&literals(&message[5..]));
    let reply = gfx.process(&multipart(message.len() as u32, &[&first, &second])).unwrap();
    assert_eq!(reply.ack, Some(FrameAck { frame_id: 9, total_frames_decoded: 4 }));
}

#[test]
fn payloads_that_are_cut_short_are_left_alone() {
    let mut gfx = GfxProcessor::new();
    for payload in [
        vec![0xe0, 0x24, 1, 0],
        vec![0xe0, 0x24, 1, 9],
        packed("1"),
        packed("1100"),
        packed("11010"),
        packed("1111111"),
        packed("10001 00"),
        packed("10000 000"),
        packed("10010 000"),
        packed("10001 00000 0000000"),
        packed("10001 00000 000000000000001 0000000"),
        packed("10001 00001 111"),
        packed("10001 00001 10 0"),
        packed("101111101 00000000000000000000000 0"),
    ] {
        assert!(!is_whole(&payload), "{:?}", payload);
        assert!(gfx.process(&payload).is_none());
    }
    for payload in [
        packed("0 00000000"),
        packed("11000"),
        packed("110110"),
        packed("11111111"),
        packed("10000 0000"),
        packed("101111111"),
        packed("10001 00000 000000000000000 0000000"),
        packed("10001 00001 0"),
        packed("10001 00001 10 00"),
        packed("1011110 1 000010100111100000000 0"),
    ] {
        assert!(is_whole(&payload), "{:?}", payload);
        assert!(gfx.process(&payload).is_some());
    }
}

#[test]
fn whole_payloads_are_taken() {
    let mut gfx = GfxProcessor::new();
    let mut seed: u32 = 1;
    let mut taken = 0;
    for round in 0..20_000u32 {
        let mut payload = vec![0xe0, 0x24];
        for _ in 0..1 + round % 6 {
            seed = seed.wrapping_mul(1_664_525).wrapping_add(1_013_904_223);
            payload.push((seed >> 24) as u8);
        }
        payload.push((seed >> 8) as u8 % 10);
        if is_whole(&payload) {
            assert!(gfx.process(&payload).is_some());
            taken += 1;
        }
    }
    assert!(taken > 1_000, "{}", taken);
}

/// A payload with the given segments, which says that they hold `size` bytes.
fn multipart(size: u32, segments: &[&[u8]]) -> Vec<u8> {
    let mut payload = vec![0xe1, segments.len() as u8, 0];
    payload.extend(size.to_le_bytes());
    for segment in segments {
        payload.extend((segment.len() as u32).to_le_bytes());
        payload.extend_from_slice(segment);
    }
    payload
}

#[test]
fn segments_are_joined() {
    let message = ironrdp_core::encode_vec(&ServerPdu::EndFrame(EndFramePdu { frame_id: 7 })).unwrap();
    let size = message.len() as u32;
    let first = [&[4][..], &message[..5]].concat();
    let second = [&[4][..], &message[5..]].concat();
    let mut gfx = GfxProcessor::new();
    let reply = gfx.process(&multipart(size, &[&first, &[0x24], &second])).unwrap();
    assert_eq!(reply.ack, Some(FrameAck { frame_id: 7, total_frames_decoded: 1 }));
    let reply = gfx.process(&multipart(size + 1, &[&first, &second])).unwrap();
    assert!(reply.ack.is_none());
    let reply = gfx.process(&multipart(size, &[&first, &[], &second])).unwrap();
    assert!(reply.ack.is_none());
    let reply = gfx.process(&multipart(size, &[&first, &[5, 1], &second])).unwrap();
    assert!(reply.ack.is_none());
    assert_eq!(gfx.frames_decoded, 1);
}

#[test]
fn segments_that_are_cut_short_are_found() {
    assert!(!is_whole(&multipart(3, &[&[4, 1], &[0x24, 1, 0]])));
    assert!(is_whole(&multipart(3, &[&[0x24, 1, 0], &[5]])));
    assert!(is_whole(&multipart(3, &[&compressed("101111111"), &[0x24, 1, 0]])));
    let payload = multipart(2, &[&[4, 1, 2]]);
    assert!(is_whole(&payload));
    assert!(!is_whole(&payload[..payload.len() - 1]));
    assert!(is_whole(&payload[..8]));
}

#[test]
fn raw_bytes_are_remembered() {
    let mut gfx = GfxProcessor::new();
    gfx.process(&[0xe0, 4, b'a', b'b', b'c']);
    gfx.process(&multipart(9, &[&[4, b'd', b'e']]));
    // A match of three bytes, four bytes back.
    let mut out = Vec::new();
    gfx.decompressor.decompress(&[0xe0, 0x24, 0b1000_1001, 0b0000_0000, 5], &mut out).unwrap();
    assert_eq!(out, b"bcd");
}

#[test]
fn messages_that_are_cut_short_are_passed_over() {
    let reset = ironrdp_core::encode_vec(&ServerPdu::ResetGraphics(ResetGraphicsPdu {
        width: 8,
        height: 8,
        monitors: vec![],
    }))
    .unwrap();
    let create = CreateSurfacePdu { surface_id: 1, width: 8, height: 8, pixel_format: PixelFormat::XRgb };
    let mut gfx = GfxProcessor::new();
    take(&mut gfx, ServerPdu::CreateSurface(create));
    for n in 0..reset.len() {
        assert_eq!(is_decodable(&reset[..n].to_vec()), n < 16 || n >= 20);
        if n < 20 {
            gfx.process_message(&reset[..n].to_vec());
            assert_eq!(gfx.surfaces.len(), 1);
        }
    }
    gfx.process_message(&reset);
    assert!(gfx.surfaces.is_empty());
    let reply = vec![0x11, 0, 0, 0, 10, 0, 0, 0, 1, 0];
    assert!(!is_decodable(&reply));
    assert!(gfx.process_message(&reply).ack.is_none());
    let reply = vec![0x11, 0, 0, 0, 12, 0, 0, 0, 1, 0, 5, 0];
    assert!(is_decodable(&reply));
    assert!(gfx.process_message(&reply).ack.is_none());
}

/// A frame with a message of the main channel.
fn main_channel_frame(share_control_pdu: ShareControlPdu) -> Vec<u8> {
    let header = ShareControlHeader { share_control_pdu, pdu_source: 1002, share_id: 0x103ea };
    let data = ironrdp_core::encode_vec(&header).unwrap();
    let pdu = SendDataIndication { initiator_id: 1002, channel_id: 1003, user_data: Cow::Owned(data) };
    ironrdp_core::encode_vec(&X224(pdu)).unwrap()
}

fn data_frame(share_data_pdu: ShareDataPdu) -> Vec<u8> {
    main_channel_frame(ShareControlPdu::Data(ShareDataHeader {
        share_data_pdu,
        stream_priority: StreamPriority::Medium,
        compression_flags: CompressionFlags::empty(),
        compression_type: CompressionType::K8,
    }))
}

#[test]
fn frames_are_described() {
    assert_eq!(
        describe_x224(&[3, 0, 255]),
        "X224 <decode-fail: not SendDataIndication> raw=03 00 FF"
    );
    assert_eq!(
        describe_x224(&main_channel_frame(ShareControlPdu::ServerDeactivateAll(ServerDeactivateAll))),
        "X224 ch=1003 ***DeactivateAll***"
    );
    assert_eq!(
        describe_x224(&share_frame(41, &[0, 0, 2, 0])),
        "X224 ch=1003 Set Keyboard Indicators PDU ***SetKeyboardIndicators*** raw=00 00 02 00"
    );
    let error = ErrorInfo::ProtocolIndependentCode(ProtocolIndependentCode::None);
    assert_eq!(
        describe_x224(&data_frame(ShareDataPdu::ServerSetErrorInfo(ServerSetErrorInfoPdu(error)))),
        "X224 ch=1003 Server Set Error Info PDU ServerSetErrorInfo \
         ServerSetErrorInfoPdu(ProtocolIndependentCode(None))"
    );
    assert_eq!(
        describe_x224(&slow_path_frame(&le(&[2, 0]))),
        "X224 ch=1003 Update PDU Update PDU"
    );
    let pdu = SendDataIndication {
        initiator_id: 1002,
        channel_id: 1004,
        user_data: Cow::Owned(vec![0xab]),
    };
    let frame = ironrdp_core::encode_vec(&X224(pdu)).unwrap();
    let line = describe_x224(&frame);
    assert!(line.starts_with("SVC ch=1004 dvc_b0=0x"), "{}", line);
    assert!(line.ends_with(" AB"), "{}", line);
}

#[test]
fn described_messages_decide() {
    let data = |detail: IoDetail| Some(IoPdu::Data { name: "Name".to_string(), detail });
    assert_eq!(describe_channel(&[1, 2], 7, &None), "SVC ch=7 raw=01 02");
    assert_eq!(
        describe_channel(&[0, 1, 2, 3, 4, 5, 6, 7, 8, 9, 0x1f], 7, &None),
        "SVC ch=7 dvc_b0=0x1F raw=00 01 02 03 04 05 06 07 08 09 1F"
    );
    assert_eq!(
        describe_channel(&[], 7, &data(IoDetail::SessionInfo)),
        "X224 ch=7 Name SaveSessionInfo"
    );
    assert_eq!(
        describe_channel(&[], 7, &data(IoDetail::ErrorInfo("E".to_string()))),
        "X224 ch=7 Name ServerSetErrorInfo E"
    );
    assert_eq!(describe_channel(&[], 7, &data(IoDetail::Other)), "X224 ch=7 Name Name");
    assert_eq!(describe_fastpath(&[1, 0xa0]), "FastPath len=2 raw=01 A0");
    assert_eq!(describe_fastpath(&[]), "FastPath len=0 raw=");
}

#[test]
fn sessions_start_with_their_channel() {
    let handshake = RdpHandshake::Completed { channel: 5, width: 1024, height: 768 };
    let events = handshake_events("host", 3389, handshake);
    assert_eq!(events.len(), 2);
    assert!(matches!(events[0], ConnectionEvent::Connected(5)));
    let words = connected_message("host", 3389, 1024, 768);
    assert!(matches!(&events[1], ConnectionEvent::Data(d) if *d == words));
    let events = handshake_events("host", 3389, RdpHandshake::Failed("no".to_string()));
    assert!(matches!(&events[..], [ConnectionEvent::Error(e)] if e == "no"));
}

#[test]
fn refused_logons_are_told_apart() {
    assert_eq!(finalize_failure(true, "x"), "NLA 인증 실패: x");
    assert_eq!(finalize_failure(false, "x"), "connect_finalize failed: x");
}

fn remote(input: RemoteInput) -> ConnectionInput {
    ConnectionInput::RemoteInput(input)
}

fn key(code: u8, extended: bool, down: bool) -> ConnectionInput {
    remote(RemoteInput::KeyboardScancode { code, extended, down })
}

fn sent(actions: Vec<RdpAction>) -> Vec<WireEvent> {
    let mut events = Vec::new();
    for action in actions {
        match action {
            RdpAction::Send(more) => events.extend(more),
            RdpAction::Sync(event) => events.push(event),
            RdpAction::Resize { .. } => panic!("no size was asked for"),
        }
    }
    events
}

#[test]
fn held_keys_are_known() {
    let mut worker = RdpWorker::new();
    assert_eq!(
        sent(worker.handle_rdp_input(&key(0x1e, false, true))),
        vec![WireEvent::Key { flags: 0, code: 0x1e }]
    );
    assert_eq!(
        sent(worker.handle_rdp_input(&key(0x1e, false, true))),
        vec![WireEvent::Key { flags: 1, code: 0x1e }, WireEvent::Key { flags: 0, code: 0x1e }]
    );
    assert_eq!(
        sent(worker.handle_rdp_input(&key(0x1e, false, false))),
        vec![WireEvent::Key { flags: 1, code: 0x1e }]
    );
    assert!(worker.handle_rdp_input(&key(0x1e, false, false)).is_empty());
    assert_eq!(
        sent(worker.handle_rdp_input(&key(0x1d, true, true))),
        vec![WireEvent::Key { flags: 2, code: 0x1d }]
    );
    assert_eq!(
        sent(worker.handle_rdp_input(&ConnectionInput::ReleaseAllModifiers)),
        vec![WireEvent::Key { flags: 3, code: 0x1d }]
    );
}

#[test]
fn characters_are_sent_by_number() {
    let mut worker = RdpWorker::new();
    let down = remote(RemoteInput::KeyboardUnicode { codepoint: 0xac00, down: true });
    let up = remote(RemoteInput::KeyboardUnicode { codepoint: 0xac00, down: false });
    assert_eq!(
        sent(worker.handle_rdp_input(&down)),
        vec![WireEvent::Unicode { flags: 0, code: 0xac00 }]
    );
    assert_eq!(
        sent(worker.handle_rdp_input(&down)),
        vec![
            WireEvent::Unicode { flags: 1, code: 0xac00 },
            WireEvent::Unicode { flags: 0, code: 0xac00 }
        ]
    );
    assert_eq!(
        sent(worker.handle_rdp_input(&up)),
        vec![WireEvent::Unicode { flags: 1, code: 0xac00 }]
    );
    assert!(worker.handle_rdp_input(&up).is_empty());
    let half = remote(RemoteInput::KeyboardUnicode { codepoint: 0xd800, down: true });
    assert!(worker.handle_rdp_input(&half).is_empty());
}

#[test]
fn mouse_events_tell_the_place() {
    let mut worker = RdpWorker::new();
    let to = remote(RemoteInput::MouseMove { x: 5, y: 6 });
    assert_eq!(
        sent(worker.handle_rdp_input(&to)),
        vec![WireEvent::Mouse { flags: 0x0800, rotation_units: 0, x: 5, y: 6 }]
    );
    assert!(worker.handle_rdp_input(&to).is_empty());
    let buttons = [
        (RemoteMouseButton::Left, 0x1000),
        (RemoteMouseButton::Right, 0x2000),
        (RemoteMouseButton::Middle, 0x4000),
    ];
    for (button, flag) in buttons {
        let down = remote(RemoteInput::MouseButton { button, down: true });
        let up = remote(RemoteInput::MouseButton { button, down: false });
        assert!(worker.handle_rdp_input(&up).is_empty());
        assert_eq!(
            sent(worker.handle_rdp_input(&down)),
            vec![WireEvent::Mouse { flags: 0x8000 | flag, rotation_units: 0, x: 5, y: 6 }]
        );
        assert!(worker.handle_rdp_input(&down).is_empty());
        assert_eq!(
            sent(worker.handle_rdp_input(&up)),
            vec![WireEvent::Mouse { flags: flag, rotation_units: 0, x: 5, y: 6 }]
        );
    }
    assert_eq!(
        sent(worker.handle_rdp_input(&remote(RemoteInput::MouseWheel { delta: -120 }))),
        vec![WireEvent::Mouse { flags: 0x0200, rotation_units: -120, x: 5, y: 6 }]
    );
    assert_eq!(
        sent(worker.handle_rdp_input(&remote(RemoteInput::MouseHorizontalWheel { delta: 120 }))),
        vec![WireEvent::Mouse { flags: 0x0400, rotation_units: 120, x: 5, y: 6 }]
    );
}

#[test]
fn lock_keys_are_told() {
    let mut worker = RdpWorker::new();
    assert!(worker.reactivated().is_empty());
    for bits in 0..8u8 {
        let locks = KeyboardIndicators {
            scroll_lock: bits & 1 != 0,
            num_lock: bits & 2 != 0,
            caps_lock: bits & 4 != 0,
        };
        let told = worker.handle_rdp_input(&ConnectionInput::SyncKeyboardIndicators(locks));
        assert_eq!(sent(told), vec![WireEvent::Sync { flags: bits }]);
        assert_eq!(sent(worker.reactivated()), vec![WireEvent::Sync { flags: bits }]);
    }
    assert_eq!(
        sent(worker.handle_rdp_input(&key(0x48, false, true))),
        vec![WireEvent::Sync { flags: 7 }, WireEvent::Key { flags: 0, code: 0x48 }]
    );
}

#[test]
fn desktop_sizes_are_bounded() {
    let mut worker = RdpWorker::new();
    let actions = worker.handle_rdp_input(&ConnectionInput::Resize { cols: 10, rows: 9000 });
    assert!(matches!(actions[..], [RdpAction::Resize { width: 200, height: 8192 }]));
    assert!(worker.handle_rdp_input(&ConnectionInput::Data(vec![1])).is_empty());
}

const A: ScreenRect = ScreenRect { left: 1, top: 1, right: 1, bottom: 1 };
const B: ScreenRect = ScreenRect { left: 0, top: 1, right: 0, bottom: 1 };

#[test]
fn merged_rectangles_hold_both() {
    assert_eq!(merge_rect(A, B), ScreenRect { left: 0, top: 1, right: 1, bottom: 1 });
}

#[test]
fn rectangles_are_cut_out_of_the_image() {
    let image: Vec<u8> = (0..16).collect();
    let update = rect_update_from_image(&image, 8, 4, A).unwrap();
    assert_eq!(rect_of(&update), (1, 1, 1, 1, vec![12, 13, 14, 15]));
    assert!(rect_update_from_image(&image, 8, 3, A).is_none());
    assert!(rect_update_from_image(&image[..15], 8, 4, A).is_none());
}

fn shown(event: Option<ConnectionEvent>) -> Vec<(u16, u16, u16, u16, Vec<u8>)> {
    match event {
        Some(ConnectionEvent::Frames(updates)) => updates.iter().map(rect_of).collect(),
        other => panic!("{:?}", other),
    }
}

#[test]
fn changes_wait_for_the_next_frame() {
    let image: Vec<u8> = (0..16).collect();
    let mut worker = RdpWorker::new();
    let first = worker.graphics_update(A, 15, &image, 8, 4);
    assert!(first.event.is_none() && !first.restarts_timer);
    let second = worker.graphics_update(B, 16, &image, 8, 4);
    assert!(second.restarts_timer);
    assert_eq!(
        shown(second.event),
        vec![(0, 1, 2, 1, vec![8, 9, 10, 11, 12, 13, 14, 15])]
    );
    assert!(worker.end_round(60, &image, 8, 4).event.is_none());
    worker.graphics_update(A, 0, &image, 8, 4);
    assert!(worker.end_round(49, &image, 8, 4).event.is_none());
    let flushed = worker.end_round(50, &image, 8, 4);
    assert_eq!(shown(flushed.event), vec![(1, 1, 1, 1, vec![12, 13, 14, 15])]);
}

#[test]
fn unprocessed_frames() {
    let update = bitmap_update([0, 0, 0, 0], [1, 1], 32, 0, &[1, 2, 3, 0]);
    let frame = slow_path_frame(&update);
    assert_eq!(
        shown(unprocessed(true, &frame)),
        vec![(0, 0, 1, 1, vec![3, 2, 1, 255])]
    );
    assert!(unprocessed(false, &frame).is_none());
}

#[test]
fn messages_of_the_session() {
    let text = |bytes: Vec<u8>| String::from_utf8(bytes).unwrap();
    assert_eq!(
        text(connected_message("host", 3389, 1024, 768)),
        "\r\n[RDP] IronRDP handshake completed: server=host port=3389 desktop=1024x768\r\n"
    );
    assert_eq!(
        text(closed_message()),
        "\r\n[RDP] input channel closed; stopping RDP worker.\r\n"
    );
    let mut worker = RdpWorker::new();
    worker.pdu_read();
    worker.response_sent();
    assert_eq!((worker.processed_pdus, worker.response_frames), (1, 1));
    assert_eq!(
        text(worker.terminated("why")),
        "\r\n[RDP] terminated: why (pdus=1, updates=0, responses=1)\r\n"
    );
}
