use kterm::remote_display::display::{
    FrameUpdate, FullUploadPromotionReason, RemoteDisplayState, SourceNumbers,
};
use kterm::remote_display::pixels::{blit, crop};
use kterm::remote_display::renderer::{DirtyRect, RdpDisplayProgram};

fn rect(x: u16, y: u16, width: u16, height: u16, value: u8) -> FrameUpdate {
    let rgba = vec![value; 4 * width as usize * height as usize];
    FrameUpdate::Rect { x, y, width, height, rgba }
}

fn picture(width: u16, height: u16) -> RemoteDisplayState {
    RemoteDisplayState::new(&mut SourceNumbers::new(), width, height)
}

#[test]
fn new_pictures_have_new_numbers() {
    let mut numbers = SourceNumbers::new();
    let ids: Vec<u64> =
        (0..3).map(|_| RemoteDisplayState::new(&mut numbers, 1, 1).source_id).collect();
    assert_eq!(ids, vec![1, 2, 3]);
    let mut last = SourceNumbers { next: u64::MAX };
    assert_eq!(RemoteDisplayState::new(&mut last, 1, 1).source_id, u64::MAX);
    assert_eq!(last.next, 0);
}

#[test]
fn fresh_picture_waits_for_a_full_upload() {
    let d = RemoteDisplayState::new(&mut SourceNumbers { next: 7 }, 2, 3);
    assert_eq!(d.source_id, 7);
    assert_eq!(d.rgba.len(), 24);
    assert!(d.full_upload);
    assert!(!d.frame_ready);
    assert_eq!(d.frame_seq, 0);
}

#[test]
fn full_update_replaces_the_picture() {
    let mut d = picture(2, 2);
    d.apply(FrameUpdate::Full { width: 1, height: 1, rgba: vec![1, 2, 3, 4] });
    assert_eq!((d.width, d.height), (1, 1));
    assert_eq!(*d.rgba, vec![1, 2, 3, 4]);
    assert!(d.full_upload);
    assert_eq!(d.frame_seq, 1);
}

#[test]
fn rectangle_changes_only_its_pixels() {
    let mut d = picture(3, 2);
    d.apply(rect(1, 0, 1, 2, 9));
    let pixels: Vec<u8> = d.rgba.iter().step_by(4).copied().collect();
    assert_eq!(pixels, vec![0, 9, 0, 0, 9, 0]);
    assert!(!d.full_upload);
    assert_eq!(d.dirty_rects, vec![DirtyRect { x: 1, y: 0, width: 1, height: 2 }]);
    assert_eq!(crop(&d.rgba, 3, 1, 0, 1, 2), vec![9; 8]);
}

#[test]
fn rectangles_are_clipped_and_bad_ones_ignored() {
    let mut d = picture(2, 2);
    d.apply(FrameUpdate::Rect { x: 5, y: 0, width: 1, height: 1, rgba: vec![1; 4] });
    d.apply(FrameUpdate::Rect { x: 0, y: 0, width: 2, height: 2, rgba: vec![1; 3] });
    assert_eq!(d.frame_seq, 0);
    d.apply(rect(1, 1, 4, 4, 5));
    assert_eq!(d.dirty_rects, vec![DirtyRect { x: 1, y: 1, width: 1, height: 1 }]);
    assert_eq!(d.rgba[12], 5);
}

#[test]
fn first_batch_of_rectangles_is_uploaded_whole() {
    let mut d = picture(2, 2);
    let stats = d.apply_batch(vec![rect(0, 0, 1, 1, 1), rect(1, 1, 1, 1, 2)]);
    assert_eq!(stats.rect_count, 2);
    assert_eq!(stats.full_count, 0);
    assert_eq!(stats.forced_full_upload_reason, Some(FullUploadPromotionReason::Bootstrap));
    assert!(d.full_upload);
    assert!(d.dirty_rects.is_empty());
}

#[test]
fn large_batches_are_uploaded_whole() {
    let mut d = picture(2, 2);
    d.apply_batch(vec![FrameUpdate::Full { width: 2, height: 2, rgba: vec![0; 16] }]);
    let many: Vec<FrameUpdate> = (0..257).map(|_| rect(0, 0, 1, 1, 1)).collect();
    let stats = d.apply_batch(many);
    assert_eq!(stats.forced_full_upload_reason, Some(FullUploadPromotionReason::LargeRectBatch));
    assert!(d.full_upload);
    assert_eq!(FullUploadPromotionReason::Bootstrap.as_str(), "bootstrap");
    assert_eq!(FullUploadPromotionReason::LargeRectBatch.as_str(), "large_rect_batch");
}

#[test]
fn a_shared_picture_is_not_changed_behind_its_holder() {
    let mut d = picture(1, 1);
    let held = std::sync::Arc::clone(&d.rgba);
    d.apply(rect(0, 0, 1, 1, 7));
    assert_eq!(*held, vec![0; 4]);
    assert_eq!(*d.rgba, vec![7; 4]);
}

#[test]
fn written_pixels_read_back() {
    let mut image = vec![0u8; 4 * 3 * 3];
    let src: Vec<u8> = (1..=16).collect();
    blit(&mut image, 3, 1, 1, 2, 2, &src);
    assert_eq!(crop(&image, 3, 1, 1, 2, 2), src);
    assert_eq!(&image[..16], &[0u8; 16][..]);
}

#[test]
fn uploads_are_the_changed_rectangles() {
    let program = RdpDisplayProgram {
        frame: std::sync::Arc::new((0..16).collect()),
        tex_width: 2,
        tex_height: 2,
        dirty_rects: vec![DirtyRect { x: 1, y: 0, width: 1, height: 2 }],
        full_upload: false,
    };
    let frame = program.draw();
    let uploads = frame.uploads().unwrap();
    assert_eq!(uploads.len(), 1);
    assert_eq!(uploads[0].rgba, vec![4, 5, 6, 7, 12, 13, 14, 15]);
    assert!(frame.needs_texture(3, 2));
    assert!(!frame.needs_texture(2, 2));
    let whole = RdpDisplayProgram { full_upload: true, ..program };
    assert!(whole.draw().uploads().is_none());
}
