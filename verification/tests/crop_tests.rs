use vp_link::crop::{crop_frame, plane_layout, FrameBuffer, PlaneLayout};
use vp_link::error::FrameError;
use vp_link::follow::CropWindow;

fn frame(w: u32, h: u32) -> Vec<u8> {
    (0..(w * h * 4)).map(|i| (i % 251) as u8).collect()
}

fn crop(data: &[u8], width: u32, height: u32, layout: PlaneLayout, window: CropWindow) -> Result<Vec<u8>, FrameError> {
    crop_frame(&FrameBuffer { data, width, height, layout }, window)
}

fn packed(w: u32) -> PlaneLayout {
    PlaneLayout { offset: 0, stride: w as u64 * 4 }
}

#[test]
fn full_frame_crop_reproduces_the_source() {
    let src = frame(7, 5);
    let out = crop(&src, 7, 5, packed(7), CropWindow { x: 0, y: 0, width: 7, height: 5 }).unwrap();
    assert_eq!(out, src);
}

#[test]
fn full_frame_crop_with_offset_reproduces_the_region() {
    let mut src = vec![0xEE; 13];
    src.extend(frame(4, 3));
    src.extend(vec![0xDD; 5]);
    let layout = PlaneLayout { offset: 13, stride: 16 };
    let out = crop(&src, 4, 3, layout, CropWindow { x: 0, y: 0, width: 4, height: 3 }).unwrap();
    assert_eq!(out, &src[13..13 + 48]);
}

#[test]
fn crop_copies_each_row_from_its_place() {
    let src = frame(6, 4);
    let w = CropWindow { x: 2, y: 1, width: 3, height: 2 };
    let out = crop(&src, 6, 4, packed(6), w).unwrap();
    assert_eq!(out.len(), 3 * 2 * 4);
    for r in 0..2usize {
        for c in 0..12usize {
            assert_eq!(out[r * 12 + c], src[(1 + r) * 24 + 2 * 4 + c]);
        }
    }
}

#[test]
fn crop_honours_stride_and_plane_offset() {
    // Rows of 2 pixels, padded to 12 bytes, after 3 bytes of header.
    let mut src = vec![9u8; 3];
    for row in 0..3u8 {
        for b in 0..8u8 {
            src.push(row * 16 + b);
        }
        src.extend([0xAA; 4]);
    }
    let layout = PlaneLayout { offset: 3, stride: 12 };
    let out = crop(&src, 2, 3, layout, CropWindow { x: 1, y: 1, width: 1, height: 2 }).unwrap();
    assert_eq!(out, vec![20, 21, 22, 23, 36, 37, 38, 39]);
}

#[test]
fn window_larger_than_frame_is_a_size_error() {
    let src = frame(4, 4);
    assert_eq!(
        crop(&src, 4, 4, packed(4), CropWindow { x: 0, y: 0, width: 5, height: 4 }),
        Err(FrameError::Size)
    );
    assert_eq!(
        crop(&src, 4, 4, packed(4), CropWindow { x: 0, y: 0, width: 4, height: 5 }),
        Err(FrameError::Size)
    );
}

#[test]
fn row_past_the_buffer_is_a_bounds_error() {
    let src = frame(4, 4);
    // One byte short.
    assert_eq!(
        crop(&src[..63], 4, 4, packed(4), CropWindow { x: 0, y: 0, width: 4, height: 4 }),
        Err(FrameError::Bounds)
    );
    // Window pushed off the frame.
    assert_eq!(
        crop(&src, 4, 4, packed(4), CropWindow { x: 0, y: 1, width: 4, height: 4 }),
        Err(FrameError::Bounds)
    );
    // Stride larger than the buffer allows.
    assert_eq!(
        crop(&src, 4, 4, PlaneLayout { offset: 0, stride: 17 }, CropWindow { x: 0, y: 0, width: 4, height: 4 }),
        Err(FrameError::Bounds)
    );
    // Offset past the end.
    assert_eq!(
        crop(&src, 4, 4, PlaneLayout { offset: u64::MAX, stride: u64::MAX }, CropWindow { x: 0, y: 0, width: 1, height: 1 }),
        Err(FrameError::Bounds)
    );
}

#[test]
fn window_within_buffer_but_across_rows_is_accepted() {
    // Nothing ties the window to the frame's width but the buffer itself.
    let src = frame(4, 4);
    let out = crop(&src, 4, 4, packed(4), CropWindow { x: 2, y: 0, width: 4, height: 3 }).unwrap();
    assert_eq!(&out[0..16], &src[8..24]);
    assert_eq!(&out[16..32], &src[24..40]);
}

#[test]
fn output_too_large_is_an_alloc_error() {
    let src = frame(1, 1);
    let w = CropWindow { x: 0, y: 0, width: u32::MAX, height: u32::MAX };
    assert_eq!(crop(&src, u32::MAX, u32::MAX, packed(1), w), Err(FrameError::Alloc));
}

#[test]
fn largest_buffer_is_isize_max_bytes() {
    let src = frame(1, 1);
    // Exactly one byte more than a buffer can hold.
    let w = CropWindow { x: 0, y: 0, width: 1 << 31, height: 1 << 30 };
    assert_eq!(crop(&src, 1 << 31, 1 << 30, packed(1), w), Err(FrameError::Alloc));
    // Four bytes less: the size is in order, and the rows do not fit.
    let w = CropWindow { x: 0, y: 0, width: (1 << 31) - 1, height: 1 << 30 };
    assert_eq!(crop(&src, 1 << 31, 1 << 30, packed(1), w), Err(FrameError::Bounds));
}

#[test]
fn size_is_checked_before_everything_else() {
    let w = CropWindow { x: 0, y: 0, width: u32::MAX, height: u32::MAX };
    assert_eq!(crop(&[], 1, 1, packed(1), w), Err(FrameError::Size));
}

#[test]
fn empty_window_is_empty() {
    let src = frame(2, 2);
    assert_eq!(crop(&src, 2, 2, packed(2), CropWindow { x: 0, y: 0, width: 2, height: 0 }), Ok(vec![]));
    assert_eq!(crop(&src, 2, 2, packed(2), CropWindow { x: 0, y: 0, width: 0, height: 2 }), Ok(vec![]));
    // Even an empty row has to start inside the buffer.
    assert_eq!(
        crop(&src, 2, 2, packed(2), CropWindow { x: 5, y: 1, width: 0, height: 1 }),
        Err(FrameError::Bounds)
    );
}

#[test]
fn layout_falls_back_to_packed_rows() {
    assert_eq!(plane_layout(None, None, 1920), PlaneLayout { offset: 0, stride: 7680 });
    assert_eq!(plane_layout(Some(64), Some(8192), 1920), PlaneLayout { offset: 64, stride: 8192 });
    assert_eq!(plane_layout(Some(64), Some(0), 1920), PlaneLayout { offset: 64, stride: 7680 });
    assert_eq!(plane_layout(None, Some(-4), 1920), PlaneLayout { offset: 0, stride: 7680 });
    assert_eq!(plane_layout(None, None, u32::MAX), PlaneLayout { offset: 0, stride: 17_179_869_180 });
}
