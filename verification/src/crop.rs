//! Frame cropper: the bytes of a crop window.
//!
//! A frame is a buffer of rows, four bytes to the pixel. A row starts
//! `stride` bytes after the row before, and the first row starts at the
//! plane offset. The cropper copies the window row by row into a buffer of
//! its own, which holds the rows back to back.

use vstd::prelude::*;
use vstd::slice::slice_subrange;
use crate::error::FrameError;
use crate::follow::CropWindow;

verus! {

/// How the rows of a frame lie in its buffer.
#[derive(Clone, Copy, Debug, PartialEq, Eq, Structural)]
pub struct PlaneLayout {
    /// Index of the first byte of the first row.
    pub offset: u64,
    /// Bytes from the start of one row to the start of the next.
    pub stride: u64,
}

/// A frame as it comes from capture: borrowed for as long as it is cropped.
#[derive(Clone, Copy, Debug)]
pub struct FrameBuffer<'a> {
    /// The pixel bytes.
    pub data: &'a [u8],
    /// Width in pixels.
    pub width: u32,
    /// Height in pixels.
    pub height: u32,
    /// Where the rows lie in `data`.
    pub layout: PlaneLayout,
}

/// Bytes in one row of a window `width` pixels wide.
pub open spec fn row_len(width: int) -> int {
    width * 4
}

/// Index in the source buffer of the first byte of row `row` of the window.
pub open spec fn row_start(layout: PlaneLayout, window: CropWindow, row: int) -> int {
    layout.offset + (window.y + row) * layout.stride + window.x * 4
}

/// The byte of the source that is byte `col` of row `row` of the window.
pub open spec fn source_byte(src: Seq<u8>, layout: PlaneLayout, window: CropWindow, row: int, col: int) -> u8 {
    src[row_start(layout, window, row) + col]
}

/// Whether every row of the window lies inside a buffer of `len` bytes.
pub open spec fn rows_fit(len: int, layout: PlaneLayout, window: CropWindow) -> bool {
    forall|row: int|
        0 <= row < window.height ==> #[trigger] row_start(layout, window, row) + row_len(window.width as int) <= len
}

/// The first `rows` rows of the window, back to back.
pub open spec fn cropped_rows(src: Seq<u8>, layout: PlaneLayout, window: CropWindow, rows: nat) -> Seq<u8>
    decreases rows,
{
    if rows == 0 {
        Seq::empty()
    } else {
        cropped_rows(src, layout, window, (rows - 1) as nat) + src.subrange(
            row_start(layout, window, rows - 1),
            row_start(layout, window, rows - 1) + row_len(window.width as int),
        )
    }
}

/// The whole window.
pub open spec fn cropped(src: Seq<u8>, layout: PlaneLayout, window: CropWindow) -> Seq<u8> {
    cropped_rows(src, layout, window, window.height as nat)
}

/// The layout that a frame's description gives: its offset, or 0 where it
/// names none; its stride where that is positive, else rows back to back.
pub open spec fn layout_of(offset: Option<u64>, stride: Option<i32>, src_w: u32) -> PlaneLayout {
    PlaneLayout {
        offset: match offset {
            Some(o) => o,
            None => 0,
        },
        stride: match stride {
            Some(s) if s > 0 => s as u64,
            _ => (src_w * 4) as u64,
        },
    }
}

/// What cropping gives: the window's bytes, or the first of three reasons
/// why there are none. No buffer holds more than `isize::MAX` bytes.
pub open spec fn crop_result(
    src: Seq<u8>,
    src_w: u32,
    src_h: u32,
    layout: PlaneLayout,
    window: CropWindow,
) -> Result<Seq<u8>, FrameError> {
    if src_w < window.width || src_h < window.height {
        Err(FrameError::Size)
    } else if window.width * window.height * 4 > isize::MAX {
        Err(FrameError::Alloc)
    } else if !rows_fit(src.len() as int, layout, window) {
        Err(FrameError::Bounds)
    } else {
        Ok(cropped(src, layout, window))
    }
}

/// The rows so far make up a whole number of rows, and each byte of them is
/// the byte of the source at the same place in the same row.
pub proof fn lemma_cropped_rows(src: Seq<u8>, layout: PlaneLayout, window: CropWindow, rows: nat)
    requires
        rows <= window.height,
        rows_fit(src.len() as int, layout, window),
    ensures
        cropped_rows(src, layout, window, rows).len() == rows * row_len(window.width as int),
        forall|row: int, col: int|
            0 <= row < rows && 0 <= col < row_len(window.width as int) ==> cropped_rows(
                src,
                layout,
                window,
                rows,
            )[row * row_len(window.width as int) + col] == #[trigger] source_byte(src, layout, window, row, col),
    decreases rows,
{
    let w = row_len(window.width as int);
    if rows > 0 {
        let before = (rows - 1) as nat;
        lemma_cropped_rows(src, layout, window, before);
        let start = row_start(layout, window, rows - 1);
        assert(start + w <= src.len());
        assert(rows * w == before * w + w) by (nonlinear_arith)
            requires
                rows == before + 1,
        ;
        assert forall|row: int, col: int| 0 <= row < rows && 0 <= col < w implies cropped_rows(
            src,
            layout,
            window,
            rows,
        )[row * w + col] == #[trigger] source_byte(src, layout, window, row, col) by {
            if row < before {
                assert(row * w + col < before * w) by (nonlinear_arith)
                    requires
                        0 <= row < before,
                        0 <= col < w,
                ;
            } else {
                assert(row * w == before * w);
            }
        }
    }
}

proof fn lemma_full_frame_rows(src: Seq<u8>, layout: PlaneLayout, window: CropWindow, rows: nat)
    requires
        window.x == 0,
        window.y == 0,
        layout.stride == row_len(window.width as int),
        layout.offset <= src.len(),
        rows <= window.height,
        rows_fit(src.len() as int, layout, window),
    ensures
        cropped_rows(src, layout, window, rows) == src.subrange(
            layout.offset as int,
            layout.offset + rows * row_len(window.width as int),
        ),
    decreases rows,
{
    let w = row_len(window.width as int);
    if rows > 0 {
        let before = (rows - 1) as nat;
        lemma_full_frame_rows(src, layout, window, before);
        let start = row_start(layout, window, rows - 1);
        assert(start + w <= src.len());
        assert(start == layout.offset + before * w) by (nonlinear_arith)
            requires
                start == layout.offset + (window.y + (rows - 1)) * layout.stride + window.x * 4,
                window.x == 0,
                window.y == 0,
                layout.stride == w,
                before == rows - 1,
        ;
        assert(rows * w == before * w + w) by (nonlinear_arith)
            requires
                rows == before + 1,
        ;
        assert(before * w >= 0) by (nonlinear_arith)
            requires
                before >= 0,
                w >= 0,
        ;
        assert(cropped_rows(src, layout, window, rows) =~= src.subrange(
            layout.offset as int,
            layout.offset + rows * w,
        ));
    } else {
        assert(rows * w == 0) by (nonlinear_arith)
            requires
                rows == 0,
        ;
        assert(cropped_rows(src, layout, window, rows) =~= src.subrange(
            layout.offset as int,
            layout.offset + rows * w,
        ));
    }
}

/// A window that covers a whole frame whose rows lie back to back is the
/// frame itself, byte for byte.
pub proof fn lemma_whole_frame(src: Seq<u8>, src_w: u32, src_h: u32, layout: PlaneLayout)
    requires
        layout.stride == row_len(src_w as int),
        layout.offset <= src.len(),
        crop_result(src, src_w, src_h, layout, CropWindow { x: 0, y: 0, width: src_w, height: src_h }) is Ok,
    ensures
        crop_result(src, src_w, src_h, layout, CropWindow { x: 0, y: 0, width: src_w, height: src_h }) == Ok::<
            Seq<u8>,
            FrameError,
        >(src.subrange(layout.offset as int, layout.offset + src_w * src_h * 4)),
{
    let window = CropWindow { x: 0, y: 0, width: src_w, height: src_h };
    lemma_full_frame_rows(src, layout, window, src_h as nat);
    assert(src_h * row_len(src_w as int) == src_w * src_h * 4) by (nonlinear_arith);
}

/// The layout of a frame from what its description says.
pub fn plane_layout(offset: Option<u64>, stride: Option<i32>, src_w: u32) -> (layout: PlaneLayout)
    ensures
        layout == layout_of(offset, stride, src_w),
{
    let offset: u64 = match offset {
        Some(o) => o,
        None => 0,
    };
    let packed: u64 = (src_w as u64) * 4;
    let stride: u64 = match stride {
        Some(s) => if s > 0 {
            s as u64
        } else {
            packed
        },
        None => packed,
    };
    PlaneLayout { offset, stride }
}

proof fn lemma_row_start(layout: PlaneLayout, window: CropWindow, row: int)
    requires
        0 <= row,
    ensures
        row_start(layout, window, row) == row_start(layout, window, 0) + row * layout.stride,
        0 <= row * layout.stride <= row * 0xffff_ffff_ffff_ffff,
        0 <= row_start(layout, window, 0) <= 0xffff_ffff_ffff_ffff + 0xffff_ffff * 0xffff_ffff_ffff_ffff + 0xffff_ffff
            * 4,
{
    let y = window.y as int;
    let st = layout.stride as int;
    assert((y + row) * st == y * st + row * st) by (nonlinear_arith);
    assert(0 <= row * st <= row * 0xffff_ffff_ffff_ffff) by (nonlinear_arith)
        requires
            0 <= row,
            0 <= st <= 0xffff_ffff_ffff_ffff,
    ;
    assert(0 <= y * st <= 0xffff_ffff * 0xffff_ffff_ffff_ffff) by (nonlinear_arith)
        requires
            0 <= y <= 0xffff_ffff,
            0 <= st <= 0xffff_ffff_ffff_ffff,
    ;
}

proof fn lemma_rows_rise(layout: PlaneLayout, window: CropWindow, a: int, b: int)
    requires
        0 <= a <= b,
    ensures
        row_start(layout, window, a) <= row_start(layout, window, b),
{
    lemma_row_start(layout, window, a);
    lemma_row_start(layout, window, b);
    let st = layout.stride as int;
    assert(a * st <= b * st) by (nonlinear_arith)
        requires
            0 <= a <= b,
            0 <= st,
    ;
}

/// Copies the window out of a frame.
///
/// The result holds the window's rows back to back, `window.width * 4` bytes
/// each. Nothing checks that the window lies inside the frame as its size is
/// given: what counts is that every row lies inside the buffer.
pub fn crop_frame(frame: &FrameBuffer, window: CropWindow) -> (r: Result<Vec<u8>, FrameError>)
    ensures
        match r {
            Ok(out) => crop_result(frame.data@, frame.width, frame.height, frame.layout, window) == Ok::<
                Seq<u8>,
                FrameError,
            >(out@),
            Err(e) => crop_result(frame.data@, frame.width, frame.height, frame.layout, window) == Err::<
                Seq<u8>,
                FrameError,
            >(e),
        },
        r matches Ok(out) ==> out@.len() == window.width * window.height * 4,
{
    let src: &[u8] = frame.data;
    let layout: PlaneLayout = frame.layout;
    if frame.width < window.width || frame.height < window.height {
        return Err(FrameError::Size);
    }
    let row_bytes: u64 = (window.width as u64) * 4;
    assert(0 <= row_bytes * window.height <= 0x3_ffff_fffc * 0xffff_ffff) by (nonlinear_arith)
        requires
            0 <= row_bytes <= 0x3_ffff_fffc,
            0 <= window.height <= 0xffff_ffff,
    ;
    assert(window.width * window.height * 4 == row_bytes * window.height) by (nonlinear_arith)
        requires
            row_bytes == window.width * 4,
    ;
    let total: u128 = (row_bytes as u128) * (window.height as u128);
    if total > isize::MAX as u128 {
        return Err(FrameError::Alloc);
    }
    let len: usize = src.len();
    if window.height == 0 {
        assert(total == 0) by (nonlinear_arith)
            requires
                total == row_bytes * window.height,
                window.height == 0,
        ;
        return Ok(Vec::new());
    }
    proof {
        lemma_row_start(layout, window, 0);
        lemma_row_start(layout, window, window.height - 1);
    }
    let first: u128 = layout.offset as u128 + (window.y as u128) * (layout.stride as u128) + (window.x as u128) * 4;
    let last_end: u128 = first + ((window.height - 1) as u128) * (layout.stride as u128) + row_bytes as u128;
    if last_end > len as u128 {
        return Err(FrameError::Bounds);
    }
    proof {
        assert forall|row: int| 0 <= row < window.height implies #[trigger] row_start(layout, window, row) + row_len(
            window.width as int,
        ) <= len by {
            lemma_rows_rise(layout, window, row, window.height - 1);
        }
        lemma_cropped_rows(src@, layout, window, window.height as nat);
    }
    let mut out: Vec<u8> = Vec::with_capacity(total as usize);
    let mut row: u32 = 0;
    while row < window.height
        invariant
            row <= window.height,
            len == src@.len(),
            row_bytes == row_len(window.width as int),
            first == row_start(layout, window, 0),
            rows_fit(len as int, layout, window),
            out@ == cropped_rows(src@, layout, window, row as nat),
        decreases window.height - row,
    {
        proof {
            lemma_row_start(layout, window, row as int);
            assert(row_start(layout, window, row as int) + row_bytes <= len);
        }
        let start: usize = (first + (row as u128) * (layout.stride as u128)) as usize;
        let ghost before = out@;
        out.extend_from_slice(slice_subrange(src, start, start + row_bytes as usize));
        assert(out@ =~= before + src@.subrange(start as int, start + row_bytes));
        row += 1;
    }
    Ok(out)
}

} // verus!
