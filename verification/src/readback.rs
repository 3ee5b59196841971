//! Geometry of the buffer that a rendered frame is read back through.
//!
//! A texture is copied into a buffer row by row. Every row starts at a multiple
//! of 256 bytes, so a row is followed by padding unless its own length is such a
//! multiple. The frame that callers see has no padding.

use vstd::prelude::*;

verus! {

/// Bytes that the pixels of one row take, four channels each.
pub open spec fn row_bytes(width: nat) -> nat {
    4 * width
}

/// Distance between the starts of two rows: the length of a row, rounded up to
/// a multiple of 256.
pub open spec fn padded_row_bytes(width: nat) -> nat {
    256 * ((row_bytes(width) + 255) / 256)
}

/// Size of the buffer that holds all padded rows.
pub open spec fn readback_bytes(width: nat, height: nat) -> nat {
    padded_row_bytes(width) * height
}

/// Bytes of a frame without padding.
pub open spec fn frame_bytes(width: nat, height: nat) -> nat {
    row_bytes(width) * height
}

/// The sizes of frame that can be read back: all lengths are computed in 32 bits.
pub open spec fn fits(width: nat, height: nat) -> bool {
    &&& row_bytes(width) + 255 <= u32::MAX
    &&& readback_bytes(width, height) <= u32::MAX
}

/// How much of the buffer the rows take, up to the last byte of the last row.
pub open spec fn rows_end(width: nat, height: nat) -> nat {
    if height == 0 {
        0
    } else {
        padded_row_bytes(width) * ((height - 1) as nat) + row_bytes(width)
    }
}

/// The frame that `data` holds in padded rows: byte `k` of row `y` stands at
/// `y * padded_row_bytes(width) + k`.
pub open spec fn frame_of(data: Seq<u8>, width: nat, height: nat) -> Seq<u8> {
    Seq::new(
        frame_bytes(width, height),
        |i: int|
            data[(i / row_bytes(width) as int) * padded_row_bytes(width) + i % (row_bytes(
                width,
            ) as int)],
    )
}

/// The buffer that a frame is read back through.
#[derive(Clone, Copy, PartialEq, Eq, Structural, Debug)]
pub struct BufferPlan {
    pub size: u64,
    /// Whether textures are copied into the buffer.
    pub copy_dst: bool,
    /// Whether the buffer is mapped for reading.
    pub map_read: bool,
    pub mapped_at_creation: bool,
}

/// Which aspects of a texture are copied.
#[derive(Clone, Copy, PartialEq, Eq, Structural, Debug)]
pub enum TextureAspect {
    All,
    StencilOnly,
    DepthOnly,
}

/// The copy of a texture into the buffer.
#[derive(Clone, Copy, PartialEq, Eq, Debug)]
pub struct CopyPlan {
    pub mip_level: u32,
    /// First texel of the texture.
    pub origin: (u32, u32, u32),
    pub aspect: TextureAspect,
    /// First byte of the buffer.
    pub offset: u64,
    pub bytes_per_row: Option<u32>,
    pub rows_per_image: Option<u32>,
    /// Width, height and layers of what is copied.
    pub extent: (u32, u32, u32),
}

/// How a frame is read back.
#[derive(Clone, Copy, PartialEq, Eq, Debug)]
pub struct ReadbackPlan {
    pub buffer: BufferPlan,
    pub copy: CopyPlan,
}

impl ReadbackPlan {
    /// The plan of a frame of this size: the whole frame, from the start of the
    /// texture to the start of a buffer that holds all padded rows.
    pub open spec fn is_of(self, width: u32, height: u32) -> bool {
        &&& self.buffer.size == readback_bytes(width as nat, height as nat)
        &&& self.buffer.copy_dst && self.buffer.map_read && !self.buffer.mapped_at_creation
        &&& self.copy.mip_level == 0
        &&& self.copy.origin == (0u32, 0u32, 0u32)
        &&& self.copy.aspect == TextureAspect::All
        &&& self.copy.offset == 0
        &&& self.copy.bytes_per_row is Some
        &&& self.copy.bytes_per_row->0 == padded_row_bytes(width as nat)
        &&& self.copy.rows_per_image == Some(height)
        &&& self.copy.extent == (width, height, 1u32)
    }
}

/// Where the rows of a frame lie in its readback buffer.
pub struct ReadbackLayout {
    width: u32,
    height: u32,
    bytes_per_row: u32,
    padded_bytes_per_row: u32,
    buffer_size: u64,
}

impl View for ReadbackLayout {
    /// Width and height of the frame.
    type V = (u32, u32);

    closed spec fn view(&self) -> (u32, u32) {
        (self.width, self.height)
    }
}

impl ReadbackLayout {
    #[verifier::type_invariant]
    spec fn wf(self) -> bool {
        &&& fits(self.width as nat, self.height as nat)
        &&& self.bytes_per_row == row_bytes(self.width as nat)
        &&& self.padded_bytes_per_row == padded_row_bytes(self.width as nat)
        &&& self.buffer_size == readback_bytes(self.width as nat, self.height as nat)
    }

    /// Tells whether a frame of this size can be read back.
    pub fn fits(width: u32, height: u32) -> (r: bool)
        ensures
            r == fits(width as nat, height as nat),
    {
        let row: u64 = 4 * (width as u64);
        if row + 255 > u32::MAX as u64 {
            return false;
        }
        let padded: u64 = 256 * ((row + 255) / 256);
        assert(padded * height <= 0xffff_ffff * 0xffff_ffff) by (nonlinear_arith)
            requires
                0 <= padded <= 0xffff_ffff,
                0 <= height <= 0xffff_ffff,
        ;
        padded * (height as u64) <= u32::MAX as u64
    }

    /// Lays out the readback buffer of a frame.
    pub fn new(width: u32, height: u32) -> (layout: ReadbackLayout)
        requires
            fits(width as nat, height as nat),
        ensures
            layout@ == (width, height),
    {
        let bytes_per_row: u32 = width * 4;
        let padded_bytes_per_row: u32 = (bytes_per_row + 255) & !255;
        let ghost sum: u32 = (bytes_per_row + 255) as u32;
        assert(sum & !255u32 == 256 * (sum / 256)) by (bit_vector);
        let buffer_size: u64 = (padded_bytes_per_row * height) as u64;
        ReadbackLayout { width, height, bytes_per_row, padded_bytes_per_row, buffer_size }
    }

    /// Plans the readback of the frame.
    pub fn plan(&self) -> (plan: ReadbackPlan)
        ensures
            plan.is_of(self@.0, self@.1),
    {
        proof {
            use_type_invariant(self);
        }
        ReadbackPlan {
            buffer: BufferPlan {
                size: self.buffer_size,
                copy_dst: true,
                map_read: true,
                mapped_at_creation: false,
            },
            copy: CopyPlan {
                mip_level: 0,
                origin: (0, 0, 0),
                aspect: TextureAspect::All,
                offset: 0,
                bytes_per_row: Some(self.padded_bytes_per_row),
                rows_per_image: Some(self.height),
                extent: (self.width, self.height, 1),
            },
        }
    }

    /// Takes the frame out of the mapped buffer, leaving the padding behind.
    pub fn unpad(&self, data: &[u8]) -> (pixels: Vec<u8>)
        requires
            data@.len() >= rows_end(self@.0 as nat, self@.1 as nat),
        ensures
            pixels@ == frame_of(data@, self@.0 as nat, self@.1 as nat),
    {
        proof {
            use_type_invariant(self);
            lemma_padding(self.width as nat);
            lemma_frame_within_buffer(self.width as nat, self.height as nat);
        }
        let width: u32 = self.width;
        let height: u32 = self.height;
        let bytes_per_row: u32 = self.bytes_per_row;
        let padded_bytes_per_row: u32 = self.padded_bytes_per_row;
        let ghost w = width as nat;
        let ghost h = height as nat;
        proof {
            lemma_frame_bytes_by_pixels(w, h);
        }
        let mut rgba_data: Vec<u8> = Vec::with_capacity((width * height * 4) as usize);
        if padded_bytes_per_row != bytes_per_row {
            assert(rgba_data@ =~= frame_of(data@, w, 0));
            for y in 0..height
                invariant
                    fits(w, h),
                    h == height,
                    bytes_per_row == row_bytes(w),
                    padded_bytes_per_row == padded_row_bytes(w),
                    data@.len() >= rows_end(w, h),
                    rgba_data@ == frame_of(data@, w, y as nat),
            {
                proof {
                    lemma_row_within_rows(w, h, y as nat);
                    lemma_frame_within_buffer(w, h);
                    lemma_frame_push_row(data@, w, y as nat);
                }
                let row_start: usize = (y * padded_bytes_per_row) as usize;
                let row_end: usize = row_start + bytes_per_row as usize;
                rgba_data.extend_from_slice(&data[row_start..row_end]);
                assert(rgba_data@ =~= frame_of(data@, w, (y + 1) as nat));
            }
        } else {
            proof {
                lemma_tight_frame(data@, w, h);
            }
            rgba_data.extend_from_slice(&data[0..(width * height * 4) as usize]);
            assert(rgba_data@ =~= frame_of(data@, w, h));
        }
        rgba_data
    }
}

/// The distance between rows is a multiple of 256 that holds a row, with less
/// than 256 bytes of padding.
pub proof fn lemma_padding(width: nat)
    ensures
        padded_row_bytes(width) % 256 == 0,
        row_bytes(width) <= padded_row_bytes(width) < row_bytes(width) + 256,
{
}

/// No smaller multiple of 256 holds a row.
pub proof fn lemma_padding_is_least(width: nat, distance: nat)
    requires
        distance % 256 == 0,
        row_bytes(width) <= distance,
    ensures
        padded_row_bytes(width) <= distance,
{
}

/// Rows need no padding exactly where 64 divides the width.
pub proof fn lemma_tight_widths(width: nat)
    ensures
        padded_row_bytes(width) == row_bytes(width) <==> width % 64 == 0,
{
}

/// A frame has four bytes for each of its pixels.
pub proof fn lemma_frame_length(data: Seq<u8>, width: nat, height: nat)
    ensures
        frame_of(data, width, height).len() == width * height * 4,
{
    lemma_frame_bytes_by_pixels(width, height);
}

/// Channel `c` of the pixel in column `x` of row `y` comes from where the buffer
/// holds it.
pub proof fn lemma_pixel_position(
    data: Seq<u8>,
    width: nat,
    height: nat,
    x: int,
    y: int,
    c: int,
)
    requires
        0 <= x < width,
        0 <= y < height,
        0 <= c < 4,
    ensures
        0 <= 4 * (y * width + x) + c < frame_of(data, width, height).len(),
        frame_of(data, width, height)[4 * (y * width + x) + c] == data[y * padded_row_bytes(width)
            + 4 * x + c],
{
    let row = row_bytes(width) as int;
    let k = 4 * x + c;
    let i = 4 * (y * width + x) + c;
    assert(4 * (y * width + x) == row * y + 4 * x) by (nonlinear_arith)
        requires
            row == 4 * width,
    ;
    assert(row * y + row <= row * height && 0 <= row * y) by (nonlinear_arith)
        requires
            y + 1 <= height,
            0 <= row,
            0 <= y,
    ;
    assert(i / row == y && i % row == k) by (nonlinear_arith)
        requires
            i == row * y + k,
            0 <= k < row,
    ;
}

/// What is read back is what was copied. Where the buffer of the plan holds the
/// rows of a frame as the copy of the plan puts them, the frame taken out of it
/// is that frame, whatever stands in the padding.
pub proof fn lemma_readback_returns_frame(
    plan: ReadbackPlan,
    width: u32,
    height: u32,
    frame: Seq<u8>,
    data: Seq<u8>,
)
    requires
        plan.is_of(width, height),
        frame.len() == frame_bytes(width as nat, height as nat),
        data.len() == plan.buffer.size,
        forall|y: int, k: int|
            0 <= y < height && 0 <= k < row_bytes(width as nat)
                ==> #[trigger] data[plan.copy.offset + y * plan.copy.bytes_per_row->0 + k]
                == frame[y * row_bytes(width as nat) + k],
    ensures
        data.len() >= rows_end(width as nat, height as nat),
        frame_of(data, width as nat, height as nat) == frame,
{
    lemma_frame_within_buffer(width as nat, height as nat);
    let row = row_bytes(width as nat) as int;
    let read = frame_of(data, width as nat, height as nat);
    assert forall|i: int| 0 <= i < frame.len() implies read[i] == frame[i] by {
        assert(row > 0) by (nonlinear_arith)
            requires
                0 <= i < row * height,
                row >= 0,
                height >= 0,
        ;
        let y = i / row;
        let k = i % row;
        assert(0 <= y < height && 0 <= k < row && y * row + k == i) by (nonlinear_arith)
            requires
                row > 0,
                0 <= i < row * height,
                y == i / row,
                k == i % row,
        ;
        assert(data[plan.copy.offset + y * plan.copy.bytes_per_row->0 + k] == frame[y * row + k]);
    }
    assert(read =~= frame);
}

/// The copy of a plan stays within its buffer: rows start at multiples of 256,
/// do not overlap, and end before the buffer does.
pub proof fn lemma_copy_within_buffer(plan: ReadbackPlan, width: u32, height: u32, y: u32)
    requires
        plan.is_of(width, height),
        y < height,
    ensures
        (plan.copy.offset + y * plan.copy.bytes_per_row->0) % 256 == 0,
        plan.copy.offset + y * plan.copy.bytes_per_row->0 + row_bytes(width as nat)
            <= plan.copy.offset + (y + 1) * plan.copy.bytes_per_row->0 <= plan.buffer.size,
{
    let padded = padded_row_bytes(width as nat) as int;
    let n = (row_bytes(width as nat) + 255) / 256;
    lemma_padding(width as nat);
    assert(y * padded == 256 * (y * n)) by (nonlinear_arith)
        requires
            padded == 256 * n,
    ;
    assert((y + 1) * padded == y * padded + padded) by (nonlinear_arith);
    assert((y + 1) * padded <= padded * height) by (nonlinear_arith)
        requires
            y + 1 <= height,
            0 <= padded,
    ;
}

/// The frame is no longer than the rows with their padding, and no row reaches
/// past the end of the buffer.
pub proof fn lemma_frame_within_buffer(width: nat, height: nat)
    ensures
        frame_bytes(width, height) <= rows_end(width, height) <= readback_bytes(width, height),
{
    lemma_padding(width);
    let row = row_bytes(width) as int;
    let padded = padded_row_bytes(width) as int;
    if height > 0 {
        let h = height as int;
        assert(row * h == row * (h - 1) + row) by (nonlinear_arith);
        assert(padded * h == padded * (h - 1) + padded) by (nonlinear_arith);
        assert(row * (h - 1) <= padded * (h - 1)) by (nonlinear_arith)
            requires
                row <= padded,
                h >= 1,
        ;
    }
}

proof fn lemma_frame_bytes_by_pixels(width: nat, height: nat)
    ensures
        width * height * 4 == frame_bytes(width, height),
        width * height <= frame_bytes(width, height),
{
    assert(width * height * 4 == (4 * width) * height) by (nonlinear_arith);
    assert(0 <= width * height) by (nonlinear_arith);
}

/// Row `y` of `height` lies before the end of the rows.
proof fn lemma_row_within_rows(width: nat, height: nat, y: nat)
    requires
        y < height,
    ensures
        y * padded_row_bytes(width) + row_bytes(width) <= rows_end(width, height),
{
    let padded = padded_row_bytes(width);
    assert(y * padded <= padded * (height - 1)) by (nonlinear_arith)
        requires
            y <= height - 1,
            0 <= padded,
    ;
}

/// One more row of the frame is one more row of the buffer, without its padding.
proof fn lemma_frame_push_row(data: Seq<u8>, width: nat, y: nat)
    requires
        data.len() >= y * padded_row_bytes(width) + row_bytes(width),
    ensures
        frame_of(data, width, y + 1) == frame_of(data, width, y) + data.subrange(
            (y * padded_row_bytes(width)) as int,
            (y * padded_row_bytes(width) + row_bytes(width)) as int,
        ),
{
    let row = row_bytes(width) as int;
    let start = (y * padded_row_bytes(width)) as int;
    let longer = frame_of(data, width, y + 1);
    let shorter = frame_of(data, width, y);
    assert(row * (y + 1) == row * y + row) by (nonlinear_arith);
    assert(0 <= start) by (nonlinear_arith)
        requires
            start == y * padded_row_bytes(width),
    ;
    assert forall|i: int| row * y <= i < row * (y + 1) implies longer[i] == data[start + (i - row
        * y)] by {
        assert(i / row == y && i % row == i - row * y) by (nonlinear_arith)
            requires
                row * y <= i < row * y + row,
        ;
    }
    assert(longer =~= shorter + data.subrange(start, start + row));
}

/// Without padding the frame is what the buffer starts with.
proof fn lemma_tight_frame(data: Seq<u8>, width: nat, height: nat)
    requires
        padded_row_bytes(width) == row_bytes(width),
        data.len() >= frame_bytes(width, height),
    ensures
        frame_of(data, width, height) == data.take(frame_bytes(width, height) as int),
{
    let row = row_bytes(width) as int;
    let frame = frame_of(data, width, height);
    assert forall|i: int| 0 <= i < frame.len() implies frame[i] == data[i] by {
        assert(row > 0) by (nonlinear_arith)
            requires
                0 <= i < row * height,
                row >= 0,
        ;
        assert((i / row) * row + i % row == i) by (nonlinear_arith)
            requires
                row > 0,
        ;
    }
    assert(frame =~= data.take(frame_bytes(width, height) as int));
}

} // verus!
