//! What the graphics device does with a plan: a model of the copy from a texture
//! into a buffer, of when the device allows it, and of when it allows the buffer to
//! be mapped.

use vstd::prelude::*;

use crate::readback::BufferPlan;
use crate::readback::CopyPlan;
use crate::readback::TextureAspect;

verus! {

/// A texture of one level and one layer, with four bytes to a texel.
pub struct DeviceTexture {
    pub width: nat,
    pub height: nat,
    /// The bytes of the texel of a level and layer in a column and row.
    pub texel: spec_fn(int, int, int, int) -> Seq<u8>,
}

/// Where in the buffer a copy puts byte `k` of the texel in column `x` and row `y`
/// of what it copies.
pub open spec fn copied_to(copy: CopyPlan, x: int, y: int, k: int) -> int {
    copy.offset + y * copy.bytes_per_row->0 + 4 * x + k
}

/// A copy of this plan turns the bytes `before` of its buffer into `after`: it
/// writes the texels of its region, and nothing else.
pub open spec fn copies(
    copy: CopyPlan,
    texture: DeviceTexture,
    before: Seq<u8>,
    after: Seq<u8>,
) -> bool {
    &&& after.len() == before.len()
    &&& forall|x: int, y: int, k: int|
        0 <= x < copy.extent.0 && 0 <= y < copy.extent.1 && 1 <= copy.extent.2 && 0 <= k < 4
            ==> after[#[trigger] copied_to(copy, x, y, k)] == (texture.texel)(
            copy.mip_level as int,
            copy.origin.2 as int,
            copy.origin.0 + x,
            copy.origin.1 + y,
        )[k]
    &&& forall|i: int|
        0 <= i < before.len() && (forall|x: int, y: int, k: int|
            0 <= x < copy.extent.0 && 0 <= y < copy.extent.1 && 1 <= copy.extent.2 && 0 <= k < 4
                ==> i != #[trigger] copied_to(copy, x, y, k)) ==> #[trigger] after[i] == before[i]
}

/// The device allows the copy of a texture into a buffer: the buffer takes copies
/// and is not mapped, the region lies within the texture, every row starts at a
/// multiple of 256 bytes after the one before has ended, and the last row ends
/// within the buffer.
pub open spec fn allows_copy(buffer: BufferPlan, copy: CopyPlan, texture: DeviceTexture) -> bool {
    &&& buffer.copy_dst
    &&& !buffer.mapped_at_creation
    &&& copy.aspect == TextureAspect::All
    &&& copy.mip_level < 1
    &&& copy.origin.0 + copy.extent.0 <= texture.width
    &&& copy.origin.1 + copy.extent.1 <= texture.height
    &&& copy.origin.2 + copy.extent.2 <= 1
    &&& copy.offset % 4 == 0
    &&& copy.bytes_per_row is Some
    &&& copy.bytes_per_row->0 % 256 == 0
    &&& 4 * copy.extent.0 <= copy.bytes_per_row->0
    &&& copy.rows_per_image is Some
    &&& copy.extent.1 <= copy.rows_per_image->0
    &&& copy.extent.1 > 0 ==> copy.offset + copy.bytes_per_row->0 * (copy.extent.1 - 1) + 4
        * copy.extent.0 <= buffer.size
}

/// The device allows the buffer to be mapped for reading.
pub open spec fn allows_read(buffer: BufferPlan) -> bool {
    buffer.map_read
}

} // verus!
