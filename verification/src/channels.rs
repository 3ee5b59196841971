//! The order of the channels of a pixel.

use vstd::prelude::*;

verus! {

/// In which order a texture holds the channels of a pixel.
#[derive(Clone, Copy, PartialEq, Eq, Structural, Debug)]
pub enum ChannelOrder {
    /// Red, green, blue, alpha.
    Rgba,
    /// Blue, green, red, alpha.
    Bgra,
}

impl ChannelOrder {
    /// Where a pixel has its channel `c`: red is 0, green 1, blue 2, alpha 3.
    pub open spec fn place(self, c: int) -> int {
        match self {
            ChannelOrder::Rgba => c,
            ChannelOrder::Bgra => if c == 0 || c == 2 {
                2 - c
            } else {
                c
            },
        }
    }
}

/// The formats of a texture, as far as they tell where a pixel has its channels.
#[derive(Clone, Copy, PartialEq, Eq, Structural, Debug)]
pub enum TextureFormat {
    Rgba8Unorm,
    Rgba8UnormSrgb,
    Bgra8Unorm,
    Bgra8UnormSrgb,
    /// A format without four channels of one byte each in either order.
    Other,
}

/// The order of the channels in a texture of this format, if it has four of one
/// byte each.
pub fn channel_order(format: TextureFormat) -> (order: Option<ChannelOrder>)
    ensures
        order == (match format {
            TextureFormat::Rgba8Unorm => Some(ChannelOrder::Rgba),
            TextureFormat::Rgba8UnormSrgb => Some(ChannelOrder::Rgba),
            TextureFormat::Bgra8Unorm => Some(ChannelOrder::Bgra),
            TextureFormat::Bgra8UnormSrgb => Some(ChannelOrder::Bgra),
            TextureFormat::Other => None::<ChannelOrder>,
        }),
{
    match format {
        TextureFormat::Rgba8Unorm | TextureFormat::Rgba8UnormSrgb => Some(ChannelOrder::Rgba),
        TextureFormat::Bgra8Unorm | TextureFormat::Bgra8UnormSrgb => Some(ChannelOrder::Bgra),
        TextureFormat::Other => None,
    }
}

/// The pixels of a frame with their channels in the order red, green, blue,
/// alpha.
pub open spec fn rgba_of(frame: Seq<u8>, order: ChannelOrder) -> Seq<u8> {
    match order {
        ChannelOrder::Rgba => frame,
        ChannelOrder::Bgra => Seq::new(
            frame.len(),
            |i: int|
                if i % 4 == 0 {
                    frame[i + 2]
                } else if i % 4 == 2 {
                    frame[i - 2]
                } else {
                    frame[i]
                },
        ),
    }
}

/// Brings the channels of every pixel into the order red, green, blue, alpha.
pub fn to_rgba(frame: Vec<u8>, order: ChannelOrder) -> (pixels: Vec<u8>)
    requires
        frame@.len() % 4 == 0,
    ensures
        pixels@ == rgba_of(frame@, order),
{
    match order {
        ChannelOrder::Rgba => frame,
        ChannelOrder::Bgra => {
            let ghost before = frame@;
            let ghost after = rgba_of(before, order);
            let mut pixels: Vec<u8> = frame;
            let len: usize = pixels.len();
            let mut i: usize = 0;
            while i < len
                invariant
                    after == rgba_of(before, ChannelOrder::Bgra),
                    before.len() == len,
                    pixels@.len() == len,
                    len % 4 == 0,
                    i % 4 == 0,
                    i <= len,
                    forall|j: int| 0 <= j < i ==> pixels@[j] == after[j],
                    forall|j: int| i <= j < len ==> pixels@[j] == before[j],
                decreases len - i,
            {
                let blue: u8 = pixels[i];
                let red: u8 = pixels[i + 2];
                pixels.set(i, red);
                pixels.set(i + 2, blue);
                i = i + 4;
            }
            assert(pixels@ =~= after);
            pixels
        },
    }
}

/// Red, green, blue and alpha of every pixel stand where they belong.
pub proof fn lemma_channels(frame: Seq<u8>, order: ChannelOrder, pixel: int, c: int)
    requires
        frame.len() % 4 == 0,
        0 <= pixel < frame.len() / 4,
        0 <= c < 4,
    ensures
        rgba_of(frame, order)[4 * pixel + c] == frame[4 * pixel + order.place(c)],
{
}

/// The order of the channels does not change how many bytes there are, and
/// exchanging red and blue twice changes nothing.
pub proof fn lemma_exchange_undoes_itself(frame: Seq<u8>, order: ChannelOrder)
    requires
        frame.len() % 4 == 0,
    ensures
        rgba_of(frame, order).len() == frame.len(),
        rgba_of(rgba_of(frame, order), order) == frame,
{
    assert(rgba_of(rgba_of(frame, order), order) =~= frame);
}

} // verus!
