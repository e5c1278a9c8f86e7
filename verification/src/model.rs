//! The mathematical model of a pixel buffer.

use vstd::prelude::*;
use crate::layout::Format;
use crate::layout::SampleKind;

verus! {

/// The samples of a sequence of bytes as integers.
pub open spec fn ints_of_u8(v: Seq<u8>) -> Seq<int> {
    v.map_values(|s: u8| s as int)
}

/// The samples of a sequence of 16-bit words as integers.
pub open spec fn ints_of_u16(v: Seq<u16>) -> Seq<int> {
    v.map_values(|s: u16| s as int)
}

/// The samples of a sequence of 32-bit words as integers.
pub open spec fn ints_of_u32(v: Seq<u32>) -> Seq<int> {
    v.map_values(|s: u32| s as int)
}

/// Whether an image of the given width and height in the layout `target` is
/// a buffer that the machine can hold: the samples of one row can be
/// counted, and all of them together are within the size that one
/// allocation can have.
pub open spec fn size_fits(width: nat, height: nat, target: Format) -> bool {
    &&& width * target.channels() <= usize::MAX
    &&& width * height * target.bytes_per_pixel() <= isize::MAX
}

/// A pixel buffer as a mathematical value: the samples of `width * height`
/// pixels, top row first, left to right within a row, the channels of one
/// pixel next to each other in the order of the layout.
pub struct ImageView {
    pub layout: Format,
    pub width: nat,
    pub height: nat,
    pub samples: Seq<int>,
}

impl ImageView {
    /// The number of pixels.
    pub open spec fn pixels(self) -> nat {
        self.width * self.height
    }

    /// Whether this image converted to the layout `target` is a buffer that
    /// the machine can hold.
    pub open spec fn fits(self, target: Format) -> bool {
        size_fits(self.width, self.height, target)
    }

    /// Whether the value is a buffer of integer samples: one sample for each
    /// channel of each pixel, each within the range of its representation.
    pub open spec fn wf(self) -> bool {
        &&& self.layout.kind() != SampleKind::F32
        &&& self.samples.len() == self.pixels() * self.layout.channels()
        &&& forall|i: int|
            0 <= i < self.samples.len() ==> 0 <= #[trigger] self.samples[i]
                <= self.layout.kind().max_value()
    }
}

} // verus!
