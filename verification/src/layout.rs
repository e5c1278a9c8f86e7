//! The closed set of pixel layouts.

use vstd::prelude::*;

verus! {

/// The channels that make up one pixel, in the order in which they are stored.
#[derive(Debug, Clone, Copy, PartialEq, Eq, Hash, Structural)]
pub enum Composition {
    /// One channel: luminance.
    Luma,
    /// Two channels: luminance, alpha.
    LumaAlpha,
    /// Three channels: red, green, blue.
    Rgb,
    /// Four channels: red, green, blue, alpha.
    Rgba,
}

/// How one sample of a channel is represented.
#[derive(Debug, Clone, Copy, PartialEq, Eq, Hash, Structural)]
pub enum SampleKind {
    /// Unsigned 8-bit integer, 0 to 255.
    U8,
    /// Unsigned 16-bit integer, 0 to 65535.
    U16,
    /// 32-bit floating point, nominally 0 to 1. A sample of this kind is
    /// handled as its IEEE 754 bit pattern.
    F32,
}

/// A pixel layout: a channel composition together with a sample representation.
#[derive(Debug, Clone, Copy, PartialEq, Eq, PartialOrd, Ord, Hash, Structural)]
pub enum Format {
    /// Red, green, blue; 8 bits each.
    Rgb8,
    /// Red, green, blue, alpha; 8 bits each.
    Rgba8,
    /// Red, green, blue; 16 bits each.
    Rgb16,
    /// Red, green, blue, alpha; 16 bits each.
    Rgba16,
    /// Red, green, blue; a 32-bit float each.
    Rgb32f,
    /// Red, green, blue, alpha; a 32-bit float each.
    Rgba32f,
    /// Luminance; 8 bits.
    L8,
    /// Luminance, alpha; 8 bits each.
    La8,
    /// Luminance; 16 bits.
    L16,
    /// Luminance, alpha; 16 bits each.
    La16,
}

/// The bit pattern of the floating-point number one.
pub const ONE_BITS: u32 = 0x3f80_0000;

impl Composition {
    /// The number of channels of a pixel.
    pub open spec fn channels(self) -> nat {
        match self {
            Composition::Luma => 1,
            Composition::LumaAlpha => 2,
            Composition::Rgb => 3,
            Composition::Rgba => 4,
        }
    }

    /// Whether the last channel is alpha.
    pub open spec fn has_alpha(self) -> bool {
        self == Composition::LumaAlpha || self == Composition::Rgba
    }

    /// Whether the pixel holds red, green and blue rather than luminance.
    pub open spec fn has_color(self) -> bool {
        self == Composition::Rgb || self == Composition::Rgba
    }
}

impl SampleKind {
    /// The number of bytes that one sample takes.
    pub open spec fn bytes(self) -> nat {
        match self {
            SampleKind::U8 => 1,
            SampleKind::U16 => 2,
            SampleKind::F32 => 4,
        }
    }

    /// The sample that stands for full intensity, and for full opacity in an
    /// alpha channel.
    pub open spec fn max_value(self) -> int {
        match self {
            SampleKind::U8 => 255,
            SampleKind::U16 => 65535,
            SampleKind::F32 => ONE_BITS as int,
        }
    }
}

impl Format {
    /// The channel composition of the layout.
    pub open spec fn composition(self) -> Composition {
        match self {
            Format::L8 | Format::L16 => Composition::Luma,
            Format::La8 | Format::La16 => Composition::LumaAlpha,
            Format::Rgb8 | Format::Rgb16 | Format::Rgb32f => Composition::Rgb,
            Format::Rgba8 | Format::Rgba16 | Format::Rgba32f => Composition::Rgba,
        }
    }

    /// The sample representation of the layout.
    pub open spec fn kind(self) -> SampleKind {
        match self {
            Format::L8 | Format::La8 | Format::Rgb8 | Format::Rgba8 => SampleKind::U8,
            Format::L16 | Format::La16 | Format::Rgb16 | Format::Rgba16 => SampleKind::U16,
            Format::Rgb32f | Format::Rgba32f => SampleKind::F32,
        }
    }

    /// The number of samples of one pixel.
    pub open spec fn channels(self) -> nat {
        self.composition().channels()
    }

    /// The number of bytes of one pixel.
    pub open spec fn bytes_per_pixel(self) -> nat {
        self.channels() * self.kind().bytes()
    }

    /// The sample representation of the layout.
    pub fn sample_kind(&self) -> (k: SampleKind)
        ensures
            k == self.kind(),
    {
        match self {
            Format::L8 | Format::La8 | Format::Rgb8 | Format::Rgba8 => SampleKind::U8,
            Format::L16 | Format::La16 | Format::Rgb16 | Format::Rgba16 => SampleKind::U16,
            Format::Rgb32f | Format::Rgba32f => SampleKind::F32,
        }
    }

    /// The number of samples of one pixel.
    pub fn channel_count(&self) -> (n: u8)
        ensures
            n == self.channels(),
            1 <= n <= 4,
    {
        match self {
            Format::L8 | Format::L16 => 1,
            Format::La8 | Format::La16 => 2,
            Format::Rgb8 | Format::Rgb16 | Format::Rgb32f => 3,
            Format::Rgba8 | Format::Rgba16 | Format::Rgba32f => 4,
        }
    }

    /// The number of bytes of one pixel.
    pub fn pixel_bytes(&self) -> (n: u8)
        ensures
            n == self.bytes_per_pixel(),
            1 <= n <= 16,
    {
        match self {
            Format::L8 => 1,
            Format::La8 | Format::L16 => 2,
            Format::Rgb8 => 3,
            Format::Rgba8 | Format::La16 => 4,
            Format::Rgb16 => 6,
            Format::Rgba16 => 8,
            Format::Rgb32f => 12,
            Format::Rgba32f => 16,
        }
    }
}

/// A layout is determined by its composition and its sample representation:
/// no two layouts share both.
pub proof fn lemma_layout_determined(a: Format, b: Format)
    requires
        a.composition() == b.composition(),
        a.kind() == b.kind(),
    ensures
        a == b,
{
}

} // verus!
