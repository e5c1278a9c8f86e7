//! Sample sequences and decoded pixel buffers.

use vstd::prelude::*;
use crate::layout::Format;
use crate::layout::SampleKind;
use crate::model::ints_of_u16;
use crate::model::ints_of_u32;
use crate::model::ints_of_u8;
use crate::model::size_fits;
use crate::model::ImageView;

verus! {

/// A flat sequence of samples of one representation: what a buffer holds and
/// what a conversion hands out, one number for each channel of each pixel.
#[derive(Debug, PartialEq, Eq)]
pub enum Samples {
    /// 8-bit samples.
    U8(Vec<u8>),
    /// 16-bit samples.
    U16(Vec<u16>),
    /// Floating-point samples, each as its IEEE 754 bit pattern.
    F32(Vec<u32>),
}

impl View for Samples {
    type V = Seq<int>;

    /// The samples as integers, in order.
    open spec fn view(&self) -> Seq<int> {
        match *self {
            Samples::U8(v) => ints_of_u8(v@),
            Samples::U16(v) => ints_of_u16(v@),
            Samples::F32(v) => ints_of_u32(v@),
        }
    }
}

impl Clone for Samples {
    /// A copy of the samples.
    fn clone(&self) -> (c: Self)
        ensures
            c@ == self@,
            c.kind() == self.kind(),
    {
        match self {
            Samples::U8(v) => {
                let w = v.clone();
                assert(w@ =~= v@);
                Samples::U8(w)
            },
            Samples::U16(v) => {
                let w = v.clone();
                assert(w@ =~= v@);
                Samples::U16(w)
            },
            Samples::F32(v) => {
                let w = v.clone();
                assert(w@ =~= v@);
                Samples::F32(w)
            },
        }
    }
}

impl Samples {
    /// The representation of the samples.
    pub open spec fn kind(self) -> SampleKind {
        match self {
            Samples::U8(_) => SampleKind::U8,
            Samples::U16(_) => SampleKind::U16,
            Samples::F32(_) => SampleKind::F32,
        }
    }

    /// The representation of the samples.
    pub fn sample_kind(&self) -> (k: SampleKind)
        ensures
            k == self.kind(),
    {
        match self {
            Samples::U8(_) => SampleKind::U8,
            Samples::U16(_) => SampleKind::U16,
            Samples::F32(_) => SampleKind::F32,
        }
    }

    /// The number of samples.
    pub fn len(&self) -> (n: usize)
        ensures
            n == self@.len(),
    {
        match self {
            Samples::U8(v) => v.len(),
            Samples::U16(v) => v.len(),
            Samples::F32(v) => v.len(),
        }
    }
}

/// A decoded image: a buffer of integer samples in its native layout, with
/// its width and height in pixels.
///
/// Every value holds exactly one sample for each channel of each pixel, in
/// the representation of its layout, and is no larger than one allocation may
/// be.
#[derive(Debug)]
pub struct DecodedImage {
    layout: Format,
    width: u32,
    height: u32,
    samples: Samples,
}

/// The model of a buffer with the given parts.
pub open spec fn view_of(layout: Format, width: u32, height: u32, samples: Samples) -> ImageView {
    ImageView { layout, width: width as nat, height: height as nat, samples: samples@ }
}

/// Whether an image of the given width and height is a buffer that the
/// machine can hold in the layout `target`.
fn fits_in_memory(width: u32, height: u32, target: Format) -> (b: bool)
    ensures
        b == size_fits(width as nat, height as nat, target),
{
    let channels = target.channel_count();
    let bytes = target.pixel_bytes();
    assert(width * channels <= 0xffff_ffff * 4) by (nonlinear_arith)
        requires
            0 <= width <= 0xffff_ffff,
            0 <= channels <= 4,
    ;
    assert(width * height <= 0xffff_ffff * 0xffff_ffff) by (nonlinear_arith)
        requires
            0 <= width <= 0xffff_ffff,
            0 <= height <= 0xffff_ffff,
    ;
    assert((width * height) * bytes <= 0xffff_ffff * 0xffff_ffff * 16) by (nonlinear_arith)
        requires
            0 <= width * height <= 0xffff_ffff * 0xffff_ffff,
            0 <= bytes <= 16,
    ;
    let row: u64 = (width as u64) * (channels as u64);
    let size: u128 = (width as u128) * (height as u128) * (bytes as u128);
    row <= usize::MAX as u64 && size <= isize::MAX as u128
}

impl View for DecodedImage {
    type V = ImageView;

    closed spec fn view(&self) -> ImageView {
        view_of(self.layout, self.width, self.height, self.samples)
    }
}

impl Clone for DecodedImage {
    /// A copy of the image.
    fn clone(&self) -> (c: Self)
        ensures
            c@ == self@,
    {
        proof {
            use_type_invariant(self);
        }
        DecodedImage {
            layout: self.layout,
            width: self.width,
            height: self.height,
            samples: self.samples.clone(),
        }
    }
}

impl DecodedImage {
    #[verifier::type_invariant]
    spec fn inv(self) -> bool {
        &&& self@.wf()
        &&& self@.fits(self.layout)
        &&& self.samples.kind() == self.layout.kind()
    }

    /// A buffer of `width * height` pixels in the layout `layout` that holds
    /// `samples`, if they are one sample of the layout's representation for
    /// each channel of each pixel, and `None` if they are not: if the layout
    /// is a floating-point one, if the samples are of another representation
    /// than the layout's, or if their number is not that of the layout's
    /// channels times the pixels. `None` is also the answer for a width and
    /// height that no buffer of the machine can have.
    pub fn new(layout: Format, width: u32, height: u32, samples: Samples) -> (r: Option<
        DecodedImage,
    >)
        ensures
            r is Some <==> {
                &&& view_of(layout, width, height, samples).wf()
                &&& view_of(layout, width, height, samples).fits(layout)
                &&& samples.kind() == layout.kind()
            },
            r matches Some(img) ==> img@ == view_of(layout, width, height, samples),
    {
        let kind = layout.sample_kind();
        if kind == SampleKind::F32 || samples.sample_kind() != kind {
            return None;
        }
        let channels = layout.channel_count();
        assert(width * height <= 0xffff_ffff * 0xffff_ffff) by (nonlinear_arith)
            requires
                0 <= width <= 0xffff_ffff,
                0 <= height <= 0xffff_ffff,
        ;
        assert((width * height) * channels <= 0xffff_ffff * 0xffff_ffff * 4) by (nonlinear_arith)
            requires
                0 <= width * height <= 0xffff_ffff * 0xffff_ffff,
                0 <= channels <= 4,
        ;
        let expected: u128 = (width as u128) * (height as u128) * (channels as u128);
        if (samples.len() as u128) != expected {
            return None;
        }
        if !fits_in_memory(width, height, layout) {
            return None;
        }
        Some(DecodedImage { layout, width, height, samples })
    }

    /// The native layout of the buffer.
    pub fn layout(&self) -> (l: Format)
        ensures
            l == self@.layout,
    {
        self.layout
    }

    /// The width in pixels.
    pub fn width(&self) -> (w: u32)
        ensures
            w == self@.width,
    {
        self.width
    }

    /// The height in pixels.
    pub fn height(&self) -> (h: u32)
        ensures
            h == self@.height,
    {
        self.height
    }

    /// Whether the image converted to the layout `target` is a buffer that
    /// the machine can hold. In its own layout it is.
    pub fn fits(&self, target: Format) -> (b: bool)
        ensures
            b == self@.fits(target),
            target == self@.layout ==> b,
    {
        proof {
            use_type_invariant(self);
        }
        fits_in_memory(self.width, self.height, target)
    }

    /// The samples of the buffer, as they are.
    pub fn samples(&self) -> (s: &Samples)
        ensures
            s@ == self@.samples,
            s.kind() == self@.layout.kind(),
            self@.wf(),
            self@.fits(self@.layout),
    {
        proof {
            use_type_invariant(self);
        }
        &self.samples
    }

    /// Gives up the buffer for its samples, as they are.
    pub fn into_samples(self) -> (s: Samples)
        ensures
            s@ == self@.samples,
            s.kind() == self@.layout.kind(),
            self@.wf(),
            self@.fits(self@.layout),
    {
        proof {
            use_type_invariant(&self);
        }
        self.samples
    }
}

} // verus!
