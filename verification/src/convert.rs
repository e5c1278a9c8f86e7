//! Conversion of a decoded image to a requested layout.

use vstd::prelude::*;
use vstd::pervasive::unreached;
use image::DynamicImage;
use crate::backend;
use crate::backend::buffer_view;
use crate::buffer::DecodedImage;
use crate::buffer::Samples;
use crate::conversion::alpha_added_at;
use crate::conversion::converted;
use crate::conversion::lemma_same_layout_is_identity;
use crate::layout::Format;
use crate::model::ints_of_u32;

verus! {

impl DecodedImage {
    /// The same buffer as a value of the `image` crate.
    pub(crate) fn into_dynamic(self) -> (img: DynamicImage)
        ensures
            buffer_view(img) == self@,
            self@.wf(),
            self@.fits(self@.layout),
    {
        let layout = self.layout();
        let width = self.width();
        let height = self.height();
        match self.into_samples() {
            Samples::U8(v) => match layout {
                Format::L8 => backend::dynamic_luma8(width, height, v),
                Format::La8 => backend::dynamic_luma_alpha8(width, height, v),
                Format::Rgb8 => backend::dynamic_rgb8(width, height, v),
                _ => backend::dynamic_rgba8(width, height, v),
            },
            Samples::U16(v) => match layout {
                Format::L16 => backend::dynamic_luma16(width, height, v),
                Format::La16 => backend::dynamic_luma_alpha16(width, height, v),
                Format::Rgb16 => backend::dynamic_rgb16(width, height, v),
                _ => backend::dynamic_rgba16(width, height, v),
            },
            Samples::F32(_) => unreached(),
        }
    }
}

impl Format {
    /// Converts `img` to this layout and hands out the samples, top row
    /// first, left to right, the channels of a pixel next to each other.
    ///
    /// The pixels stay where they are. Each is given the channels of this
    /// layout: luminance is made from colour and colour from luminance, an
    /// alpha channel that the image has is kept or dropped as it is, one that
    /// it lacks is fully opaque. Each sample is carried over to the
    /// representation of this layout in proportion to its range. An image
    /// that has this layout already yields its samples unchanged.
    pub fn convert(&self, img: DecodedImage) -> (out: Samples)
        requires
            img@.fits(*self),
        ensures
            out.kind() == self.kind(),
            out@ == converted(*self, img@),
            out@.len() == img@.width * img@.height * self.channels(),
            *self == img@.layout ==> out@ == img@.samples,
            forall|i: int|
                0 <= i < out@.len() && alpha_added_at(
                    img@.layout.composition(),
                    self.composition(),
                    i,
                ) ==> #[trigger] out@[i] == self.kind().max_value(),
    {
        let ghost view = img@;
        let dynamic = img.into_dynamic();
        proof {
            if *self == view.layout {
                lemma_same_layout_is_identity(view);
            }
        }
        match self {
            Format::L8 => Samples::U8(backend::into_luma8(dynamic)),
            Format::La8 => Samples::U8(backend::into_luma_alpha8(dynamic)),
            Format::Rgb8 => Samples::U8(backend::into_rgb8(dynamic)),
            Format::Rgba8 => Samples::U8(backend::into_rgba8(dynamic)),
            Format::L16 => Samples::U16(backend::into_luma16(dynamic)),
            Format::La16 => Samples::U16(backend::into_luma_alpha16(dynamic)),
            Format::Rgb16 => Samples::U16(backend::into_rgb16(dynamic)),
            Format::Rgba16 => Samples::U16(backend::into_rgba16(dynamic)),
            Format::Rgb32f => {
                let bits = backend::into_rgb32f(dynamic);
                assert(ints_of_u32(bits@) =~= converted(*self, view));
                Samples::F32(bits)
            },
            Format::Rgba32f => {
                let bits = backend::into_rgba32f(dynamic);
                assert(ints_of_u32(bits@) =~= converted(*self, view));
                Samples::F32(bits)
            },
        }
    }
}

} // verus!
