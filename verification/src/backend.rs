//! The calls into the `image` crate, which does the conversions.
//!
//! Nothing in this file is proved. Each contract states what the source of
//! `image` 0.24 shows of the function that the body calls: `DynamicImage`
//! in `dynimage.rs`, `ImageBuffer` in `buffer.rs`, and the conversion of one
//! pixel in the impls of `FromColor` and `FromPrimitive` in `color.rs`.

use vstd::prelude::*;
use image::DynamicImage;
use image::ImageBuffer;
use crate::conversion::alpha_added_at;
use crate::conversion::converted;
use crate::conversion::source_value;
use crate::layout::Composition;
use crate::layout::Format;
use crate::layout::SampleKind;
use crate::layout::ONE_BITS;
use crate::model::ints_of_u16;
use crate::model::ints_of_u32;
use crate::model::ints_of_u8;
use crate::model::ImageView;

verus! {

/// `image::DynamicImage`: a pixel buffer in one of ten layouts.
#[verifier::external_type_specification]
#[verifier::external_body]
pub struct ExDynamicImage(DynamicImage);

/// The layout of a `DynamicImage`: which of its variants it is.
pub uninterp spec fn buffer_layout(img: DynamicImage) -> Format;

/// The width of a `DynamicImage` in pixels.
pub uninterp spec fn buffer_width(img: DynamicImage) -> nat;

/// The height of a `DynamicImage` in pixels.
pub uninterp spec fn buffer_height(img: DynamicImage) -> nat;

/// The samples that a `DynamicImage` holds, in the order of its raw buffer.
pub uninterp spec fn buffer_samples(img: DynamicImage) -> Seq<int>;

/// The bit pattern of the float that `image` makes of an 8-bit sample: the
/// sample divided by 255, in single precision.
pub uninterp spec fn unit_from_u8(s: int) -> int;

/// The bit pattern of the float that `image` makes of a 16-bit sample: the
/// sample divided by 65535, in single precision.
pub uninterp spec fn unit_from_u16(s: int) -> int;

/// What a `DynamicImage` holds, as one value.
pub open spec fn buffer_view(img: DynamicImage) -> ImageView {
    ImageView {
        layout: buffer_layout(img),
        width: buffer_width(img),
        height: buffer_height(img),
        samples: buffer_samples(img),
    }
}

/// `ImageBuffer::from_raw` for pixels of one byte, and the variant
/// `DynamicImage::ImageLuma8`: the image of the given size whose raw buffer
/// is `samples`. `from_raw` gives `None` only where the samples of a row or
/// of the image cannot be counted or the buffer is too short, which
/// `requires` rules out.
#[verifier::external_body]
pub(crate) fn dynamic_luma8(width: u32, height: u32, samples: Vec<u8>) -> (img: DynamicImage)
    requires
        width * 1 <= usize::MAX,
        samples.len() == width * height * 1,
    ensures
        buffer_layout(img) == Format::L8,
        buffer_width(img) == width,
        buffer_height(img) == height,
        buffer_samples(img) == ints_of_u8(samples@),
{
    DynamicImage::ImageLuma8(ImageBuffer::from_raw(width, height, samples).unwrap())
}

/// `ImageBuffer::from_raw` for pixels of two bytes, and the variant
/// `DynamicImage::ImageLumaA8`: the image of the given size whose raw buffer
/// is `samples`. `from_raw` gives `None` only where the samples of a row or
/// of the image cannot be counted or the buffer is too short, which
/// `requires` rules out.
#[verifier::external_body]
pub(crate) fn dynamic_luma_alpha8(width: u32, height: u32, samples: Vec<u8>) -> (img: DynamicImage)
    requires
        width * 2 <= usize::MAX,
        samples.len() == width * height * 2,
    ensures
        buffer_layout(img) == Format::La8,
        buffer_width(img) == width,
        buffer_height(img) == height,
        buffer_samples(img) == ints_of_u8(samples@),
{
    DynamicImage::ImageLumaA8(ImageBuffer::from_raw(width, height, samples).unwrap())
}

/// `ImageBuffer::from_raw` for pixels of three bytes, and the variant
/// `DynamicImage::ImageRgb8`: the image of the given size whose raw buffer
/// is `samples`. `from_raw` gives `None` only where the samples of a row or
/// of the image cannot be counted or the buffer is too short, which
/// `requires` rules out.
#[verifier::external_body]
pub(crate) fn dynamic_rgb8(width: u32, height: u32, samples: Vec<u8>) -> (img: DynamicImage)
    requires
        width * 3 <= usize::MAX,
        samples.len() == width * height * 3,
    ensures
        buffer_layout(img) == Format::Rgb8,
        buffer_width(img) == width,
        buffer_height(img) == height,
        buffer_samples(img) == ints_of_u8(samples@),
{
    DynamicImage::ImageRgb8(ImageBuffer::from_raw(width, height, samples).unwrap())
}

/// `ImageBuffer::from_raw` for pixels of four bytes, and the variant
/// `DynamicImage::ImageRgba8`: the image of the given size whose raw buffer
/// is `samples`. `from_raw` gives `None` only where the samples of a row or
/// of the image cannot be counted or the buffer is too short, which
/// `requires` rules out.
#[verifier::external_body]
pub(crate) fn dynamic_rgba8(width: u32, height: u32, samples: Vec<u8>) -> (img: DynamicImage)
    requires
        width * 4 <= usize::MAX,
        samples.len() == width * height * 4,
    ensures
        buffer_layout(img) == Format::Rgba8,
        buffer_width(img) == width,
        buffer_height(img) == height,
        buffer_samples(img) == ints_of_u8(samples@),
{
    DynamicImage::ImageRgba8(ImageBuffer::from_raw(width, height, samples).unwrap())
}

/// `ImageBuffer::from_raw` for pixels of one 16-bit word, and the variant
/// `DynamicImage::ImageLuma16`: the image of the given size whose raw buffer
/// is `samples`. `from_raw` gives `None` only where the samples of a row or
/// of the image cannot be counted or the buffer is too short, which
/// `requires` rules out.
#[verifier::external_body]
pub(crate) fn dynamic_luma16(width: u32, height: u32, samples: Vec<u16>) -> (img: DynamicImage)
    requires
        width * 1 <= usize::MAX,
        samples.len() == width * height * 1,
    ensures
        buffer_layout(img) == Format::L16,
        buffer_width(img) == width,
        buffer_height(img) == height,
        buffer_samples(img) == ints_of_u16(samples@),
{
    DynamicImage::ImageLuma16(ImageBuffer::from_raw(width, height, samples).unwrap())
}

/// `ImageBuffer::from_raw` for pixels of two 16-bit words, and the variant
/// `DynamicImage::ImageLumaA16`: the image of the given size whose raw buffer
/// is `samples`. `from_raw` gives `None` only where the samples of a row or
/// of the image cannot be counted or the buffer is too short, which
/// `requires` rules out.
#[verifier::external_body]
pub(crate) fn dynamic_luma_alpha16(width: u32, height: u32, samples: Vec<u16>) -> (img: DynamicImage)
    requires
        width * 2 <= usize::MAX,
        samples.len() == width * height * 2,
    ensures
        buffer_layout(img) == Format::La16,
        buffer_width(img) == width,
        buffer_height(img) == height,
        buffer_samples(img) == ints_of_u16(samples@),
{
    DynamicImage::ImageLumaA16(ImageBuffer::from_raw(width, height, samples).unwrap())
}

/// `ImageBuffer::from_raw` for pixels of three 16-bit words, and the variant
/// `DynamicImage::ImageRgb16`: the image of the given size whose raw buffer
/// is `samples`. `from_raw` gives `None` only where the samples of a row or
/// of the image cannot be counted or the buffer is too short, which
/// `requires` rules out.
#[verifier::external_body]
pub(crate) fn dynamic_rgb16(width: u32, height: u32, samples: Vec<u16>) -> (img: DynamicImage)
    requires
        width * 3 <= usize::MAX,
        samples.len() == width * height * 3,
    ensures
        buffer_layout(img) == Format::Rgb16,
        buffer_width(img) == width,
        buffer_height(img) == height,
        buffer_samples(img) == ints_of_u16(samples@),
{
    DynamicImage::ImageRgb16(ImageBuffer::from_raw(width, height, samples).unwrap())
}

/// `ImageBuffer::from_raw` for pixels of four 16-bit words, and the variant
/// `DynamicImage::ImageRgba16`: the image of the given size whose raw buffer
/// is `samples`. `from_raw` gives `None` only where the samples of a row or
/// of the image cannot be counted or the buffer is too short, which
/// `requires` rules out.
#[verifier::external_body]
pub(crate) fn dynamic_rgba16(width: u32, height: u32, samples: Vec<u16>) -> (img: DynamicImage)
    requires
        width * 4 <= usize::MAX,
        samples.len() == width * height * 4,
    ensures
        buffer_layout(img) == Format::Rgba16,
        buffer_width(img) == width,
        buffer_height(img) == height,
        buffer_samples(img) == ints_of_u16(samples@),
{
    DynamicImage::ImageRgba16(ImageBuffer::from_raw(width, height, samples).unwrap())
}

/// `DynamicImage::into_luma8` and `ImageBuffer::into_raw`: the raw buffer of the
/// image converted to one 8-bit channel. An image that has this layout already is
/// handed back as it is; any other is converted pixel by pixel into a new
/// buffer, which `requires` keeps within what can be counted and allocated.
#[verifier::external_body]
pub(crate) fn into_luma8(img: DynamicImage) -> (out: Vec<u8>)
    requires
        buffer_view(img).wf(),
        buffer_view(img).fits(Format::L8),
    ensures
        ints_of_u8(out@) == converted(Format::L8, buffer_view(img)),
{
    img.into_luma8().into_raw()
}

/// `DynamicImage::into_luma_alpha8` and `ImageBuffer::into_raw`: the raw buffer of the
/// image converted to two 8-bit channels. An image that has this layout already is
/// handed back as it is; any other is converted pixel by pixel into a new
/// buffer, which `requires` keeps within what can be counted and allocated.
#[verifier::external_body]
pub(crate) fn into_luma_alpha8(img: DynamicImage) -> (out: Vec<u8>)
    requires
        buffer_view(img).wf(),
        buffer_view(img).fits(Format::La8),
    ensures
        ints_of_u8(out@) == converted(Format::La8, buffer_view(img)),
{
    img.into_luma_alpha8().into_raw()
}

/// `DynamicImage::into_rgb8` and `ImageBuffer::into_raw`: the raw buffer of the
/// image converted to three 8-bit channels. An image that has this layout already is
/// handed back as it is; any other is converted pixel by pixel into a new
/// buffer, which `requires` keeps within what can be counted and allocated.
#[verifier::external_body]
pub(crate) fn into_rgb8(img: DynamicImage) -> (out: Vec<u8>)
    requires
        buffer_view(img).wf(),
        buffer_view(img).fits(Format::Rgb8),
    ensures
        ints_of_u8(out@) == converted(Format::Rgb8, buffer_view(img)),
{
    img.into_rgb8().into_raw()
}

/// `DynamicImage::into_rgba8` and `ImageBuffer::into_raw`: the raw buffer of the
/// image converted to four 8-bit channels. An image that has this layout already is
/// handed back as it is; any other is converted pixel by pixel into a new
/// buffer, which `requires` keeps within what can be counted and allocated.
#[verifier::external_body]
pub(crate) fn into_rgba8(img: DynamicImage) -> (out: Vec<u8>)
    requires
        buffer_view(img).wf(),
        buffer_view(img).fits(Format::Rgba8),
    ensures
        ints_of_u8(out@) == converted(Format::Rgba8, buffer_view(img)),
{
    img.into_rgba8().into_raw()
}

/// `DynamicImage::into_luma16` and `ImageBuffer::into_raw`: the raw buffer of the
/// image converted to one 16-bit channel. An image that has this layout already is
/// handed back as it is; any other is converted pixel by pixel into a new
/// buffer, which `requires` keeps within what can be counted and allocated.
#[verifier::external_body]
pub(crate) fn into_luma16(img: DynamicImage) -> (out: Vec<u16>)
    requires
        buffer_view(img).wf(),
        buffer_view(img).fits(Format::L16),
    ensures
        ints_of_u16(out@) == converted(Format::L16, buffer_view(img)),
{
    img.into_luma16().into_raw()
}

/// `DynamicImage::into_luma_alpha16` and `ImageBuffer::into_raw`: the raw buffer of the
/// image converted to two 16-bit channels. An image that has this layout already is
/// handed back as it is; any other is converted pixel by pixel into a new
/// buffer, which `requires` keeps within what can be counted and allocated.
#[verifier::external_body]
pub(crate) fn into_luma_alpha16(img: DynamicImage) -> (out: Vec<u16>)
    requires
        buffer_view(img).wf(),
        buffer_view(img).fits(Format::La16),
    ensures
        ints_of_u16(out@) == converted(Format::La16, buffer_view(img)),
{
    img.into_luma_alpha16().into_raw()
}

/// `DynamicImage::into_rgb16` and `ImageBuffer::into_raw`: the raw buffer of the
/// image converted to three 16-bit channels. An image that has this layout already is
/// handed back as it is; any other is converted pixel by pixel into a new
/// buffer, which `requires` keeps within what can be counted and allocated.
#[verifier::external_body]
pub(crate) fn into_rgb16(img: DynamicImage) -> (out: Vec<u16>)
    requires
        buffer_view(img).wf(),
        buffer_view(img).fits(Format::Rgb16),
    ensures
        ints_of_u16(out@) == converted(Format::Rgb16, buffer_view(img)),
{
    img.into_rgb16().into_raw()
}

/// `DynamicImage::into_rgba16` and `ImageBuffer::into_raw`: the raw buffer of the
/// image converted to four 16-bit channels. An image that has this layout already is
/// handed back as it is; any other is converted pixel by pixel into a new
/// buffer, which `requires` keeps within what can be counted and allocated.
#[verifier::external_body]
pub(crate) fn into_rgba16(img: DynamicImage) -> (out: Vec<u16>)
    requires
        buffer_view(img).wf(),
        buffer_view(img).fits(Format::Rgba16),
    ensures
        ints_of_u16(out@) == converted(Format::Rgba16, buffer_view(img)),
{
    img.into_rgba16().into_raw()
}

/// `DynamicImage::into_rgb32f` and `ImageBuffer::into_raw`: the raw buffer of
/// the image converted to three float channels, each float handed out as its
/// bit pattern. Every sample is the float that `image` makes of the integer
/// sample that it is made from.
#[verifier::external_body]
pub(crate) fn into_rgb32f(img: DynamicImage) -> (out: Vec<u32>)
    requires
        buffer_view(img).wf(),
        buffer_view(img).fits(Format::Rgb32f),
    ensures
        out@.len() == buffer_view(img).pixels() * 3,
        forall|i: int|
            0 <= i < out@.len() ==> (#[trigger] out@[i]) as int == (if buffer_layout(img).kind()
                == SampleKind::U8 {
                unit_from_u8(source_value(buffer_view(img), Composition::Rgb, i))
            } else {
                unit_from_u16(source_value(buffer_view(img), Composition::Rgb, i))
            }),
{
    img.into_rgb32f().into_raw().into_iter().map(|x| x.to_bits()).collect()
}

/// `DynamicImage::into_rgba32f` and `ImageBuffer::into_raw`: the raw buffer
/// of the image converted to four float channels, each float handed out as
/// its bit pattern. Every sample is the float that `image` makes of the
/// integer sample that it is made from, but for the alpha of an image that
/// has none, which is the float one.
#[verifier::external_body]
pub(crate) fn into_rgba32f(img: DynamicImage) -> (out: Vec<u32>)
    requires
        buffer_view(img).wf(),
        buffer_view(img).fits(Format::Rgba32f),
    ensures
        out@.len() == buffer_view(img).pixels() * 4,
        forall|i: int|
            0 <= i < out@.len() ==> (#[trigger] out@[i]) as int == (if alpha_added_at(
                buffer_layout(img).composition(),
                Composition::Rgba,
                i,
            ) {
                ONE_BITS as int
            } else if buffer_layout(img).kind() == SampleKind::U8 {
                unit_from_u8(source_value(buffer_view(img), Composition::Rgba, i))
            } else {
                unit_from_u16(source_value(buffer_view(img), Composition::Rgba, i))
            }),
{
    img.into_rgba32f().into_raw().into_iter().map(|x| x.to_bits()).collect()
}

} // verus!
