//! What converting a pixel buffer to a layout yields, sample by sample, and
//! the laws that hold of it.

use vstd::prelude::*;
use crate::backend::unit_from_u16;
use crate::backend::unit_from_u8;
use crate::layout::Composition;
use crate::layout::Format;
use crate::layout::SampleKind;
use crate::model::ImageView;

verus! {

/// The luminance of a colour, in the representation of its channels: the
/// weighted mean of red, green and blue with the weights 0.2126, 0.7152 and
/// 0.0722, rounded down.
pub open spec fn luminance(r: int, g: int, b: int) -> int {
    (2126 * r + 7152 * g + 722 * b) / 10000
}

/// An integer sample carried over from one representation to another, in
/// proportion to the range of each. From 8 to 16 bits the byte is repeated,
/// so that 255 becomes 65535; from 16 to 8 bits the nearest 8-bit value is
/// taken; an integer becomes the float that is its fraction of the greatest
/// sample. Between equal representations the sample stays as it is.
pub open spec fn rescaled(from: SampleKind, to: SampleKind, s: int) -> int {
    match (from, to) {
        (SampleKind::U8, SampleKind::U16) => 257 * s,
        (SampleKind::U16, SampleKind::U8) => (s + 128) / 257,
        (SampleKind::U8, SampleKind::F32) => unit_from_u8(s),
        (SampleKind::U16, SampleKind::F32) => unit_from_u16(s),
        _ => s,
    }
}

/// Whether sample `i` of a buffer in the composition `to` is an alpha sample
/// that a buffer in the composition `from` has no counterpart for.
pub open spec fn alpha_added_at(from: Composition, to: Composition, i: int) -> bool {
    to.has_alpha() && !from.has_alpha() && i % (to.channels() as int) == to.channels() - 1
}

/// The value, in the representation of `img`, that sample `i` of the buffer
/// in the composition `to` is made from: the sample of the same channel of
/// the same pixel; for a colour channel of a grey pixel its luminance sample;
/// for the luminance channel of a coloured pixel the luminance of its colour.
/// Alpha is taken from alpha, and never blended into another channel.
pub open spec fn source_value(img: ImageView, to: Composition, i: int) -> int {
    let from = img.layout.composition();
    let channel = i % (to.channels() as int);
    let base = (i / (to.channels() as int)) * from.channels();
    if to.has_alpha() && channel == to.channels() - 1 {
        img.samples[base + from.channels() - 1]
    } else if from.has_color() && to.has_color() {
        img.samples[base + channel]
    } else if from.has_color() {
        luminance(img.samples[base], img.samples[base + 1], img.samples[base + 2])
    } else {
        img.samples[base]
    }
}

/// Sample `i` of `img` converted to the layout `target`. An alpha channel
/// that `img` lacks is fully opaque.
pub open spec fn converted_sample(target: Format, img: ImageView, i: int) -> int {
    if alpha_added_at(img.layout.composition(), target.composition(), i) {
        target.kind().max_value()
    } else {
        rescaled(img.layout.kind(), target.kind(), source_value(img, target.composition(), i))
    }
}

/// The samples of `img` converted to the layout `target`: as many pixels, in
/// the same order, each with the channels of `target`.
pub open spec fn converted(target: Format, img: ImageView) -> Seq<int> {
    Seq::new(img.pixels() * target.channels(), |i: int| converted_sample(target, img, i))
}

/// The buffer that converting `img` to `target` yields.
pub open spec fn converted_image(target: Format, img: ImageView) -> ImageView {
    ImageView {
        layout: target,
        width: img.width,
        height: img.height,
        samples: converted(target, img),
    }
}

impl Format {
    /// The layout of the same composition with 16-bit samples.
    pub open spec fn widened(self) -> Format {
        match self.composition() {
            Composition::Luma => Format::L16,
            Composition::LumaAlpha => Format::La16,
            Composition::Rgb => Format::Rgb16,
            Composition::Rgba => Format::Rgba16,
        }
    }
}

/// Sample `i` of a buffer of `n` pixels of the composition `to` belongs to
/// one pixel of the buffer, and to one channel of it.
proof fn lemma_sample_position(n: nat, to: Composition, i: int)
    requires
        0 <= i < n * to.channels(),
    ensures
        0 <= i / (to.channels() as int) < n,
        0 <= i % (to.channels() as int) < to.channels(),
        i == (i / (to.channels() as int)) * to.channels() + i % (to.channels() as int),
{
    match to {
        Composition::Luma => {
            assert(n * 1 == n);
        },
        Composition::LumaAlpha => {
            assert(n * 2 == 2 * n);
        },
        Composition::Rgb => {
            assert(n * 3 == 3 * n);
        },
        Composition::Rgba => {
            assert(n * 4 == 4 * n);
        },
    }
}

/// Channel `channel` of pixel `pixel` of a buffer of `n` pixels of the
/// composition `from` is a sample of the buffer.
proof fn lemma_sample_exists(n: nat, from: Composition, pixel: int, channel: int)
    requires
        0 <= pixel < n,
        0 <= channel < from.channels(),
    ensures
        0 <= pixel * from.channels() + channel < n * from.channels(),
{
    match from {
        Composition::Luma => {
            assert(n * 1 == n && pixel * 1 == pixel);
        },
        Composition::LumaAlpha => {
            assert(n * 2 == 2 * n && pixel * 2 == 2 * pixel);
        },
        Composition::Rgb => {
            assert(n * 3 == 3 * n && pixel * 3 == 3 * pixel);
        },
        Composition::Rgba => {
            assert(n * 4 == 4 * n && pixel * 4 == 4 * pixel);
        },
    }
}

/// Converting yields one sample for each channel of the target layout and
/// each pixel of the image, whatever the image and the layout.
pub proof fn lemma_converted_len(target: Format, img: ImageView)
    ensures
        converted(target, img).len() == img.width * img.height * target.channels(),
{
}

/// Converting a buffer of integer samples to a layout of integer samples
/// yields a buffer of integer samples: every sample is within the range of
/// the target's representation.
pub proof fn lemma_converted_is_well_formed(target: Format, img: ImageView)
    requires
        img.wf(),
        target.kind() != SampleKind::F32,
    ensures
        converted_image(target, img).wf(),
{
    let out = converted(target, img);
    let to = target.composition();
    let from = img.layout.composition();
    assert forall|i: int| 0 <= i < out.len() implies 0 <= #[trigger] out[i]
        <= target.kind().max_value() by {
        lemma_sample_position(img.pixels(), to, i);
        let pixel = i / (to.channels() as int);
        let channel = i % (to.channels() as int);
        lemma_sample_exists(img.pixels(), from, pixel, 0);
        lemma_sample_exists(img.pixels(), from, pixel, from.channels() - 1);
        if from.has_color() {
            lemma_sample_exists(img.pixels(), from, pixel, 1);
            lemma_sample_exists(img.pixels(), from, pixel, 2);
            if to.has_color() && channel < 3 {
                lemma_sample_exists(img.pixels(), from, pixel, channel);
            }
        }
    }
}

/// Converting an image to the layout that it has changes no sample.
pub proof fn lemma_same_layout_is_identity(img: ImageView)
    requires
        img.wf(),
    ensures
        converted(img.layout, img) == img.samples,
{
    let out = converted(img.layout, img);
    assert forall|i: int| 0 <= i < out.len() implies out[i] == img.samples[i] by {
        lemma_sample_position(img.pixels(), img.layout.composition(), i);
    }
    assert(out =~= img.samples);
}

/// An alpha channel that the image lacks is fully opaque in every pixel of
/// the converted image: its sample is the greatest of the target's
/// representation, 255, 65535 or the float one.
pub proof fn lemma_added_alpha_is_opaque(target: Format, img: ImageView, pixel: int)
    requires
        target.composition().has_alpha(),
        !img.layout.composition().has_alpha(),
        0 <= pixel < img.pixels(),
    ensures
        0 <= pixel * target.channels() + target.channels() - 1 < converted(target, img).len(),
        converted(target, img)[pixel * target.channels() + target.channels() - 1]
            == target.kind().max_value(),
{
    lemma_sample_exists(
        img.pixels(),
        target.composition(),
        pixel,
        target.channels() - 1,
    );
    match target.composition() {
        Composition::LumaAlpha => {
            assert(pixel * 2 == 2 * pixel);
        },
        _ => {
            assert(pixel * 4 == 4 * pixel);
        },
    }
}

/// An image of 8-bit samples converted to 16 bits and back is the image that
/// it was: no sample changes.
pub proof fn lemma_widen_narrow_round_trip(img: ImageView)
    requires
        img.wf(),
        img.layout.kind() == SampleKind::U8,
    ensures
        converted(img.layout, converted_image(img.layout.widened(), img)) == img.samples,
{
    let narrow = img.layout;
    let mid = converted_image(narrow.widened(), img);
    let back = converted(narrow, mid);
    assert forall|i: int| 0 <= i < back.len() implies back[i] == img.samples[i] by {
        lemma_sample_position(img.pixels(), narrow.composition(), i);
        let s = img.samples[i];
        assert(mid.samples[i] == 257 * s);
        assert((257 * s + 128) / 257 == s);
    }
    assert(back =~= img.samples);
}

} // verus!
