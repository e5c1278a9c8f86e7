use include_img::buffer::DecodedImage;
use include_img::buffer::Samples;
use include_img::layout::Format;
use include_img::layout::SampleKind;
use include_img::layout::ONE_BITS;

const ALL: [Format; 10] = [
    Format::Rgb8,
    Format::Rgba8,
    Format::Rgb16,
    Format::Rgba16,
    Format::Rgb32f,
    Format::Rgba32f,
    Format::L8,
    Format::La8,
    Format::L16,
    Format::La16,
];

const INTEGER: [Format; 8] = [
    Format::Rgb8,
    Format::Rgba8,
    Format::Rgb16,
    Format::Rgba16,
    Format::L8,
    Format::La8,
    Format::L16,
    Format::La16,
];

fn image(layout: Format, width: u32, height: u32, samples: Samples) -> DecodedImage {
    DecodedImage::new(layout, width, height, samples).expect("a well-formed image")
}

fn has_alpha(layout: Format) -> bool {
    layout.channel_count() % 2 == 0
}

fn has_color(layout: Format) -> bool {
    layout.channel_count() >= 3
}

fn max_of(kind: SampleKind) -> u32 {
    match kind {
        SampleKind::U8 => 255,
        SampleKind::U16 => 65535,
        SampleKind::F32 => ONE_BITS,
    }
}

fn values(samples: &Samples) -> Vec<u32> {
    match samples {
        Samples::U8(v) => v.iter().map(|&s| s as u32).collect(),
        Samples::U16(v) => v.iter().map(|&s| s as u32).collect(),
        Samples::F32(v) => v.clone(),
    }
}

fn samples_of(kind: SampleKind, values: &[u32]) -> Samples {
    match kind {
        SampleKind::U8 => Samples::U8(values.iter().map(|&s| s as u8).collect()),
        SampleKind::U16 => Samples::U16(values.iter().map(|&s| s as u16).collect()),
        SampleKind::F32 => Samples::F32(values.to_vec()),
    }
}

fn rescaled(from: SampleKind, to: SampleKind, s: u32) -> u32 {
    match (from, to) {
        (SampleKind::U8, SampleKind::U16) => 257 * s,
        (SampleKind::U16, SampleKind::U8) => (s + 128) / 257,
        (SampleKind::U8, SampleKind::F32) => (s as f32 / 255.0).to_bits(),
        (SampleKind::U16, SampleKind::F32) => (s as f32 / 65535.0).to_bits(),
        _ => s,
    }
}

/// What the conversion is expected to yield, written out once more.
fn expected(target: Format, native: Format, pixels: usize, samples: &[u32]) -> Vec<u32> {
    let (sc, tc) = (native.channel_count() as usize, target.channel_count() as usize);
    let (sk, tk) = (native.sample_kind(), target.sample_kind());
    let mut out = Vec::new();
    for p in 0..pixels {
        let px = &samples[p * sc..(p + 1) * sc];
        for c in 0..tc {
            let alpha = has_alpha(target) && c == tc - 1;
            let value = if alpha && !has_alpha(native) {
                max_of(tk)
            } else if alpha {
                rescaled(sk, tk, px[sc - 1])
            } else if has_color(native) && has_color(target) {
                rescaled(sk, tk, px[c])
            } else if has_color(native) {
                rescaled(sk, tk, (2126 * px[0] + 7152 * px[1] + 722 * px[2]) / 10000)
            } else {
                rescaled(sk, tk, px[0])
            };
            out.push(value);
        }
    }
    out
}

/// Six pixels with samples spread over the range of the representation.
fn spread(native: Format) -> Vec<u32> {
    let n = 6 * native.channel_count() as u32;
    let max = max_of(native.sample_kind());
    (0..n).map(|i| (i * 7919 + 13 * i * i + 5) % (max + 1)).collect()
}

#[test]
fn rgb_to_rgba8_adds_opaque_alpha() {
    let img = image(Format::Rgb8, 2, 1, Samples::U8(vec![10, 20, 30, 40, 50, 60]));
    assert_eq!(
        Format::Rgba8.convert(img),
        Samples::U8(vec![10, 20, 30, 255, 40, 50, 60, 255])
    );
}

#[test]
fn every_conversion_is_as_expected() {
    for native in INTEGER {
        let data = spread(native);
        for target in ALL {
            let img = image(native, 3, 2, samples_of(native.sample_kind(), &data));
            assert!(img.fits(target));
            let out = target.convert(img);
            assert_eq!(out.sample_kind(), target.sample_kind(), "{:?} to {:?}", native, target);
            assert_eq!(
                values(&out),
                expected(target, native, 6, &data),
                "{:?} to {:?}",
                native,
                target
            );
        }
    }
}

#[test]
fn same_layout_is_identity() {
    for native in INTEGER {
        let data = spread(native);
        let samples = samples_of(native.sample_kind(), &data);
        let img = image(native, 2, 3, samples.clone());
        assert_eq!(native.convert(img), samples, "{:?}", native);
    }
}

#[test]
fn every_layout_gives_one_sample_per_channel_and_pixel() {
    for native in INTEGER {
        for (width, height) in [(0u32, 0u32), (0, 5), (4, 0), (1, 1), (5, 3), (1, 7)] {
            let n = (width * height) as usize * native.channel_count() as usize;
            let data: Vec<u32> = (0..n as u32).map(|i| i % 251).collect();
            for target in ALL {
                let img = image(native, width, height, samples_of(native.sample_kind(), &data));
                let out = target.convert(img);
                assert_eq!(
                    out.len(),
                    (width * height) as usize * target.channel_count() as usize,
                    "{:?} to {:?}",
                    native,
                    target
                );
            }
        }
    }
}

#[test]
fn eight_bits_widened_and_narrowed_is_unchanged() {
    let pairs = [
        (Format::L8, Format::L16),
        (Format::La8, Format::La16),
        (Format::Rgb8, Format::Rgb16),
        (Format::Rgba8, Format::Rgba16),
    ];
    for (narrow, wide) in pairs {
        let channels = narrow.channel_count() as u32;
        // every 8-bit value, in every channel
        let data: Vec<u8> = (0..256 * channels).map(|i| ((i / channels + i % channels * 61) % 256) as u8).collect();
        let img = image(narrow, 16, 16, Samples::U8(data.clone()));
        let widened = wide.convert(img);
        let back = narrow.convert(image(wide, 16, 16, widened));
        assert_eq!(back, Samples::U8(data), "{:?}", narrow);
    }
}

#[test]
fn every_8_bit_sample_widens_to_its_repeated_byte() {
    let data: Vec<u8> = (0..=255).collect();
    let out = Format::L16.convert(image(Format::L8, 256, 1, Samples::U8(data)));
    let expected: Vec<u16> = (0..=255u16).map(|s| 257 * s).collect();
    assert_eq!(out, Samples::U16(expected));
}

#[test]
fn every_16_bit_sample_narrows_to_the_nearest() {
    let data: Vec<u16> = (0..=65535).collect();
    let out = Format::L8.convert(image(Format::L16, 256, 256, Samples::U16(data)));
    let expected: Vec<u8> = (0..=65535u32).map(|s| ((s + 128) / 257) as u8).collect();
    assert_eq!(out, Samples::U8(expected.clone()));
    // the nearest 8-bit value: round(s * 255 / 65535)
    for s in 0..=65535u32 {
        assert_eq!(expected[s as usize] as u32, (s * 255 * 2 + 65535) / (2 * 65535));
    }
}

#[test]
fn added_alpha_is_opaque_in_every_pixel() {
    for native in [Format::L8, Format::Rgb8, Format::L16, Format::Rgb16] {
        let data = spread(native);
        for target in [Format::La8, Format::Rgba8, Format::La16, Format::Rgba16, Format::Rgba32f] {
            let img = image(native, 6, 1, samples_of(native.sample_kind(), &data));
            let out = values(&target.convert(img));
            let tc = target.channel_count() as usize;
            for p in 0..6 {
                assert_eq!(out[p * tc + tc - 1], max_of(target.sample_kind()));
            }
        }
    }
}

#[test]
fn alpha_is_kept_and_never_blended() {
    // a transparent red pixel stays red when alpha is dropped
    let img = image(Format::Rgba8, 1, 1, Samples::U8(vec![200, 0, 0, 0]));
    assert_eq!(Format::Rgb8.convert(img), Samples::U8(vec![200, 0, 0]));
    let img = image(Format::Rgba8, 1, 1, Samples::U8(vec![200, 0, 0, 7]));
    assert_eq!(Format::Rgba16.convert(img), Samples::U16(vec![51400, 0, 0, 1799]));
    let img = image(Format::La16, 2, 1, Samples::U16(vec![1000, 0, 65535, 300]));
    assert_eq!(Format::L16.convert(img), Samples::U16(vec![1000, 65535]));
    let img = image(Format::La8, 1, 1, Samples::U8(vec![9, 77]));
    assert_eq!(Format::Rgba8.convert(img), Samples::U8(vec![9, 9, 9, 77]));
}

#[test]
fn luminance_of_a_colour() {
    // (2126 * 10 + 7152 * 20 + 722 * 30) / 10000 = 18.596
    let img = image(Format::Rgb8, 1, 1, Samples::U8(vec![10, 20, 30]));
    assert_eq!(Format::L8.convert(img), Samples::U8(vec![18]));
    let img = image(Format::Rgb8, 1, 1, Samples::U8(vec![10, 20, 30]));
    assert_eq!(Format::L16.convert(img), Samples::U16(vec![18 * 257]));
    // (2126 * 1000 + 7152 * 2000 + 722 * 3000) / 10000 = 1859.6
    let img = image(Format::Rgba16, 1, 1, Samples::U16(vec![1000, 2000, 3000, 4000]));
    assert_eq!(Format::La16.convert(img), Samples::U16(vec![1859, 4000]));
    let img = image(Format::Rgb16, 1, 1, Samples::U16(vec![1000, 2000, 3000]));
    assert_eq!(Format::L8.convert(img), Samples::U8(vec![7]));
    // white stays white, primaries weigh as their coefficient
    let img = image(
        Format::Rgb8,
        4,
        1,
        Samples::U8(vec![255, 255, 255, 255, 0, 0, 0, 255, 0, 0, 0, 255]),
    );
    assert_eq!(Format::L8.convert(img), Samples::U8(vec![255, 54, 182, 18]));
}

#[test]
fn grey_becomes_equal_red_green_and_blue() {
    let img = image(Format::L8, 2, 1, Samples::U8(vec![0, 200]));
    assert_eq!(Format::Rgb8.convert(img), Samples::U8(vec![0, 0, 0, 200, 200, 200]));
    let img = image(Format::L16, 1, 1, Samples::U16(vec![65535]));
    assert_eq!(Format::Rgba8.convert(img), Samples::U8(vec![255, 255, 255, 255]));
}

#[test]
fn floats_are_fractions_of_the_greatest_sample() {
    let img = image(Format::Rgb8, 1, 1, Samples::U8(vec![0, 51, 255]));
    let out = Format::Rgb32f.convert(img);
    let floats: Vec<f32> = values(&out).into_iter().map(f32::from_bits).collect();
    assert_eq!(floats, vec![0.0, 0.2, 1.0]);
    let img = image(Format::La16, 1, 1, Samples::U16(vec![13107, 65535]));
    let out = Format::Rgba32f.convert(img);
    let floats: Vec<f32> = values(&out).into_iter().map(f32::from_bits).collect();
    assert_eq!(floats, vec![0.2, 0.2, 0.2, 1.0]);
    let img = image(Format::L8, 1, 1, Samples::U8(vec![128]));
    assert_eq!(Format::Rgba32f.convert(img), Samples::F32(vec![
        (128.0f32 / 255.0).to_bits(),
        (128.0f32 / 255.0).to_bits(),
        (128.0f32 / 255.0).to_bits(),
        ONE_BITS,
    ]));
}

#[test]
fn every_sample_has_its_float() {
    let data: Vec<u8> = (0..=255).collect();
    let out = Format::Rgb32f.convert(image(Format::L8, 256, 1, Samples::U8(data)));
    let bits = values(&out);
    for s in 0..256usize {
        let f = (s as f32 / 255.0).to_bits();
        assert_eq!(&bits[3 * s..3 * s + 3], &[f, f, f]);
    }
    let data: Vec<u16> = (0..=65535).collect();
    let out = Format::Rgb32f.convert(image(Format::L16, 256, 256, Samples::U16(data)));
    let bits = values(&out);
    for s in 0..65536usize {
        let f = (s as f32 / 65535.0).to_bits();
        assert_eq!(&bits[3 * s..3 * s + 3], &[f, f, f]);
    }
}

#[test]
fn an_empty_image_converts_to_nothing() {
    for target in ALL {
        let img = image(Format::Rgb8, 0, 0, Samples::U8(vec![]));
        assert_eq!(target.convert(img).len(), 0);
    }
}

#[test]
fn rows_stay_in_order() {
    // 2 x 2, one channel: rows top to bottom, left to right
    let img = image(Format::L8, 2, 2, Samples::U8(vec![1, 2, 3, 4]));
    assert_eq!(
        Format::La8.convert(img),
        Samples::U8(vec![1, 255, 2, 255, 3, 255, 4, 255])
    );
}

#[test]
fn many_images_convert_as_expected() {
    let mut state: u64 = 0x2545_f491_4f6c_dd1d;
    let mut next = move || {
        state = state.wrapping_mul(6364136223846793005).wrapping_add(1442695040888963407);
        (state >> 33) as u32
    };
    for round in 0..40 {
        for native in INTEGER {
            let (width, height) = (next() % 5, next() % 4);
            let pixels = (width * height) as usize;
            let max = max_of(native.sample_kind());
            let data: Vec<u32> = (0..pixels * native.channel_count() as usize)
                .map(|_| match next() % 8 {
                    0 => 0,
                    1 => max,
                    _ => next() % (max + 1),
                })
                .collect();
            for target in ALL {
                let img = image(native, width, height, samples_of(native.sample_kind(), &data));
                assert_eq!(
                    values(&target.convert(img)),
                    expected(target, native, pixels, &data),
                    "round {}: {:?} to {:?}",
                    round,
                    native,
                    target
                );
            }
        }
    }
}

#[test]
fn luminance_over_a_grid_of_colours() {
    let steps: Vec<u32> = (0..=255).step_by(15).collect();
    let mut data = Vec::new();
    let mut expected = Vec::new();
    for &r in &steps {
        for &g in &steps {
            for &b in &steps {
                data.extend([r as u8, g as u8, b as u8]);
                expected.push(((2126 * r + 7152 * g + 722 * b) / 10000) as u8);
            }
        }
    }
    let n = steps.len() as u32;
    let img = image(Format::Rgb8, n * n, n, Samples::U8(data));
    assert_eq!(Format::L8.convert(img), Samples::U8(expected));
}
