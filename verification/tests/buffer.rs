use include_img::buffer::DecodedImage;
use include_img::buffer::Samples;
use include_img::layout::Format;
use include_img::layout::SampleKind;

#[test]
fn a_well_formed_buffer_is_accepted() {
    let img = DecodedImage::new(Format::Rgb8, 2, 1, Samples::U8(vec![1, 2, 3, 4, 5, 6])).unwrap();
    assert_eq!(img.layout(), Format::Rgb8);
    assert_eq!(img.width(), 2);
    assert_eq!(img.height(), 1);
    assert_eq!(img.samples(), &Samples::U8(vec![1, 2, 3, 4, 5, 6]));
    assert_eq!(img.into_samples(), Samples::U8(vec![1, 2, 3, 4, 5, 6]));
    assert!(DecodedImage::new(Format::La16, 1, 3, Samples::U16(vec![0; 6])).is_some());
    assert!(DecodedImage::new(Format::L8, 0, 9, Samples::U8(vec![])).is_some());
}

#[test]
fn a_wrong_number_of_samples_is_refused() {
    assert!(DecodedImage::new(Format::Rgb8, 2, 1, Samples::U8(vec![1, 2, 3, 4, 5])).is_none());
    assert!(DecodedImage::new(Format::Rgb8, 2, 1, Samples::U8(vec![0; 7])).is_none());
    assert!(DecodedImage::new(Format::Rgba8, 2, 1, Samples::U8(vec![0; 6])).is_none());
    assert!(DecodedImage::new(Format::L16, 1, 1, Samples::U16(vec![])).is_none());
    assert!(DecodedImage::new(Format::L8, 0, 0, Samples::U8(vec![0])).is_none());
    assert!(
        DecodedImage::new(Format::L8, u32::MAX, u32::MAX, Samples::U8(vec![0; 1])).is_none()
    );
}

#[test]
fn samples_of_another_kind_are_refused() {
    assert!(DecodedImage::new(Format::Rgb8, 1, 1, Samples::U16(vec![0; 3])).is_none());
    assert!(DecodedImage::new(Format::Rgb16, 1, 1, Samples::U8(vec![0; 3])).is_none());
    assert!(DecodedImage::new(Format::L8, 1, 1, Samples::F32(vec![0])).is_none());
}

#[test]
fn a_float_layout_is_refused() {
    assert!(DecodedImage::new(Format::Rgb32f, 1, 1, Samples::F32(vec![0; 3])).is_none());
    assert!(DecodedImage::new(Format::Rgba32f, 1, 1, Samples::F32(vec![0; 4])).is_none());
    assert!(DecodedImage::new(Format::Rgb32f, 1, 1, Samples::U8(vec![0; 3])).is_none());
}

#[test]
fn samples_know_their_kind_and_number() {
    assert_eq!(Samples::U8(vec![1, 2]).sample_kind(), SampleKind::U8);
    assert_eq!(Samples::U16(vec![1, 2, 3]).sample_kind(), SampleKind::U16);
    assert_eq!(Samples::F32(vec![]).sample_kind(), SampleKind::F32);
    assert_eq!(Samples::U8(vec![1, 2]).len(), 2);
    assert_eq!(Samples::U16(vec![1, 2, 3]).len(), 3);
    assert_eq!(Samples::F32(vec![]).len(), 0);
}

#[test]
fn a_small_image_fits_every_layout() {
    let img = DecodedImage::new(Format::L8, 4, 4, Samples::U8(vec![0; 16])).unwrap();
    assert!(img.fits(Format::Rgba32f));
    assert!(img.fits(Format::L8));
}

#[test]
fn a_copy_holds_the_same() {
    let samples = Samples::U16(vec![1, 2, 3, 4]);
    assert_eq!(samples.clone(), samples);
    let img = DecodedImage::new(Format::La16, 2, 1, samples).unwrap();
    let copy = img.clone();
    assert_eq!(copy.layout(), img.layout());
    assert_eq!(copy.width(), img.width());
    assert_eq!(copy.height(), img.height());
    assert_eq!(copy.samples(), img.samples());
    assert_eq!(Format::L8.convert(copy), Samples::U8(vec![0, 0]));
    assert_eq!(img.into_samples(), Samples::U16(vec![1, 2, 3, 4]));
}
