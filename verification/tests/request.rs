use include_img::buffer::DecodedImage;
use include_img::buffer::Samples;
use include_img::layout::Format;
use include_img::request::emit;
use include_img::request::ConversionError;
use include_img::request::ConversionRequest;

fn request(path: &str, format: Option<&str>) -> ConversionRequest {
    ConversionRequest { path: path.to_string(), format: format.map(|t| t.to_string()) }
}

fn two_pixels() -> DecodedImage {
    DecodedImage::new(Format::Rgb16, 2, 1, Samples::U16(vec![0, 257, 514, 65535, 65278, 300]))
        .unwrap()
}

#[test]
fn no_format_asks_for_no_layout() {
    assert_eq!(request("a.png", None).layout(), Ok(None));
}

#[test]
fn a_named_format_asks_for_its_layout() {
    assert_eq!(request("a.png", Some("RGBA16")).layout(), Ok(Some(Format::Rgba16)));
    assert_eq!(request("a.png", Some("luma8")).layout(), Ok(Some(Format::L8)));
}

#[test]
fn a_misspelt_format_is_a_failure_not_the_native_layout() {
    assert_eq!(
        request("a.png", Some("rgba9")).layout(),
        Err(ConversionError::UnknownFormat { token: "rgba9".to_string() })
    );
}

#[test]
fn without_a_layout_the_samples_come_as_they_are() {
    let samples = Samples::U16(vec![0, 257, 514, 65535, 65278, 300]);
    assert_eq!(emit(two_pixels(), None), samples);
    assert_eq!(request("a.png", None).finish(None, Ok(two_pixels())), Ok(samples));
}

#[test]
fn with_a_layout_the_samples_are_converted() {
    let expected = Samples::U8(vec![0, 1, 2, 255, 255, 254, 1, 255]);
    assert_eq!(emit(two_pixels(), Some(Format::Rgba8)), expected);
    let r = request("a.png", Some("rgba8"));
    let layout = r.layout().unwrap();
    assert_eq!(r.finish(layout, Ok(two_pixels())), Ok(expected));
}

#[test]
fn a_decode_failure_carries_path_and_text() {
    let r = request("./missing.png", Some("rgb8"));
    let failure = r.finish(Some(Format::Rgb8), Err("No such file or directory".to_string()));
    assert_eq!(
        failure,
        Err(ConversionError::Decode {
            path: "./missing.png".to_string(),
            message: "No such file or directory".to_string(),
        })
    );
    assert_eq!(
        failure.unwrap_err().message(),
        "couldn't read ./missing.png: No such file or directory"
    );
}

#[test]
fn an_unknown_format_has_its_text() {
    let e = request("a.png", Some("rgb9")).layout().unwrap_err();
    assert_eq!(e.message(), "Matching variant not found");
}
