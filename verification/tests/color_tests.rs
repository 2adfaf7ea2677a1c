use jxl_png::color::{
    color_type_for, iccp_chunk_data, resolve_color, ColorDecision, ColorType, PixelLayout,
    RenderIntent,
};
use jxl_png::TranscodeError;

#[test]
fn each_supported_layout_selects_its_color_type() {
    assert_eq!(color_type_for(PixelLayout::Gray), Ok(ColorType::Grayscale));
    assert_eq!(color_type_for(PixelLayout::GrayAlpha), Ok(ColorType::GrayscaleAlpha));
    assert_eq!(color_type_for(PixelLayout::Rgb), Ok(ColorType::Rgb));
    assert_eq!(color_type_for(PixelLayout::Rgba), Ok(ColorType::Rgba));
}

#[test]
fn other_layouts_are_rejected() {
    assert_eq!(color_type_for(PixelLayout::Cmyk), Err(TranscodeError::UnsupportedPixelFormat));
    assert_eq!(
        color_type_for(PixelLayout::CmykAlpha),
        Err(TranscodeError::UnsupportedPixelFormat)
    );
}

#[test]
fn embedded_profile_with_nonlinear_samples_is_rejected() {
    let r = resolve_color(
        Some(vec![1, 2, 3]),
        true,
        false,
        RenderIntent::Perceptual,
        vec![9, 9],
        None,
    );
    assert_eq!(r.unwrap_err(), TranscodeError::UnsupportedIcc);
}

#[test]
fn embedded_profile_is_passed_through_without_coded_primaries() {
    let r = resolve_color(
        Some(vec![1, 2, 3]),
        false,
        true,
        RenderIntent::Perceptual,
        vec![9, 9],
        Some(vec![9, 16, 0, 1]),
    );
    match r.unwrap() {
        ColorDecision::ExplicitProfile { icc, cicp } => {
            assert_eq!(icc, vec![1, 2, 3]);
            assert!(cicp.is_none());
        },
        other => panic!("unexpected decision: {other:?}"),
    }
}

#[test]
fn srgb_without_embedded_profile_becomes_a_standard_marker() {
    let r = resolve_color(None, false, true, RenderIntent::Relative, vec![9, 9], None);
    match r.unwrap() {
        ColorDecision::StandardProfile { intent } => assert_eq!(intent, RenderIntent::Relative),
        other => panic!("unexpected decision: {other:?}"),
    }
}

#[test]
fn other_encodings_fall_back_to_the_rendered_profile() {
    let r = resolve_color(
        None,
        false,
        false,
        RenderIntent::Perceptual,
        vec![7, 8, 9],
        Some(vec![9, 16, 0, 1]),
    );
    match r.unwrap() {
        ColorDecision::ExplicitProfile { icc, cicp } => {
            assert_eq!(icc, vec![7, 8, 9]);
            assert_eq!(cicp, Some(vec![9, 16, 0, 1]));
        },
        other => panic!("unexpected decision: {other:?}"),
    }
}

#[test]
fn profile_chunk_compresses_the_profile_behind_its_name() {
    let icc: Vec<u8> = (0u8..=200).chain(0..=200).collect();
    let chunk = iccp_chunk_data(&icc);
    // Profile name "0", null terminator, compression method 0.
    assert_eq!(&chunk[..3], &[b'0', 0, 0]);
    // The rest is a zlib stream that inflates back to the profile.
    let restored = miniz_oxide::inflate::decompress_to_vec_zlib(&chunk[3..]).unwrap();
    assert_eq!(restored, icc);
}
