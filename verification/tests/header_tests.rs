use jxl_png::color::{ColorType, PixelLayout};
use jxl_png::header::{build_header, oriented_size, AnimationPlan};
use jxl_png::timing::AnimationMeta;
use jxl_png::TranscodeError;

#[test]
fn orientations_one_to_four_keep_dimensions() {
    for o in 1u32..=4 {
        assert_eq!(oriented_size(640, 480, o), (640, 480));
    }
}

#[test]
fn orientations_five_to_eight_swap_dimensions() {
    for o in 5u32..=8 {
        assert_eq!(oriented_size(640, 480, o), (480, 640));
    }
}

#[test]
fn header_promotes_deep_sources_to_sixteen_bits() {
    let h = build_header(10, 20, 1, 8, PixelLayout::Rgba, None, 1).unwrap();
    assert_eq!((h.width, h.height), (10, 20));
    assert_eq!(h.color_type, ColorType::Rgba);
    assert!(!h.sixteen_bits);
    assert!(h.animation.is_none());
    for bits in [9u32, 10, 12, 16, 32] {
        let h = build_header(10, 20, 1, bits, PixelLayout::Rgba, None, 1).unwrap();
        assert!(h.sixteen_bits);
    }
}

#[test]
fn header_declares_animation_with_exact_counts() {
    let anim = AnimationMeta { num_loops: 7, tps_numerator: 10, tps_denominator: 1 };
    let h = build_header(1, 1, 1, 8, PixelLayout::Gray, Some(anim), 42).unwrap();
    assert_eq!(h.animation, Some(AnimationPlan { frame_count: 42, num_loops: 7 }));
}

#[test]
fn header_rejects_unsupported_layouts() {
    let r = build_header(1, 1, 1, 8, PixelLayout::CmykAlpha, None, 1);
    assert_eq!(r.unwrap_err(), TranscodeError::UnsupportedPixelFormat);
}
