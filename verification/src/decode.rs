use vstd::prelude::*;
use crate::TranscodeError;
use crate::color::{PixelLayout, RenderIntent};
use crate::plan::ImageMeta;
use crate::timing::AnimationMeta;

verus! {

#[verifier::external_type_specification]
#[verifier::external_body]
pub struct ExJxlImage(jxl_oxide::JxlImage);

#[verifier::external_type_specification]
#[verifier::external_body]
pub struct ExRender(jxl_oxide::Render);

/// Relies on jxl_oxide::JxlImage::read_with_defaults: decodes a complete
/// JPEG XL byte stream into an image handle, or fails on malformed input.
#[verifier::external_body]
fn decode_jxl(data: &[u8]) -> (r: Result<jxl_oxide::JxlImage, TranscodeError>)
    ensures
        r matches Err(e) ==> e == TranscodeError::DecodeFailure,
{
    match jxl_oxide::JxlImage::read_with_defaults(data) {
        Ok(img) => Ok(img),
        Err(_) => Err(TranscodeError::DecodeFailure),
    }
}

/// Relies on jxl_oxide::JxlImage::is_loading_done: whether every frame of
/// the image is fully loaded.
#[verifier::external_body]
fn loading_done(img: &jxl_oxide::JxlImage) -> (r: bool) {
    img.is_loading_done()
}

/// Relies on jxl_oxide::JxlImage::num_loaded_keyframes: the number of
/// fully loaded keyframes.
#[verifier::external_body]
fn keyframe_count(img: &jxl_oxide::JxlImage) -> (r: usize) {
    img.num_loaded_keyframes()
}

/// Relies on jxl_oxide::JxlImage::render_frame: renders the keyframe at
/// the given index, or fails on undecodable frame data.
#[verifier::external_body]
fn render_keyframe(img: &jxl_oxide::JxlImage, index: usize) -> (r: Result<
    jxl_oxide::Render,
    TranscodeError,
>)
    ensures
        r matches Err(e) ==> e == TranscodeError::DecodeFailure,
{
    match img.render_frame(index) {
        Ok(render) => Ok(render),
        Err(_) => Err(TranscodeError::DecodeFailure),
    }
}

/// Relies on jxl_oxide::Render::duration: the frame's duration in ticks.
#[verifier::external_body]
fn render_duration(render: &jxl_oxide::Render) -> (r: u32) {
    render.duration()
}

/// Relies on the image header's size fields: the stored width, before
/// orientation is applied.
#[verifier::external_body]
fn raw_width(img: &jxl_oxide::JxlImage) -> (r: u32) {
    img.image_header().size.width
}

/// Relies on the image header's size fields: the stored height, before
/// orientation is applied.
#[verifier::external_body]
fn raw_height(img: &jxl_oxide::JxlImage) -> (r: u32) {
    img.image_header().size.height
}

/// Relies on the image metadata's orientation field (1 through 8).
#[verifier::external_body]
fn orientation(img: &jxl_oxide::JxlImage) -> (r: u32) {
    img.image_header().metadata.orientation
}

/// Relies on jxl_oxide::image::BitDepth::bits_per_sample: the sample
/// depth of the decoded image.
#[verifier::external_body]
fn bits_per_sample(img: &jxl_oxide::JxlImage) -> (r: u32) {
    img.image_header().metadata.bit_depth.bits_per_sample()
}

/// Relies on the image metadata's xyb_encoded field: whether the samples
/// are nonlinearly (XYB) encoded.
#[verifier::external_body]
fn xyb_encoded(img: &jxl_oxide::JxlImage) -> (r: bool) {
    img.image_header().metadata.xyb_encoded
}

/// Relies on jxl_oxide::color::ColourEncoding::is_srgb: whether the color
/// encoding is exactly the sRGB colorspace.
#[verifier::external_body]
fn is_srgb(img: &jxl_oxide::JxlImage) -> (r: bool) {
    img.image_header().metadata.colour_encoding.is_srgb()
}

/// Relies on the colour encoding's rendering_intent field, present when
/// the encoding is given by enum values rather than an ICC profile.
#[verifier::external_body]
fn render_intent(img: &jxl_oxide::JxlImage) -> (r: Option<RenderIntent>) {
    match &img.image_header().metadata.colour_encoding {
        jxl_oxide::color::ColourEncoding::Enum(e) => Some(
            match e.rendering_intent {
                jxl_oxide::RenderingIntent::Perceptual => RenderIntent::Perceptual,
                jxl_oxide::RenderingIntent::Relative => RenderIntent::Relative,
                jxl_oxide::RenderingIntent::Saturation => RenderIntent::Saturation,
                jxl_oxide::RenderingIntent::Absolute => RenderIntent::Absolute,
            },
        ),
        jxl_oxide::color::ColourEncoding::IccProfile(_) => None,
    }
}

/// Relies on jxl_oxide::color::ColourEncoding::cicp: the four-byte coded
/// primaries of the color encoding, when it has one.
#[verifier::external_body]
fn cicp(img: &jxl_oxide::JxlImage) -> (r: Option<Vec<u8>>) {
    img.image_header().metadata.colour_encoding.cicp().map(|c| c.to_vec())
}

/// Relies on jxl_oxide::JxlImage::original_icc: the profile embedded in
/// the source, when one is present.
#[verifier::external_body]
fn embedded_icc(img: &jxl_oxide::JxlImage) -> (r: Option<Vec<u8>>) {
    img.original_icc().map(|icc| icc.to_vec())
}

/// Relies on jxl_oxide::JxlImage::rendered_icc: the profile that describes
/// rendered frames; always present.
#[verifier::external_body]
fn rendered_icc(img: &jxl_oxide::JxlImage) -> (r: Vec<u8>) {
    img.rendered_icc()
}

/// Relies on the image metadata's animation header: its loop count and
/// tick rate, when the image animates.
#[verifier::external_body]
fn animation_meta(img: &jxl_oxide::JxlImage) -> (r: Option<AnimationMeta>) {
    img.image_header().metadata.animation.as_ref().map(
        |a| AnimationMeta {
            num_loops: a.num_loops,
            tps_numerator: a.tps_numerator,
            tps_denominator: a.tps_denominator,
        },
    )
}

/// Relies on jxl_oxide::JxlImage::pixel_format: the channel layout of
/// rendered frames.
#[verifier::external_body]
fn pixel_format(img: &jxl_oxide::JxlImage) -> (r: PixelLayout) {
    match img.pixel_format() {
        jxl_oxide::PixelFormat::Gray => PixelLayout::Gray,
        jxl_oxide::PixelFormat::Graya => PixelLayout::GrayAlpha,
        jxl_oxide::PixelFormat::Rgb => PixelLayout::Rgb,
        jxl_oxide::PixelFormat::Rgba => PixelLayout::Rgba,
        jxl_oxide::PixelFormat::Cmyk => PixelLayout::Cmyk,
        jxl_oxide::PixelFormat::Cmyka => PixelLayout::CmykAlpha,
    }
}

/// One collected frame: its duration in ticks, beside the decoder's
/// rendered frame, whose float samples the caller converts.
pub struct CollectedFrame {
    pub duration: u32,
    pub render: jxl_oxide::Render,
}

/// A fully collected image: the metadata the transcode reads, and every
/// frame in display order.
pub struct CollectedImage {
    pub meta: ImageMeta,
    pub frames: Vec<CollectedFrame>,
}

/// Decodes a complete source buffer and collects every frame in display
/// order, with the final pixel and color metadata. A source whose frames
/// are not all fully present fails with NeedMoreData before anything else
/// is done: the caller supplied the whole buffer up front, so the decoder
/// wanting more bytes means the input is truncated, and nothing may be
/// written downstream.
pub fn collect_image(data: &[u8]) -> (r: Result<CollectedImage, TranscodeError>)
    ensures
        r matches Err(e) ==> (e == TranscodeError::DecodeFailure || e
            == TranscodeError::NeedMoreData),
{
    let img = match decode_jxl(data) {
        Ok(i) => i,
        Err(e) => {
            return Err(e);
        },
    };
    if !loading_done(&img) {
        return Err(TranscodeError::NeedMoreData);
    }
    let n = keyframe_count(&img);
    let mut frames: Vec<CollectedFrame> = Vec::new();
    let mut i: usize = 0;
    while i < n
        invariant
            frames@.len() == i,
            i <= n,
        decreases n - i,
    {
        let render = match render_keyframe(&img, i) {
            Ok(rendered) => rendered,
            Err(e) => {
                return Err(e);
            },
        };
        let duration = render_duration(&render);
        frames.push(CollectedFrame { duration, render });
        i = i + 1;
    }
    // The rendering intent is read only when the encoding is a recognized
    // standard profile, where it is always present; Relative is the
    // profile default otherwise.
    let intent = match render_intent(&img) {
        Some(ri) => ri,
        None => RenderIntent::Relative,
    };
    let meta = ImageMeta {
        width: raw_width(&img),
        height: raw_height(&img),
        orientation: orientation(&img),
        bits_per_sample: bits_per_sample(&img),
        layout: pixel_format(&img),
        xyb_encoded: xyb_encoded(&img),
        is_srgb: is_srgb(&img),
        intent,
        cicp: cicp(&img),
        embedded_icc: embedded_icc(&img),
        rendered_icc: rendered_icc(&img),
        animation: animation_meta(&img),
    };
    Ok(CollectedImage { meta, frames })
}

} // verus!
