use vstd::prelude::*;
use crate::TranscodeError;

verus! {

/// The pixel layout of the decoded image, as the decoder renders it.
#[derive(Clone, Copy, Debug, PartialEq, Eq, Structural)]
pub enum PixelLayout {
    Gray,
    GrayAlpha,
    Rgb,
    Rgba,
    Cmyk,
    CmykAlpha,
}

/// The container's color-channel configurations. Only these four are
/// supported; any other source layout is rejected.
#[derive(Clone, Copy, Debug, PartialEq, Eq, Structural)]
pub enum ColorType {
    Grayscale,
    GrayscaleAlpha,
    Rgb,
    Rgba,
}

/// The four rendering intents a standard-profile marker can carry.
#[derive(Clone, Copy, Debug, PartialEq, Eq, Structural)]
pub enum RenderIntent {
    Perceptual,
    Relative,
    Saturation,
    Absolute,
}

/// The container color type selected for a pixel layout, or the rejection
/// of a layout outside the four supported configurations.
pub open spec fn color_type_spec(layout: PixelLayout) -> Result<ColorType, TranscodeError> {
    match layout {
        PixelLayout::Gray => Ok(ColorType::Grayscale),
        PixelLayout::GrayAlpha => Ok(ColorType::GrayscaleAlpha),
        PixelLayout::Rgb => Ok(ColorType::Rgb),
        PixelLayout::Rgba => Ok(ColorType::Rgba),
        _ => Err(TranscodeError::UnsupportedPixelFormat),
    }
}

/// Maps a pixel layout to the container color type, failing on any layout
/// the container cannot carry.
pub fn color_type_for(layout: PixelLayout) -> (r: Result<ColorType, TranscodeError>)
    ensures
        r == color_type_spec(layout),
{
    match layout {
        PixelLayout::Gray => Ok(ColorType::Grayscale),
        PixelLayout::GrayAlpha => Ok(ColorType::GrayscaleAlpha),
        PixelLayout::Rgb => Ok(ColorType::Rgb),
        PixelLayout::Rgba => Ok(ColorType::Rgba),
        PixelLayout::Cmyk => Err(TranscodeError::UnsupportedPixelFormat),
        PixelLayout::CmykAlpha => Err(TranscodeError::UnsupportedPixelFormat),
    }
}

/// How the output's color is declared: a standard-profile marker with an
/// intent, or an explicit profile, optionally alongside coded primaries.
#[derive(Debug)]
pub enum ColorDecision {
    StandardProfile { intent: RenderIntent },
    ExplicitProfile { icc: Vec<u8>, cicp: Option<Vec<u8>> },
}

/// Decides how color is declared in the output. An embedded source profile
/// is passed through unless the samples are nonlinearly (XYB) encoded, which
/// is rejected; a recognized standard encoding becomes a standard-profile
/// marker; anything else falls back to the rendering-oriented profile with
/// its coded primaries, when present.
pub fn resolve_color(
    embedded_icc: Option<Vec<u8>>,
    xyb_encoded: bool,
    is_srgb: bool,
    intent: RenderIntent,
    rendered_icc: Vec<u8>,
    cicp: Option<Vec<u8>>,
) -> (r: Result<ColorDecision, TranscodeError>)
    ensures
        r is Err <==> (embedded_icc is Some && xyb_encoded),
        r is Err ==> r == Err::<ColorDecision, TranscodeError>(TranscodeError::UnsupportedIcc),
        embedded_icc matches Some(e) ==> (!xyb_encoded ==> (r matches Ok(
            ColorDecision::ExplicitProfile { icc, cicp: c },
        ) && icc@ == e@ && c is None)),
        (embedded_icc is None && is_srgb) ==> r == Ok::<ColorDecision, TranscodeError>(
            ColorDecision::StandardProfile { intent },
        ),
        (embedded_icc is None && !is_srgb) ==> (r matches Ok(
            ColorDecision::ExplicitProfile { icc, cicp: c },
        ) && icc@ == rendered_icc@ && c == cicp),
{
    match embedded_icc {
        Some(icc) => {
            if xyb_encoded {
                Err(TranscodeError::UnsupportedIcc)
            } else {
                Ok(ColorDecision::ExplicitProfile { icc, cicp: None })
            }
        },
        None => {
            if is_srgb {
                Ok(ColorDecision::StandardProfile { intent })
            } else {
                Ok(ColorDecision::ExplicitProfile { icc: rendered_icc, cicp })
            }
        },
    }
}

/// What the zlib compressor yields for given input bytes. The stream depends
/// on the input alone.
pub uninterp spec fn zlib_deflated(data: Seq<u8>) -> Seq<u8>;

/// Relies on miniz_oxide::deflate::compress_to_vec_zlib, at compression
/// level 7: it computes a zlib stream from the input bytes alone.
#[verifier::external_body]
fn deflate_zlib(data: &Vec<u8>) -> (r: Vec<u8>)
    ensures
        r@ == zlib_deflated(data@),
{
    miniz_oxide::deflate::compress_to_vec_zlib(data.as_slice(), 7)
}

/// The payload of an explicit-profile chunk: a one-character profile name
/// (`0`), a null terminator, the compression method byte, then the
/// zlib-compressed profile.
pub open spec fn iccp_chunk_spec(icc: Seq<u8>) -> Seq<u8> {
    seq![48u8, 0u8, 0u8] + zlib_deflated(icc)
}

/// Builds the explicit-profile chunk payload for a profile.
pub fn iccp_chunk_data(icc: &Vec<u8>) -> (r: Vec<u8>)
    ensures
        r@ == iccp_chunk_spec(icc@),
{
    let mut r: Vec<u8> = Vec::new();
    r.push(48);  // the profile name "0"
    r.push(0);
    r.push(0);
    let mut compressed = deflate_zlib(icc);
    r.append(&mut compressed);
    proof {
        assert(r@ =~= iccp_chunk_spec(icc@));
    }
    r
}

} // verus!
