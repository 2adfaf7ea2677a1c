use vstd::prelude::*;
use crate::TranscodeError;
use crate::color::{color_type_for, color_type_spec, ColorType, PixelLayout};
use crate::timing::AnimationMeta;

verus! {

/// The reported image size once the stored orientation is applied: the
/// transposing orientations swap width and height; the others keep them.
/// Pixel reordering for orientation is out of scope here and left to the
/// decoder.
pub open spec fn oriented_size_spec(width: u32, height: u32, orientation: u32) -> (u32, u32) {
    if 5 <= orientation <= 8 {
        (height, width)
    } else {
        (width, height)
    }
}

/// Applies the stored orientation to the reported dimensions.
pub fn oriented_size(width: u32, height: u32, orientation: u32) -> (r: (u32, u32))
    ensures
        r == oriented_size_spec(width, height, orientation),
{
    if 5 <= orientation && orientation <= 8 {
        (height, width)
    } else {
        (width, height)
    }
}

/// The animation declaration of the container: the exact frame count and
/// the loop count (zero meaning infinite).
#[derive(Clone, Copy, Debug, PartialEq, Eq, Structural)]
pub struct AnimationPlan {
    pub frame_count: u32,
    pub num_loops: u32,
}

/// The container-level header parameters assembled from decoded metadata.
#[derive(Clone, Copy, Debug, PartialEq, Eq, Structural)]
pub struct HeaderPlan {
    pub width: u32,
    pub height: u32,
    pub color_type: ColorType,
    pub sixteen_bits: bool,
    pub animation: Option<AnimationPlan>,
}

/// Assembles the container header fields: oriented dimensions, the color
/// type for the pixel layout, the target depth (8 bits, or 16 for any
/// deeper source), and the animation declaration when the source animates.
pub fn build_header(
    width: u32,
    height: u32,
    orientation: u32,
    bits_per_sample: u32,
    layout: PixelLayout,
    animation: Option<AnimationMeta>,
    frame_count: u32,
) -> (r: Result<HeaderPlan, TranscodeError>)
    ensures
        r is Err <==> color_type_spec(layout) is Err,
        r is Err ==> r == Err::<HeaderPlan, TranscodeError>(TranscodeError::UnsupportedPixelFormat),
        r matches Ok(h) ==> {
            &&& (h.width, h.height) == oriented_size_spec(width, height, orientation)
            &&& Ok::<ColorType, TranscodeError>(h.color_type) == color_type_spec(layout)
            &&& h.sixteen_bits == (bits_per_sample > 8)
            &&& (animation matches Some(a) ==> h.animation == Some(
                AnimationPlan { frame_count, num_loops: a.num_loops },
            ))
            &&& (animation is None ==> h.animation is None)
        },
{
    let color_type = match color_type_for(layout) {
        Ok(c) => c,
        Err(e) => {
            return Err(e);
        },
    };
    let (w, h) = oriented_size(width, height, orientation);
    let animation_plan = match animation {
        Some(a) => Some(AnimationPlan { frame_count, num_loops: a.num_loops }),
        None => None,
    };
    Ok(
        HeaderPlan {
            width: w,
            height: h,
            color_type,
            sixteen_bits: bits_per_sample > 8,
            animation: animation_plan,
        },
    )
}

} // verus!
