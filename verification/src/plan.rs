use vstd::prelude::*;
use crate::TranscodeError;
use crate::color::{
    color_type_spec, iccp_chunk_data, iccp_chunk_spec, resolve_color, ColorDecision, ColorType,
    PixelLayout, RenderIntent,
};
use crate::header::{build_header, oriented_size_spec, AnimationPlan};
use crate::quantize::{frame_bytes, frame_bytes_spec, Sample};
use crate::timing::{delay_exact, delay_spec, frame_delay, AnimationMeta, TimingRatio, TimingWarning};

verus! {

/// Everything the transcode reads from the decoded image: dimensions and
/// orientation, sample depth, pixel layout, color metadata, and the
/// animation descriptor when the image animates.
#[derive(Debug)]
pub struct ImageMeta {
    pub width: u32,
    pub height: u32,
    pub orientation: u32,
    pub bits_per_sample: u32,
    pub layout: PixelLayout,
    pub xyb_encoded: bool,
    pub is_srgb: bool,
    pub intent: RenderIntent,
    pub cicp: Option<Vec<u8>>,
    pub embedded_icc: Option<Vec<u8>>,
    pub rendered_icc: Vec<u8>,
    pub animation: Option<AnimationMeta>,
}

/// One decoded frame: its duration in ticks and its samples in row-major,
/// channel-interleaved order.
#[derive(Debug)]
pub struct PixelFrame {
    pub duration: u32,
    pub samples: Vec<Sample>,
}

/// Every sample of every frame is well formed.
pub open spec fn pixel_frames_wf(frames: Seq<PixelFrame>) -> bool {
    forall|i: int, j: int|
        0 <= i < frames.len() && 0 <= j < frames[i].samples@.len() ==> (#[trigger] frames[i].samples@[j]).wf()
}

/// What the writer emits for one frame: the delay to commit first when the
/// image animates, a possible timing diagnostic, and the quantized pixel
/// bytes.
#[derive(Debug)]
pub struct FramePlan {
    pub delay: Option<TimingRatio>,
    pub warning: Option<TimingWarning>,
    pub bytes: Vec<u8>,
}

/// The full, ordered plan of one transcode: the header declarations, the
/// color declaration (a standard-profile intent or explicit profile
/// chunks), and the per-frame emissions in display order.
#[derive(Debug)]
pub struct TranscodePlan {
    pub width: u32,
    pub height: u32,
    pub color_type: ColorType,
    pub sixteen_bits: bool,
    pub animation: Option<AnimationPlan>,
    pub srgb_intent: Option<RenderIntent>,
    pub iccp_chunk: Option<Vec<u8>>,
    pub cicp_chunk: Option<Vec<u8>>,
    pub frames: Vec<FramePlan>,
}

/// The plan's color declaration follows the profile-embedding decision.
pub open spec fn color_plan_matches(meta: ImageMeta, p: TranscodePlan) -> bool {
    match meta.embedded_icc {
        Some(e) => {
            &&& p.srgb_intent is None
            &&& p.iccp_chunk matches Some(b) && b@ == iccp_chunk_spec(e@)
            &&& p.cicp_chunk is None
        },
        None => {
            if meta.is_srgb {
                &&& p.srgb_intent == Some(meta.intent)
                &&& p.iccp_chunk is None
                &&& p.cicp_chunk is None
            } else {
                &&& p.srgb_intent is None
                &&& p.iccp_chunk matches Some(b) && b@ == iccp_chunk_spec(meta.rendered_icc@)
                &&& p.cicp_chunk == meta.cicp
            }
        },
    }
}

/// The plan for one frame carries that frame's delay (exactly when the
/// image animates, with its diagnostic) and its quantized bytes.
pub open spec fn frame_plan_matches(
    anim: Option<AnimationMeta>,
    sixteen: bool,
    f: PixelFrame,
    fp: FramePlan,
) -> bool {
    &&& fp.bytes@ == frame_bytes_spec(f.samples@, sixteen)
    &&& match anim {
        Some(a) => {
            &&& fp.delay matches Some(t) && (t.numer as int, t.denom as int) == delay_spec(
                f.duration as int,
                a.tps_numerator as int,
                a.tps_denominator as int,
            )
            &&& (fp.warning is None <==> delay_exact(
                f.duration as int,
                a.tps_numerator as int,
                a.tps_denominator as int,
            ))
            &&& (fp.warning == Some(TimingWarning::MultiPageSentinel) <==> (!delay_exact(
                f.duration as int,
                a.tps_numerator as int,
                a.tps_denominator as int,
            ) && f.duration == 0xffff_ffffu32))
        },
        None => fp.delay is None && fp.warning is None,
    }
}

/// A successful plan reflects the decoded image exactly.
pub open spec fn plan_matches(meta: ImageMeta, frames: Seq<PixelFrame>, p: TranscodePlan) -> bool {
    &&& (p.width, p.height) == oriented_size_spec(meta.width, meta.height, meta.orientation)
    &&& Ok::<ColorType, TranscodeError>(p.color_type) == color_type_spec(meta.layout)
    &&& p.sixteen_bits == (meta.bits_per_sample > 8)
    &&& (meta.animation matches Some(a) ==> p.animation == Some(
        AnimationPlan { frame_count: frames.len() as u32, num_loops: a.num_loops },
    ))
    &&& (meta.animation is None ==> p.animation is None)
    &&& color_plan_matches(meta, p)
    &&& p.frames@.len() == frames.len()
    &&& forall|i: int|
        0 <= i < frames.len() ==> frame_plan_matches(
            meta.animation,
            p.sixteen_bits,
            frames[i],
            #[trigger] p.frames@[i],
        )
}

/// Lays out one whole transcode from the decoded image: header fields,
/// color declaration, and each frame's delay and quantized bytes, in
/// display order. Fails exactly on a pixel layout the container cannot
/// carry, or on an embedded profile combined with nonlinear (XYB) samples.
pub fn plan_transcode(meta: ImageMeta, frames: Vec<PixelFrame>) -> (r: Result<
    TranscodePlan,
    TranscodeError,
>)
    requires
        frames@.len() <= 0xffff_ffff,
        pixel_frames_wf(frames@),
    ensures
        r == Err::<TranscodePlan, TranscodeError>(TranscodeError::UnsupportedPixelFormat)
            <==> color_type_spec(meta.layout) is Err,
        r == Err::<TranscodePlan, TranscodeError>(TranscodeError::UnsupportedIcc) <==> (
        color_type_spec(meta.layout) is Ok && meta.embedded_icc is Some && meta.xyb_encoded),
        r is Err <==> (color_type_spec(meta.layout) is Err || (meta.embedded_icc is Some
            && meta.xyb_encoded)),
        r matches Ok(p) ==> plan_matches(meta, frames@, p),
{
    let ImageMeta {
        width,
        height,
        orientation,
        bits_per_sample,
        layout,
        xyb_encoded,
        is_srgb,
        intent,
        cicp,
        embedded_icc,
        rendered_icc,
        animation,
    } = meta;
    let header = match build_header(
        width,
        height,
        orientation,
        bits_per_sample,
        layout,
        animation,
        frames.len() as u32,
    ) {
        Ok(h) => h,
        Err(e) => {
            return Err(e);
        },
    };
    let decision = match resolve_color(
        embedded_icc,
        xyb_encoded,
        is_srgb,
        intent,
        rendered_icc,
        cicp,
    ) {
        Ok(d) => d,
        Err(e) => {
            return Err(e);
        },
    };
    let (srgb_intent, iccp_chunk, cicp_chunk) = match decision {
        ColorDecision::StandardProfile { intent: i } => (Some(i), None, None),
        ColorDecision::ExplicitProfile { icc, cicp: c } => {
            let chunk = iccp_chunk_data(&icc);
            (None, Some(chunk), c)
        },
    };
    let sixteen = header.sixteen_bits;
    let mut frame_plans: Vec<FramePlan> = Vec::new();
    let mut i: usize = 0;
    while i < frames.len()
        invariant
            i <= frames@.len(),
            pixel_frames_wf(frames@),
            frame_plans@.len() == i,
            forall|k: int|
                0 <= k < i ==> frame_plan_matches(
                    animation,
                    sixteen,
                    frames@[k],
                    #[trigger] frame_plans@[k],
                ),
            animation == meta.animation,
            sixteen == (meta.bits_per_sample > 8),
        decreases frames@.len() - i,
    {
        let f = &frames[i];
        let (delay, warning): (Option<TimingRatio>, Option<TimingWarning>) = match animation {
            Some(a) => {
                let (t, w) = frame_delay(f.duration, a.tps_numerator, a.tps_denominator);
                (Some(t), w)
            },
            None => (None, None),
        };
        let bytes = frame_bytes(&f.samples, sixteen);
        frame_plans.push(FramePlan { delay, warning, bytes });
        i = i + 1;
    }
    Ok(
        TranscodePlan {
            width: header.width,
            height: header.height,
            color_type: header.color_type,
            sixteen_bits: header.sixteen_bits,
            animation: header.animation,
            srgb_intent,
            iccp_chunk,
            cicp_chunk,
            frames: frame_plans,
        },
    )
}

} // verus!
