use vstd::prelude::*;

pub mod quantize;
pub mod timing;
pub mod color;
pub mod header;
pub mod plan;
pub mod decode;

verus! {

/// The error kinds a transcode can end with. Every failure is terminal for
/// the invocation; nothing is retried.
#[derive(Clone, Copy, Debug, PartialEq, Eq, Structural)]
pub enum TranscodeError {
    /// The source bitstream is malformed and could not be decoded.
    DecodeFailure,
    /// The decoder stalled waiting for bytes that will never arrive.
    NeedMoreData,
    /// The pixel layout is outside the four supported channel configurations.
    UnsupportedPixelFormat,
    /// An embedded color profile is incompatible with nonlinear samples.
    UnsupportedIcc,
    /// The container encoder rejected the structure being written.
    ContainerEncodingFailure,
    /// The byte sink rejected a write.
    SinkFailure,
}

} // verus!
