use jxl_png::decode::collect_image;
use jxl_png::TranscodeError;

#[test]
fn empty_input_fails_before_anything_is_planned() {
    let r = collect_image(&[]);
    assert!(matches!(
        r,
        Err(TranscodeError::DecodeFailure) | Err(TranscodeError::NeedMoreData)
    ));
}

#[test]
fn foreign_bytes_fail_to_decode() {
    // A PNG signature is not a JPEG XL stream.
    let r = collect_image(&[0x89, 0x50, 0x4e, 0x47, 0x0d, 0x0a, 0x1a, 0x0a]);
    assert!(matches!(
        r,
        Err(TranscodeError::DecodeFailure) | Err(TranscodeError::NeedMoreData)
    ));
}

#[test]
fn truncated_stream_fails() {
    // The bare codestream signature with everything after it missing.
    let r = collect_image(&[0xff, 0x0a]);
    assert!(matches!(
        r,
        Err(TranscodeError::DecodeFailure) | Err(TranscodeError::NeedMoreData)
    ));
}
