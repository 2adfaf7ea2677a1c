use jxl_png::quantize::{frame_bytes, quantize, Sample};

fn sample(num: u64, den: u64) -> Sample {
    Sample { neg: false, num, den }
}

#[test]
fn quantize_zero_yields_zero() {
    assert_eq!(quantize(&sample(0, 1), false), 0);
    assert_eq!(quantize(&sample(0, 1), true), 0);
}

#[test]
fn quantize_one_yields_max() {
    assert_eq!(quantize(&sample(1, 1), false), 255);
    assert_eq!(quantize(&sample(1, 1), true), 65535);
}

#[test]
fn quantize_above_one_clamps_to_max() {
    assert_eq!(quantize(&sample(2, 1), false), 255);
    assert_eq!(quantize(&sample(3, 2), true), 65535);
    assert_eq!(quantize(&sample(u64::MAX, 1), true), 65535);
}

#[test]
fn quantize_negative_clamps_to_zero() {
    let s = Sample { neg: true, num: 1, den: 2 };
    assert_eq!(quantize(&s, false), 0);
    assert_eq!(quantize(&s, true), 0);
    let tiny = Sample { neg: true, num: 1, den: u64::MAX };
    assert_eq!(quantize(&tiny, true), 0);
}

#[test]
fn quantize_rounds_half_up() {
    // 0.5 * 65535 = 32767.5, which rounds up.
    assert_eq!(quantize(&sample(1, 2), true), 32768);
    // 0.5 * 255 + 0.5 = 128.0 exactly.
    assert_eq!(quantize(&sample(1, 2), false), 128);
    // 1/255 * 255 = 1 exactly.
    assert_eq!(quantize(&sample(1, 255), false), 1);
    // 1/510 * 255 = 0.5, which rounds up to 1.
    assert_eq!(quantize(&sample(1, 510), false), 1);
    // Slightly below the halfway point rounds down.
    assert_eq!(quantize(&sample(1, 511), false), 0);
}

#[test]
fn quantize_is_idempotent_at_same_depth() {
    for q in [0u64, 1, 7, 100, 128, 254, 255] {
        assert_eq!(quantize(&sample(q, 255), false), q as u16);
    }
    for q in [0u64, 1, 32768, 65534, 65535] {
        assert_eq!(quantize(&sample(q, 65535), true), q as u16);
    }
}

#[test]
fn quantize_is_monotonic() {
    let ordered = [
        Sample { neg: true, num: 3, den: 1 },
        Sample { neg: true, num: 1, den: 1000 },
        sample(0, 1),
        sample(1, 1000),
        sample(1, 3),
        sample(1, 2),
        sample(2, 3),
        sample(1, 1),
        sample(5, 4),
    ];
    for pair in ordered.windows(2) {
        assert!(quantize(&pair[0], false) <= quantize(&pair[1], false));
        assert!(quantize(&pair[0], true) <= quantize(&pair[1], true));
    }
}

#[test]
fn frame_bytes_eight_bit() {
    let samples = vec![sample(0, 1), sample(1, 2), sample(1, 1), sample(2, 1)];
    let bytes = frame_bytes(&samples, false);
    assert_eq!(bytes, vec![0u8, 128, 255, 255]);
}

#[test]
fn frame_bytes_sixteen_bit_big_endian() {
    let samples = vec![sample(0, 1), sample(1, 2), sample(1, 1)];
    let bytes = frame_bytes(&samples, true);
    assert_eq!(bytes, vec![0u8, 0, 0x80, 0x00, 0xff, 0xff]);
}
