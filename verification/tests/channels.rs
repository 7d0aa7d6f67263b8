use camera_core::channel::{blue_channel, green_channel, red_channel};

/// Truncation toward zero followed by reduction to the low eight bits.
fn wrap(value: f32) -> u8 {
    (value as i32) as u8
}

fn red_in_floats(luma: u8, cr: u8) -> u8 {
    let y: f32 = luma as f32;
    let v: f32 = cr as f32 - 128.0;
    wrap(y + 1.402 * v)
}

fn green_in_floats(luma: u8, cb: u8, cr: u8) -> u8 {
    let y: f32 = luma as f32;
    let u: f32 = cb as f32 - 128.0;
    let v: f32 = cr as f32 - 128.0;
    wrap(y - 0.344136 * u - 0.714136 * v)
}

fn blue_in_floats(luma: u8, cb: u8) -> u8 {
    let y: f32 = luma as f32;
    let u: f32 = cb as f32 - 128.0;
    wrap(y + 1.772 * u)
}

#[test]
fn red_matches_single_precision_for_every_input() {
    for luma in 0..=255u8 {
        for cr in 0..=255u8 {
            assert_eq!(red_channel(luma, cr), red_in_floats(luma, cr), "luma {luma} cr {cr}");
        }
    }
}

#[test]
fn blue_matches_single_precision_for_every_input() {
    for luma in 0..=255u8 {
        for cb in 0..=255u8 {
            assert_eq!(blue_channel(luma, cb), blue_in_floats(luma, cb), "luma {luma} cb {cb}");
        }
    }
}

fn green_matches_for_lumas(from: u8, to: u8) {
    for luma in from..=to {
        for cb in 0..=255u8 {
            for cr in 0..=255u8 {
                assert_eq!(
                    green_channel(luma, cb, cr),
                    green_in_floats(luma, cb, cr),
                    "luma {luma} cb {cb} cr {cr}"
                );
            }
        }
    }
}

#[test]
fn green_matches_single_precision_for_the_first_eighth_of_lumas() {
    green_matches_for_lumas(0, 31);
}

#[test]
fn green_matches_single_precision_for_the_second_eighth_of_lumas() {
    green_matches_for_lumas(32, 63);
}

#[test]
fn green_matches_single_precision_for_the_third_eighth_of_lumas() {
    green_matches_for_lumas(64, 95);
}

#[test]
fn green_matches_single_precision_for_the_fourth_eighth_of_lumas() {
    green_matches_for_lumas(96, 127);
}

#[test]
fn green_matches_single_precision_for_the_fifth_eighth_of_lumas() {
    green_matches_for_lumas(128, 159);
}

#[test]
fn green_matches_single_precision_for_the_sixth_eighth_of_lumas() {
    green_matches_for_lumas(160, 191);
}

#[test]
fn green_matches_single_precision_for_the_seventh_eighth_of_lumas() {
    green_matches_for_lumas(192, 223);
}

#[test]
fn green_matches_single_precision_for_the_eighth_eighth_of_lumas() {
    green_matches_for_lumas(224, 255);
}

#[test]
fn neutral_chroma_gives_grey() {
    for luma in 0..=255u8 {
        assert_eq!(red_channel(luma, 128), luma);
        assert_eq!(green_channel(luma, 128, 128), luma);
        assert_eq!(blue_channel(luma, 128), luma);
    }
}

#[test]
fn red_is_luma_plus_scaled_cr() {
    // 100 + 1.402 * 72 = 200.944
    assert_eq!(red_channel(100, 200), 200);
    // 100 + 1.402 * -28 = 60.744
    assert_eq!(red_channel(100, 100), 60);
}

#[test]
fn green_is_luma_minus_both_chroma_terms() {
    // 100 - 0.344136 * -78 - 0.714136 * 72 = 75.424816
    assert_eq!(green_channel(100, 50, 200), 75);
    // 200 - 0.344136 * 72 - 0.714136 * -78 = 230.924816
    assert_eq!(green_channel(200, 200, 50), 230);
}

#[test]
fn blue_is_luma_plus_scaled_cb() {
    // 100 + 1.772 * 72 = 227.584
    assert_eq!(blue_channel(100, 200), 227);
    // 100 + 1.772 * -28 = 50.384
    assert_eq!(blue_channel(100, 100), 50);
}

#[test]
fn channels_above_range_wrap() {
    // 255 + 1.402 * 127 = 433.054, and 433 - 256 = 177
    assert_eq!(red_channel(255, 255), 177);
    // 255 + 1.772 * 127 = 480.044, and 480 - 256 = 224
    assert_eq!(blue_channel(255, 255), 224);
    // 255 - 0.344136 * -128 - 0.714136 * -128 = 390.458816, and 390 - 256 = 134
    assert_eq!(green_channel(255, 0, 0), 134);
}

#[test]
fn channels_below_range_wrap() {
    // 0 + 1.402 * -128 = -179.456, truncated to -179, and 256 - 179 = 77
    assert_eq!(red_channel(0, 0), 77);
    // 0 + 1.772 * -128 = -226.816, truncated to -226, and 256 - 226 = 30
    assert_eq!(blue_channel(0, 0), 30);
    // 0 - 0.344136 * 127 - 0.714136 * 127 = -134.400544, and 256 - 134 = 122
    assert_eq!(green_channel(0, 255, 255), 122);
}

#[test]
fn truncation_is_toward_zero() {
    // 10 + 1.402 * -8 = -1.216 truncates to -1, not to -2
    assert_eq!(red_channel(10, 120), 255);
    // 11 + 1.402 * -8 = -0.216 truncates to 0
    assert_eq!(red_channel(11, 120), 0);
    // 12 + 1.402 * -8 = 0.784 truncates to 0
    assert_eq!(red_channel(12, 120), 0);
}

#[test]
fn green_follows_single_precision_where_it_leaves_the_exact_value() {
    // With chroma 228 and 28 the two chroma terms cancel to 37 exactly, but
    // rounded to single precision they leave the sum just inside 37, and
    // truncation gives 36.
    assert_eq!(green_channel(0, 228, 28), 36);
    assert_eq!(green_channel(0, 228, 28), green_in_floats(0, 228, 28));
    // Mirrored, the sum lies just inside -37: truncated to -36, wrapped to 220.
    assert_eq!(green_channel(0, 28, 228), 220);
    assert_eq!(green_channel(0, 28, 228), green_in_floats(0, 28, 228));
}
