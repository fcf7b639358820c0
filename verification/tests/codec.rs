use bgm::codec::{rgb2yuyv, yuyv2rgb};

#[test]
fn decode_length_is_three_halves() {
    assert_eq!(yuyv2rgb(&[]).len(), 0);
    assert_eq!(yuyv2rgb(&[0, 128, 0, 128]).len(), 6);
    assert_eq!(yuyv2rgb(&[7; 8]).len(), 12);
    assert_eq!(yuyv2rgb(&[1; 40]).len(), 60);
    assert_eq!(yuyv2rgb(&[9; 640 * 360 * 2]).len(), 640 * 360 * 3);
}

#[test]
fn encode_length_is_two_thirds() {
    assert_eq!(rgb2yuyv(&[]).len(), 0);
    assert_eq!(rgb2yuyv(&[5, 6, 7]).len(), 2);
    assert_eq!(rgb2yuyv(&[5; 9]).len(), 6);
    assert_eq!(rgb2yuyv(&[1; 30]).len(), 20);
    assert_eq!(rgb2yuyv(&[9; 640 * 360 * 3]).len(), 640 * 360 * 2);
}

#[test]
fn decode_known_two_by_two_frame() {
    // One pixel pair [Y0, U, Y1, V] = [90, 100, 200, 150], repeated for
    // two rows of a 2x2 frame.
    //
    // Pixel 0: y = 90 << 8 = 23040, u = 100 - 128 = -28, v = 150 - 128 = 22.
    //   r = (23040 + 359 * 22) >> 8   = 30938 >> 8 = 120
    //   g = (23040 + 2464 - 4026) >> 8 = 21478 >> 8 = 83
    //   b = (23040 - 12712) >> 8      = 10328 >> 8 = 40
    // Pixel 1: y = 200 << 8 = 51200, same chroma.
    //   r = 59098 >> 8 = 230, g = 49638 >> 8 = 193, b = 38488 >> 8 = 150
    let yuyv = [90, 100, 200, 150, 90, 100, 200, 150];
    let expected = [
        120, 83, 40, 230, 193, 150, //
        120, 83, 40, 230, 193, 150,
    ];
    assert_eq!(yuyv2rgb(&yuyv), expected);
}

#[test]
fn decode_clamps_channels_to_byte_range() {
    // Saturated chroma drives red far above 255 and blue far below 0.
    let bright = yuyv2rgb(&[255, 255, 255, 255]);
    assert_eq!(bright[0], 255); // (65280 + 359*127) >> 8 clamps high
    let dark = yuyv2rgb(&[0, 0, 0, 0]);
    assert_eq!(dark[0], 0); // (0 + 359*(-128)) >> 8 clamps low
    assert_eq!(dark[2], 0); // (0 + 454*(-128)) >> 8 clamps low
}

#[test]
fn encode_known_pixel_pair() {
    // Pixels (120, 83, 40) and (230, 193, 150).
    //   y0 = (257*120 + 504*83 + 98*40 + 16000) / 1000 = 92592 / 1000 = 92
    //   u0 = (128000 + 439*40 - 148*120 - 291*83) / 1000 = 103647 / 1000 = 103
    //   y1 = (257*230 + 504*193 + 98*150 + 16000) / 1000 = 187082 / 1000 = 187
    //   v1 = (439*230 - 368*193 - 71*150 + 128000) / 1000 = 147296 / 1000 = 147
    let rgb = [120, 83, 40, 230, 193, 150];
    assert_eq!(rgb2yuyv(&rgb), [92, 103, 187, 147]);
}

#[test]
fn encode_even_pixel_contributes_u_odd_contributes_v() {
    // Four identical pixels: lumas equal, byte 1 is the U sample of the
    // even pixels and byte 3 the V sample of the odd ones.
    let rgb = [10, 20, 30, 10, 20, 30, 10, 20, 30, 10, 20, 30];
    let yuyv = rgb2yuyv(&rgb);
    // y = (2570 + 10080 + 2940 + 16000)/1000 = 31
    // u = (128000 + 13170 - 1480 - 5820)/1000 = 133
    // v = (4390 - 7360 - 2130 + 128000)/1000 = 122
    assert_eq!(yuyv, [31, 133, 31, 122, 31, 133, 31, 122]);
}

#[test]
fn round_trip_solid_grey_within_tolerance() {
    // A solid grey close to the codec pair's fixed point: encoding then
    // decoding must reproduce each channel within +/- 2.
    let rgb = vec![114u8; 4 * 3];
    let decoded = yuyv2rgb(&rgb2yuyv(&rgb));
    assert_eq!(decoded.len(), rgb.len());
    for (&got, &want) in decoded.iter().zip(rgb.iter()) {
        assert!((got as i32 - want as i32).abs() <= 2, "{got} vs {want}");
    }
}
