use bgm::compositor::{composite, TARGET_BG_B, TARGET_BG_G, TARGET_BG_R};
use bgm::tensor::FrameTensor;

fn alpha_plane(value: u8, wh: usize, width: usize, height: usize) -> FrameTensor {
    FrameTensor { data: vec![value; wh], channels: 1, width, height }
}

#[test]
fn opaque_alpha_returns_foreground_exactly() {
    let fg = FrameTensor {
        data: vec![0, 255, 17, 120, 255, 155, 1, 2, 3, 200, 100, 50],
        channels: 3,
        width: 2,
        height: 2,
    };
    let alpha = alpha_plane(255, 4, 2, 2);
    let out = composite(&alpha, &fg);
    assert_eq!(out.data, fg.data);
}

#[test]
fn transparent_alpha_returns_backdrop_exactly() {
    let fg = FrameTensor {
        data: vec![9, 8, 7, 6, 5, 4, 3, 2, 1, 0, 255, 128],
        channels: 3,
        width: 2,
        height: 2,
    };
    let alpha = alpha_plane(0, 4, 2, 2);
    let out = composite(&alpha, &fg);
    let mut expected = Vec::new();
    expected.extend(vec![TARGET_BG_R; 4]);
    expected.extend(vec![TARGET_BG_G; 4]);
    expected.extend(vec![TARGET_BG_B; 4]);
    assert_eq!(out.data, expected);
}

#[test]
fn half_alpha_blends_both_terms() {
    // One pixel, alpha 128: channel value (a*f + (255-a)*bg) / 255.
    //   red:   (128*200 + 127*120) / 255 = 40840 / 255 = 160
    //   green: (128*10  + 127*255) / 255 = 33665 / 255 = 132
    //   blue:  (128*0   + 127*155) / 255 = 19685 / 255 = 77
    let fg = FrameTensor { data: vec![200, 10, 0], channels: 3, width: 1, height: 1 };
    let alpha = alpha_plane(128, 1, 1, 1);
    let out = composite(&alpha, &fg);
    assert_eq!(out.data, vec![160, 132, 77]);
}

#[test]
fn backdrop_constant_is_the_documented_color() {
    assert_eq!((TARGET_BG_R, TARGET_BG_G, TARGET_BG_B), (120, 255, 155));
}
