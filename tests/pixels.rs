use sengaka::{
    color_dodge, dodge_sample, invert, level_sample, levels, sketch, to_rgba, SHADOW_DEFAULT,
};

#[test]
fn dodge_with_white_top_is_white() {
    assert_eq!(dodge_sample(128, 255), 255);
    assert_eq!(dodge_sample(0, 255), 255);
}

#[test]
fn dodge_within_range_is_not_clamped() {
    // 64 / 255 / (1 - 128 / 255) = 64 / 127, times 255 is 128.5
    assert_eq!(dodge_sample(64, 128), 128);
    assert_eq!(dodge_sample(0, 100), 0);
    assert_eq!(dodge_sample(100, 0), 100);
}

#[test]
fn dodge_above_range_is_clamped() {
    assert_eq!(dodge_sample(200, 100), 255);
    assert_eq!(dodge_sample(155, 100), 255);
    assert_eq!(dodge_sample(154, 100), 253);
}

#[test]
fn levels_with_zero_shadow_keeps_only_white() {
    for v in 0..255u8 {
        assert_eq!(level_sample(v, 0), 0);
    }
    assert_eq!(level_sample(255, 0), 255);
}

#[test]
fn levels_with_default_shadow() {
    assert_eq!(SHADOW_DEFAULT, 150);
    for v in 0..=150u8 {
        assert_eq!(level_sample(v, 150), 0);
    }
    assert_eq!(level_sample(255, 150), 255);
    // (200 - 150) / (255 - 150) * 255 = 121.43
    assert_eq!(level_sample(200, 150), 121);
    assert_eq!(level_sample(151, 150), 2);
}

#[test]
fn levels_with_full_shadow_is_black() {
    assert_eq!(level_sample(255, 255), 0);
    assert_eq!(level_sample(0, 255), 0);
}

#[test]
fn invert_complements_each_sample() {
    let mut v = vec![0u8, 1, 128, 255];
    invert(&mut v);
    assert_eq!(v, vec![255u8, 254, 127, 0]);
}

#[test]
fn color_dodge_blends_sample_by_sample() {
    let mut bottom = vec![128u8, 64, 10, 99];
    let top = vec![255u8, 128, 0];
    color_dodge(&mut bottom, &top);
    assert_eq!(bottom, vec![255u8, 128, 10, 99]);
}

#[test]
fn levels_maps_every_sample() {
    let mut img = vec![0u8, 150, 200, 255];
    levels(&mut img, 150);
    assert_eq!(img, vec![0u8, 0, 121, 255]);
}

#[test]
fn to_rgba_spreads_gray_over_opaque_pixels() {
    assert_eq!(to_rgba(&vec![7u8, 200]), vec![7u8, 7, 7, 255, 200, 200, 200, 255]);
    assert_eq!(to_rgba(&vec![]), Vec::<u8>::new());
}

#[test]
fn sketch_dodges_then_levels() {
    let base = vec![64u8, 128, 250];
    let blurred = vec![128u8, 255];
    let r = sketch(&base, &blurred, 150);
    // 64 by 128 dodges to 128, which is below the shadow; 128 by 255 is white;
    // 250 has no blurred sample and is only levelled.
    let last = level_sample(250, 150);
    assert_eq!(r, vec![0u8, 0, 0, 255, 255, 255, 255, 255, last, last, last, 255]);
    assert_eq!(last, 242);
}

#[test]
fn sketch_is_not_idempotent() {
    let base = vec![100u8, 200];
    let blurred = vec![50u8, 50];
    let once = sketch(&base, &blurred, 150);
    assert_eq!(once, vec![0u8, 0, 0, 255, 238, 238, 238, 255]);
    let once_gray: Vec<u8> = once.iter().step_by(4).cloned().collect();
    let twice = sketch(&once_gray, &blurred, 150);
    assert_eq!(twice, vec![0u8, 0, 0, 255, 255, 255, 255, 255]);
    assert_ne!(twice, once);
}
