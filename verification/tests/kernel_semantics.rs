use gpu_calc::image::{expand_rgb_to_rgba, ImageBuffer};
use gpu_calc::kernels::{compile, KernelKind};

fn image_from(width: u32, height: u32, bytes: Vec<u8>) -> ImageBuffer {
    ImageBuffer::new(width, height, bytes).expect("valid test image")
}

fn apply_kind(kind: KernelKind, img: &ImageBuffer) -> ImageBuffer {
    compile(kind).expect("closed kernel set compiles").apply(img)
}

#[test]
fn grayscale_channels_equal_and_alpha_opaque() {
    let bytes = vec![
        10, 20, 30, 255, 200, 100, 0, 7, //
        255, 255, 255, 0, 1, 2, 3, 4, //
        90, 60, 30, 255, 0, 0, 0, 0,
    ];
    let img = image_from(2, 3, bytes);
    let out = apply_kind(KernelKind::Grayscale, &img);
    assert_eq!(out.width, 2);
    assert_eq!(out.height, 3);
    for p in 0..6 {
        let r = out.bytes[4 * p];
        let g = out.bytes[4 * p + 1];
        let b = out.bytes[4 * p + 2];
        let a = out.bytes[4 * p + 3];
        assert_eq!(r, g);
        assert_eq!(g, b);
        assert_eq!(a, 255);
    }
    // exact averages, truncating division
    assert_eq!(out.bytes[0], 20); // (10+20+30)/3
    assert_eq!(out.bytes[4], 100); // (200+100+0)/3
    assert_eq!(out.bytes[8], 255); // (255*3)/3
    assert_eq!(out.bytes[12], 2); // (1+2+3)/3
}

#[test]
fn invert_exact_values() {
    let img = image_from(1, 1, vec![100, 150, 200, 255]);
    let out = apply_kind(KernelKind::Invert, &img);
    assert_eq!(out.bytes, vec![155, 105, 55, 255]);
}

#[test]
fn invert_twice_restores_opaque_image() {
    let bytes = vec![
        0, 1, 2, 255, 254, 253, 128, 255, //
        77, 13, 200, 255, 255, 0, 99, 255,
    ];
    let img = image_from(4, 1, bytes.clone());
    let once = apply_kind(KernelKind::Invert, &img);
    let twice = apply_kind(KernelKind::Invert, &once);
    assert_eq!(twice.bytes, bytes);
}

#[test]
fn blur_keeps_dimensions() {
    let bytes = vec![
        1, 2, 3, 255, 4, 5, 6, 255, 7, 8, 9, 255, //
        10, 11, 12, 255, 13, 14, 15, 255, 16, 17, 18, 255,
    ];
    let img = image_from(3, 2, bytes);
    let out = apply_kind(KernelKind::Blur(2), &img);
    assert_eq!(out.width, 3);
    assert_eq!(out.height, 2);
    assert_eq!(out.bytes.len(), 3 * 2 * 4);
}

#[test]
fn blur_on_uniform_image_is_identity() {
    let mut bytes = Vec::new();
    for _ in 0..20 {
        bytes.extend_from_slice(&[10, 20, 30, 255]);
    }
    let img = image_from(5, 4, bytes.clone());
    let out = apply_kind(KernelKind::Blur(3), &img);
    assert_eq!(out.bytes, bytes);
}

#[test]
fn blur_clamped_average_exact() {
    // 2x1 grid, radius 1: each pixel averages a 3x3 window whose rows are
    // identical (vertical clamp) and whose columns clamp at the edges.
    let img = image_from(2, 1, vec![10, 10, 10, 255, 40, 40, 40, 255]);
    let out = apply_kind(KernelKind::Blur(1), &img);
    // left pixel: 3 * (10 + 10 + 40) = 180, 180 / 9 = 20
    // right pixel: 3 * (10 + 40 + 40) = 270, 270 / 9 = 30
    assert_eq!(out.bytes, vec![20, 20, 20, 255, 30, 30, 30, 255]);
}

#[test]
fn grayscale_average_rounds_to_nearest() {
    // means 4/3 and 5/3: nearest values are 1 and 2, not the truncated 1
    let img = image_from(2, 1, vec![1, 1, 2, 255, 1, 2, 2, 255]);
    let out = apply_kind(KernelKind::Grayscale, &img);
    assert_eq!(out.bytes, vec![1, 1, 1, 255, 2, 2, 2, 255]);
}

#[test]
fn blur_average_rounds_to_nearest() {
    // 2x1 grid of 0s and 2s, radius 1: window means 6/9 and 12/9 both
    // round to 1, where truncation would give 0 and 1
    let img = image_from(2, 1, vec![0, 0, 0, 255, 2, 2, 2, 255]);
    let out = apply_kind(KernelKind::Blur(1), &img);
    assert_eq!(out.bytes, vec![1, 1, 1, 255, 1, 1, 1, 255]);
}

#[test]
fn blur_radius_zero_is_identity_on_color_channels() {
    let img = image_from(2, 1, vec![9, 8, 7, 255, 6, 5, 4, 255]);
    let out = apply_kind(KernelKind::Blur(0), &img);
    assert_eq!(out.bytes, vec![9, 8, 7, 255, 6, 5, 4, 255]);
}

#[test]
fn channel_access_is_row_major_rgba() {
    let img = image_from(2, 2, (0u8..16).collect());
    assert_eq!(img.channel_at(0, 0, 0), 0);
    assert_eq!(img.channel_at(1, 0, 2), 6);
    assert_eq!(img.channel_at(0, 1, 1), 9);
    assert_eq!(img.channel_at(1, 1, 3), 15);
}

#[test]
fn image_buffer_rejects_wrong_length() {
    assert!(ImageBuffer::new(2, 2, vec![0; 16]).is_ok());
    assert!(ImageBuffer::new(2, 2, vec![0; 15]).is_err());
    assert!(ImageBuffer::new(2, 2, vec![0; 17]).is_err());
    assert!(ImageBuffer::new(0, 2, vec![]).is_err());
}

#[test]
fn expand_rgb_adds_opaque_alpha() {
    let rgb = vec![1, 2, 3, 4, 5, 6];
    let rgba = expand_rgb_to_rgba(&rgb).expect("multiple of three");
    assert_eq!(rgba, vec![1, 2, 3, 255, 4, 5, 6, 255]);
}

#[test]
fn expand_rgb_rejects_ragged_input() {
    let rgb = vec![1, 2, 3, 4];
    assert!(expand_rgb_to_rgba(&rgb).is_err());
}
