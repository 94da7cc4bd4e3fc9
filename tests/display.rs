use camera_box::display::{
    convert_rgba_to_bgra, convert_uyvy_to_bgra, frame_to_bgra, scale_nearest_neighbor, FOURCC_RGBA,
};
use camera_box::ndi::{NDILIBD_FOURCC_BGRA, NDILIBD_FOURCC_BGRX, NDILIBD_FOURCC_UYVY};

#[test]
fn test_uyvy_to_bgra_black() {
    // Black in UYVY: Y=16 (video black), U=128, V=128
    // UYVY format: U Y0 V Y1
    let uyvy = vec![128, 16, 128, 16]; // 2 black pixels
    let bgra = convert_uyvy_to_bgra(&uyvy, 2, 1);

    // Should produce near-black pixels
    assert_eq!(bgra.len(), 8); // 2 pixels * 4 bytes
                               // First pixel BGRA
    assert!(bgra[0] < 30, "Blue should be dark: {}", bgra[0]);
    assert!(bgra[1] < 30, "Green should be dark: {}", bgra[1]);
    assert!(bgra[2] < 30, "Red should be dark: {}", bgra[2]);
    assert_eq!(bgra[3], 255, "Alpha should be 255");
}

#[test]
fn test_uyvy_to_bgra_white() {
    // White in UYVY: Y=235 (video white), U=128, V=128
    let uyvy = vec![128, 235, 128, 235]; // 2 white pixels
    let bgra = convert_uyvy_to_bgra(&uyvy, 2, 1);

    assert_eq!(bgra.len(), 8);
    // First pixel should be near-white
    assert!(bgra[0] > 220, "Blue should be bright: {}", bgra[0]);
    assert!(bgra[1] > 220, "Green should be bright: {}", bgra[1]);
    assert!(bgra[2] > 220, "Red should be bright: {}", bgra[2]);
    assert_eq!(bgra[3], 255);
}

#[test]
fn test_uyvy_to_bgra_red() {
    // Red in UYVY: Y=81, U=90, V=240 (approximate)
    let uyvy = vec![90, 81, 240, 81];
    let bgra = convert_uyvy_to_bgra(&uyvy, 2, 1);

    assert_eq!(bgra.len(), 8);
    // Red channel should be high, blue/green low
    assert!(bgra[2] > bgra[0], "Red > Blue for red pixel");
    assert!(bgra[2] > bgra[1], "Red > Green for red pixel");
}

#[test]
fn test_uyvy_to_bgra_green() {
    // Green in UYVY: Y=145, U=54, V=34 (approximate)
    let uyvy = vec![54, 145, 34, 145];
    let bgra = convert_uyvy_to_bgra(&uyvy, 2, 1);

    assert_eq!(bgra.len(), 8);
    // Green channel should be highest
    assert!(bgra[1] > bgra[0], "Green > Blue for green pixel");
    assert!(bgra[1] > bgra[2], "Green > Red for green pixel");
}

#[test]
fn test_uyvy_to_bgra_blue() {
    // Blue in UYVY: Y=41, U=240, V=110 (approximate)
    let uyvy = vec![240, 41, 110, 41];
    let bgra = convert_uyvy_to_bgra(&uyvy, 2, 1);

    assert_eq!(bgra.len(), 8);
    // Blue channel should be highest
    assert!(bgra[0] > bgra[1], "Blue > Green for blue pixel");
    assert!(bgra[0] > bgra[2], "Blue > Red for blue pixel");
}

#[test]
fn test_uyvy_to_bgra_output_size() {
    // 4x2 image in UYVY = 4*2*2 = 16 bytes
    let uyvy = vec![128u8; 16];
    let bgra = convert_uyvy_to_bgra(&uyvy, 4, 2);

    // 4x2 in BGRA = 4*2*4 = 32 bytes
    assert_eq!(bgra.len(), 32);
}

#[test]
fn test_rgba_to_bgra_swap() {
    // RGBA: R=255, G=128, B=64, A=200
    let rgba = vec![255, 128, 64, 200];
    let bgra = convert_rgba_to_bgra(&rgba);

    assert_eq!(bgra.len(), 4);
    assert_eq!(bgra[0], 64, "B should be from R position");
    assert_eq!(bgra[1], 128, "G stays in place");
    assert_eq!(bgra[2], 255, "R should be from B position");
    assert_eq!(bgra[3], 200, "A stays in place");
}

#[test]
fn test_rgba_to_bgra_multiple_pixels() {
    // 2 pixels
    let rgba = vec![
        255, 0, 0, 255, // Red pixel
        0, 255, 0, 255, // Green pixel
    ];
    let bgra = convert_rgba_to_bgra(&rgba);

    assert_eq!(bgra.len(), 8);
    // First pixel (was RGBA red, now BGRA)
    assert_eq!(bgra[0], 0); // B
    assert_eq!(bgra[1], 0); // G
    assert_eq!(bgra[2], 255); // R
    assert_eq!(bgra[3], 255); // A

    // Second pixel (was RGBA green, now BGRA)
    assert_eq!(bgra[4], 0); // B
    assert_eq!(bgra[5], 255); // G
    assert_eq!(bgra[6], 0); // R
    assert_eq!(bgra[7], 255); // A
}

#[test]
fn test_scale_nearest_passthrough() {
    // Same size should be identity (but creates new buffer)
    let src = vec![1, 2, 3, 4, 5, 6, 7, 8]; // 2x1 image
    let dst = scale_nearest_neighbor(&src, 2, 1, 2, 1);

    assert_eq!(dst.len(), 8);
    assert_eq!(dst, src);
}

#[test]
fn test_scale_nearest_downscale_2x() {
    // 4x2 → 2x1 (4x downscale)
    // Source: 4 pixels wide, 2 tall
    let mut src = vec![0u8; 4 * 2 * 4];
    // Set pixel (0,0) to red
    src[0] = 0;
    src[1] = 0;
    src[2] = 255;
    src[3] = 255;
    // Set pixel (2,0) to green
    src[8] = 0;
    src[9] = 255;
    src[10] = 0;
    src[11] = 255;

    let dst = scale_nearest_neighbor(&src, 4, 2, 2, 1);

    assert_eq!(dst.len(), 8); // 2 pixels * 4 bytes
                              // First output pixel should sample from (0,0) area - red
    assert_eq!(dst[2], 255, "First pixel should be red");
    // Second output pixel should sample from (2,0) area - green
    assert_eq!(dst[5], 255, "Second pixel should be green");
}

#[test]
fn test_scale_nearest_upscale_2x() {
    // 2x1 → 4x2 (4x upscale)
    let src = vec![
        255, 0, 0, 255, // Blue pixel
        0, 255, 0, 255, // Green pixel
    ];

    let dst = scale_nearest_neighbor(&src, 2, 1, 4, 2);

    assert_eq!(dst.len(), 4 * 2 * 4);
    // All pixels in left half should be blue
    assert_eq!(dst[0], 255, "Pixel (0,0) should be blue");
    assert_eq!(dst[4], 255, "Pixel (1,0) should be blue");
    // All pixels in right half should be green
    assert_eq!(dst[9], 255, "Pixel (2,0) should be green");
    assert_eq!(dst[13], 255, "Pixel (3,0) should be green");
}

#[test]
fn test_scale_nearest_odd_dimensions() {
    // 3x3 → 5x5 (non-integer scale factor)
    let src = vec![128u8; 3 * 3 * 4];
    let dst = scale_nearest_neighbor(&src, 3, 3, 5, 5);

    assert_eq!(dst.len(), 5 * 5 * 4);
    // All pixels should have value 128
    for chunk in dst.chunks(4) {
        assert_eq!(chunk[0], 128);
    }
}

#[test]
fn test_uyvy_to_bgra_empty_input() {
    let uyvy: Vec<u8> = vec![];
    let bgra = convert_uyvy_to_bgra(&uyvy, 0, 0);
    assert!(bgra.is_empty());
}

#[test]
fn test_rgba_to_bgra_empty_input() {
    let rgba: Vec<u8> = vec![];
    let bgra = convert_rgba_to_bgra(&rgba);
    assert!(bgra.is_empty());
}

#[test]
fn test_uyvy_to_bgra_large_frame() {
    // Full HD frame
    let width = 1920u32;
    let height = 1080u32;
    let uyvy = vec![128u8; (width * height * 2) as usize];
    let bgra = convert_uyvy_to_bgra(&uyvy, width, height);

    assert_eq!(bgra.len(), (width * height * 4) as usize);
}

#[test]
fn test_yuv_clamping() {
    // Test that extreme YUV values clamp properly and don't overflow
    // Max Y, extreme U/V that would cause overflow without clamping
    let uyvy = vec![255, 255, 255, 255];
    let bgra = convert_uyvy_to_bgra(&uyvy, 2, 1);

    // Should produce 2 pixels (8 bytes) without panicking
    assert_eq!(bgra.len(), 8);
    // Values should be valid u8 (this mainly tests no panic occurred)
    assert!(!bgra.is_empty());
}

#[test]
fn uyvy_to_bgra_exact_values() {
    // Neutral chroma keeps luma in all three channels.
    let bgra = convert_uyvy_to_bgra(&[128, 100, 128, 200], 2, 1);
    assert_eq!(bgra, vec![100, 100, 100, 255, 200, 200, 200, 255]);
    // u = 90 - 128 = -38, v = 240 - 128 = 112, y = 81.
    // b = 81 + trunc(454 * -38 / 256) = 81 - 67 = 14
    // g = 81 - trunc(88 * -38 / 256) - trunc(183 * 112 / 256) = 81 + 13 - 80 = 14
    // r = 81 + trunc(359 * 112 / 256) = 81 + 157 = 238
    let red = convert_uyvy_to_bgra(&[90, 81, 240, 81], 2, 1);
    assert_eq!(&red[0..4], &[14, 14, 238, 255]);
}

#[test]
fn uyvy_to_bgra_stops_at_short_buffer() {
    // A 4x2 frame whose buffer holds only the first row and one byte more.
    let uyvy = vec![128u8; 9];
    let bgra = convert_uyvy_to_bgra(&uyvy, 4, 2);
    assert_eq!(bgra.len(), 16);
}

#[test]
fn rgba_to_bgra_ignores_trailing_bytes() {
    let bgra = convert_rgba_to_bgra(&[1, 2, 3, 4, 5, 6]);
    assert_eq!(bgra, vec![3, 2, 1, 4]);
}

#[test]
fn scale_leaves_zero_where_source_is_short() {
    // The source claims 2x1 pixels but holds only one.
    let dst = scale_nearest_neighbor(&[9, 8, 7, 6], 2, 1, 2, 1);
    assert_eq!(dst, vec![9, 8, 7, 6, 0, 0, 0, 0]);
}

#[test]
fn frame_to_bgra_dispatches_on_fourcc() {
    let px = [1u8, 2, 3, 4];
    assert_eq!(frame_to_bgra(&px, 1, 1, NDILIBD_FOURCC_BGRA), px.to_vec());
    assert_eq!(frame_to_bgra(&px, 1, 1, NDILIBD_FOURCC_BGRX), px.to_vec());
    assert_eq!(frame_to_bgra(&px, 1, 1, FOURCC_RGBA), vec![3, 2, 1, 4]);
    let uyvy = [128u8, 100, 128, 200];
    let expected = vec![100, 100, 100, 255, 200, 200, 200, 255];
    assert_eq!(frame_to_bgra(&uyvy, 2, 1, NDILIBD_FOURCC_UYVY), expected);
    assert_eq!(frame_to_bgra(&uyvy, 2, 1, 0), expected);
}
