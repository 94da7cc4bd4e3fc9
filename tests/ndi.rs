use camera_box::ndi::{
    convert_bgra_to_uyvy, convert_nv12_to_uyvy, convert_yuyv_to_uyvy_scalar, source_format,
    ReceivedFrame, SourceFormat, NDILIBD_FOURCC_BGRA, NDILIBD_FOURCC_UYVY,
};

#[test]
fn test_yuyv_to_uyvy_scalar_basic() {
    // YUYV: Y0=10, U=20, Y1=30, V=40
    let yuyv = vec![10, 20, 30, 40];
    let uyvy = convert_yuyv_to_uyvy_scalar(&yuyv);

    // Expected UYVY: U=20, Y0=10, V=40, Y1=30
    assert_eq!(uyvy, vec![20, 10, 40, 30]);
}

#[test]
fn test_yuyv_to_uyvy_scalar_multiple_pixels() {
    // Two sets of pixel pairs
    let yuyv = vec![
        10, 20, 30, 40, // First pair
        50, 60, 70, 80, // Second pair
    ];
    let uyvy = convert_yuyv_to_uyvy_scalar(&yuyv);

    assert_eq!(uyvy.len(), 8);
    assert_eq!(uyvy[0..4], [20, 10, 40, 30]); // First pair
    assert_eq!(uyvy[4..8], [60, 50, 80, 70]); // Second pair
}

#[test]
fn test_yuyv_to_uyvy_scalar_all_values() {
    // Test with all byte values 0-255 (cycling)
    let yuyv: Vec<u8> = (0..=255).cycle().take(256).collect();
    let uyvy = convert_yuyv_to_uyvy_scalar(&yuyv);

    assert_eq!(uyvy.len(), 256);
    // Verify swapping pattern
    for i in (0..256).step_by(4) {
        assert_eq!(uyvy[i], yuyv[i + 1], "U should be from position 1");
        assert_eq!(uyvy[i + 1], yuyv[i], "Y0 should be from position 0");
        assert_eq!(uyvy[i + 2], yuyv[i + 3], "V should be from position 3");
        assert_eq!(uyvy[i + 3], yuyv[i + 2], "Y1 should be from position 2");
    }
}

#[test]
fn test_yuyv_to_uyvy_length_preserved() {
    for size in [4, 8, 64, 256, 1024, 1920 * 2] {
        let yuyv: Vec<u8> = vec![128; size];
        let uyvy = convert_yuyv_to_uyvy_scalar(&yuyv);
        assert_eq!(
            uyvy.len(),
            size,
            "Length should be preserved for size {}",
            size
        );
    }
}



#[test]
fn test_nv12_to_uyvy_basic() {
    // Simple 2x2 NV12 frame
    // Y plane: 4 bytes (2x2)
    // UV plane: 2 bytes (1x2, interleaved)
    let nv12 = vec![
        100, 110, // Y row 0
        120, 130, // Y row 1
        64, 192, // UV (U=64, V=192)
    ];
    let uyvy = convert_nv12_to_uyvy(&nv12, 2, 2);

    assert_eq!(uyvy.len(), 8); // 2x2 * 2 bytes per pixel
                               // First row: U=64, Y0=100, V=192, Y1=110
    assert_eq!(uyvy[0], 64); // U
    assert_eq!(uyvy[1], 100); // Y0
    assert_eq!(uyvy[2], 192); // V
    assert_eq!(uyvy[3], 110); // Y1
}

#[test]
fn test_nv12_to_uyvy_output_size() {
    // Full HD NV12
    let width = 1920usize;
    let height = 1080usize;
    let y_size = width * height;
    let uv_size = width * height / 2;
    let nv12 = vec![128u8; y_size + uv_size];

    let uyvy = convert_nv12_to_uyvy(&nv12, width, height);
    assert_eq!(uyvy.len(), width * height * 2);
}

#[test]
fn test_bgra_to_uyvy_black() {
    // Black pixel: BGRA = (0, 0, 0, 255)
    let bgra = vec![0, 0, 0, 255, 0, 0, 0, 255]; // 2 black pixels
    let uyvy = convert_bgra_to_uyvy(&bgra, 2, 1);

    assert_eq!(uyvy.len(), 4);
    // Y should be ~16 (video black), U and V should be ~128 (neutral)
    assert_eq!(uyvy[1], 16, "Y0 should be video black (16)");
    assert_eq!(uyvy[3], 16, "Y1 should be video black (16)");
    assert!((uyvy[0] as i32 - 128).abs() < 5, "U should be neutral");
    assert!((uyvy[2] as i32 - 128).abs() < 5, "V should be neutral");
}

#[test]
fn test_bgra_to_uyvy_white() {
    // White pixel: BGRA = (255, 255, 255, 255)
    let bgra = vec![255, 255, 255, 255, 255, 255, 255, 255];
    let uyvy = convert_bgra_to_uyvy(&bgra, 2, 1);

    assert_eq!(uyvy.len(), 4);
    // Y should be 235 (video white)
    assert_eq!(uyvy[1], 235, "Y0 should be video white (235)");
    assert_eq!(uyvy[3], 235, "Y1 should be video white (235)");
}

#[test]
fn test_bgra_to_uyvy_output_size() {
    for (width, height) in [(2, 1), (4, 2), (1920, 1080)] {
        let bgra = vec![128u8; width * height * 4];
        let uyvy = convert_bgra_to_uyvy(&bgra, width, height);
        assert_eq!(uyvy.len(), width * height * 2);
    }
}


#[test]
fn test_yuyv_to_uyvy_empty() {
    let yuyv: Vec<u8> = vec![];
    let uyvy = convert_yuyv_to_uyvy_scalar(&yuyv);
    assert!(uyvy.is_empty());
}

#[test]
fn test_fourcc_constants() {
    assert_eq!(
        NDILIBD_FOURCC_UYVY,
        u32::from_le_bytes([b'U', b'Y', b'V', b'Y'])
    );
    assert_eq!(
        NDILIBD_FOURCC_BGRA,
        u32::from_le_bytes([b'B', b'G', b'R', b'A'])
    );
}

#[test]
fn test_received_frame_construction() {
    let frame = ReceivedFrame {
        width: 1920,
        height: 1080,
        fourcc: NDILIBD_FOURCC_UYVY,
        stride: 3840,
        data: vec![0u8; 1920 * 1080 * 2],
    };
    assert_eq!(frame.width, 1920);
    assert_eq!(frame.height, 1080);
    assert_eq!(frame.stride, 3840);
    assert_eq!(frame.data.len(), 1920 * 1080 * 2);
}

#[test]
fn test_yuyv_to_uyvy_1080p_frame() {
    // Full 1080p frame
    let yuyv = vec![128u8; 1920 * 1080 * 2];
    let uyvy = convert_yuyv_to_uyvy_scalar(&yuyv);
    assert_eq!(uyvy.len(), 1920 * 1080 * 2);
}

#[test]
fn nv12_missing_chroma_reads_as_neutral() {
    // Only the luma plane of a 2x2 frame.
    let uyvy = convert_nv12_to_uyvy(&[1, 2, 3, 4], 2, 2);
    assert_eq!(uyvy, vec![128, 1, 128, 2, 128, 3, 128, 4]);
}

#[test]
fn nv12_second_row_shares_chroma() {
    let nv12 = vec![100, 110, 120, 130, 64, 192];
    let uyvy = convert_nv12_to_uyvy(&nv12, 2, 2);
    assert_eq!(&uyvy[4..8], &[64, 120, 192, 130]);
}

#[test]
fn bgra_to_uyvy_exact_pure_red() {
    // Two red pixels: y = ((66 * 255 + 128) >> 8) + 16 = 82;
    // u = ((-38 * 255 + 128) >> 8) + 128 = -38 + 128 = 90;
    // v = ((112 * 255 + 128) >> 8) + 128 = 112 + 128 = 240.
    let bgra = vec![0, 0, 255, 255, 0, 0, 255, 255];
    let uyvy = convert_bgra_to_uyvy(&bgra, 2, 1);
    assert_eq!(uyvy, vec![90, 82, 240, 82]);
}

#[test]
fn yuyv_ignores_trailing_bytes() {
    assert_eq!(convert_yuyv_to_uyvy_scalar(&[1, 2, 3, 4, 5]), vec![2, 1, 4, 3]);
}

#[test]
fn source_formats_by_code() {
    assert_eq!(source_format(*b"UYVY"), Some(SourceFormat::Uyvy));
    assert_eq!(source_format(*b"YUYV"), Some(SourceFormat::Yuyv));
    assert_eq!(source_format(*b"NV12"), Some(SourceFormat::Nv12));
    assert_eq!(source_format(*b"MJPG"), Some(SourceFormat::Mjpeg));
    assert_eq!(source_format(*b"BGRA"), Some(SourceFormat::Bgra));
    assert_eq!(source_format(*b"BGR4"), Some(SourceFormat::Bgra));
    assert_eq!(source_format(*b"RX24"), Some(SourceFormat::Bgra));
    assert_eq!(source_format(*b"H264"), None);
}
