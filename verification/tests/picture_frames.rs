use evcxr_content::ContentError;
use evcxr_content::EvcxrContent;
use evcxr_content::PixelFormat;
use evcxr_content::PixelGrid;

#[test]
fn grid_accepts_only_matching_lengths() {
    assert!(PixelGrid::new(2, 2, PixelFormat::Rgb8, vec![0; 12]).is_some());
    assert!(PixelGrid::new(2, 2, PixelFormat::Rgb8, vec![0; 11]).is_none());
    assert!(PixelGrid::new(2, 2, PixelFormat::Rgba16, vec![0; 32]).is_some());
    assert!(PixelGrid::new(3, 1, PixelFormat::L8, vec![0; 4]).is_none());
}

#[test]
fn grid_reports_its_parts() {
    let g = PixelGrid::new(2, 1, PixelFormat::La8, vec![9, 8, 7, 6]).unwrap();
    assert_eq!(g.width(), 2);
    assert_eq!(g.height(), 1);
    assert_eq!(g.format(), PixelFormat::La8);
    assert_eq!(g.data(), &[9, 8, 7, 6]);
}

#[test]
fn png_round_trip_rgb8() {
    let raw: Vec<u8> = vec![
        255, 0, 0, 0, 255, 0, //
        0, 0, 255, 120, 130, 140,
    ];
    let g = PixelGrid::new(2, 2, PixelFormat::Rgb8, raw.clone()).unwrap();
    let b = EvcxrContent::from_imagebuffer(&g).unwrap();
    assert_eq!(b.mime_type(), "image/png");
    let decoded = image::load_from_memory(b.bytes()).unwrap();
    assert_eq!(decoded.width(), 2);
    assert_eq!(decoded.height(), 2);
    assert_eq!(decoded.to_rgb8().into_raw(), raw);
}

#[test]
fn png_round_trip_l16() {
    let samples: Vec<u16> = vec![0, 65535, 4660, 43981];
    let raw: Vec<u8> = samples.iter().flat_map(|v| v.to_ne_bytes()).collect();
    let g = PixelGrid::new(2, 2, PixelFormat::L16, raw).unwrap();
    let b = EvcxrContent::from_imagebuffer(&g).unwrap();
    assert_eq!(b.mime_type(), "image/png");
    let decoded = image::load_from_memory(b.bytes()).unwrap();
    assert_eq!(decoded.to_luma16().into_raw(), samples);
}

#[test]
fn png_output_is_compressed_not_raw() {
    let raw: Vec<u8> = vec![1, 2, 3, 4];
    let g = PixelGrid::new(2, 2, PixelFormat::L8, raw.clone()).unwrap();
    let b = EvcxrContent::from_imagebuffer(&g).unwrap();
    assert_ne!(b.bytes(), raw.as_slice());
    assert_eq!(&b.bytes()[..8], &[0x89, b'P', b'N', b'G', b'\r', b'\n', 0x1a, b'\n']);
}

#[test]
fn framed_payload_decodes_back_to_the_pixels() {
    let raw: Vec<u8> = vec![10, 20, 30, 40, 50, 60];
    let g = PixelGrid::new(1, 2, PixelFormat::Rgb8, raw.clone()).unwrap();
    let b = EvcxrContent::from_imagebuffer(&g).unwrap();
    let frame = b.display_text();
    let mut lines = frame.lines();
    assert_eq!(lines.next(), Some("EVCXR_BEGIN_CONTENT image/png"));
    let payload = lines.next().unwrap();
    assert_eq!(lines.next(), Some("EVCXR_END_CONTENT"));
    assert_eq!(lines.next(), None);
    let png = base64::engine::Engine::decode(
        &base64::engine::general_purpose::STANDARD,
        payload,
    )
    .unwrap();
    assert_eq!(png, b.bytes());
    let decoded = image::load_from_memory(&png).unwrap();
    assert_eq!(decoded.to_rgb8().into_raw(), raw);
}

#[test]
fn try_display_matches_display() {
    let g = PixelGrid::new(1, 1, PixelFormat::Rgba8, vec![1, 2, 3, 4]).unwrap();
    let b = EvcxrContent::from_imagebuffer(&g).unwrap();
    assert_eq!(b.try_display_text(), Some(b.display_text()));
}

#[test]
fn zero_width_is_a_codec_failure() {
    let g = PixelGrid::new(0, 5, PixelFormat::Rgb8, Vec::new()).unwrap();
    assert_eq!(
        EvcxrContent::from_imagebuffer(&g).unwrap_err(),
        ContentError::CodecFailure
    );
}
