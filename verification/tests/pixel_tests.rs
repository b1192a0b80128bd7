use respicta::pipelines::png2avif;

/// Encodes `width` x `height` RGB pixels as an uncompressed PNG.
fn rgb_png(width: u32, height: u32, pixels: &[u8]) -> Vec<u8> {
    let mut out: Vec<u8> = Vec::new();
    let mut encoder = png::Encoder::new(&mut out, width, height);
    encoder.set_color(png::ColorType::Rgb);
    encoder.set_depth(png::BitDepth::Eight);
    encoder.set_compression(png::Compression::NoCompression);
    let mut writer = encoder.write_header().unwrap();
    writer.write_image_data(pixels).unwrap();
    writer.finish().unwrap();
    out
}

#[test]
fn expand_rgb_adds_an_opaque_alpha_channel() {
    let rgb: Vec<u8> = vec![1, 2, 3, 4, 5, 6];
    assert_eq!(png2avif::expand_rgb(&rgb), vec![1, 2, 3, 255, 4, 5, 6, 255]);

    let empty: Vec<u8> = Vec::new();
    assert_eq!(png2avif::expand_rgb(&empty), Vec::<u8>::new());
}

#[test]
fn prepare_avif_image_decodes_normalizes_and_fits() {
    let mut pixels: Vec<u8> = Vec::new();
    for _ in 0..(8 * 4) {
        pixels.extend_from_slice(&[10, 20, 30]);
    }
    let data = rgb_png(8, 4, &pixels);

    let img = png2avif::prepare_avif_image(&data, Some(4), None).unwrap();
    assert_eq!(img.width, 4);
    assert_eq!(img.height, 2);
    assert_eq!(img.data.len(), 4 * 2 * 4);
    for pixel in img.data.chunks(4) {
        assert_eq!(pixel[3], 255);
        assert_eq!(&pixel[..3], &[10, 20, 30]);
    }
}

#[test]
fn prepare_avif_image_without_dimensions_keeps_the_source_size() {
    let mut pixels: Vec<u8> = Vec::new();
    for _ in 0..(6 * 3) {
        pixels.extend_from_slice(&[200, 100, 0]);
    }
    let data = rgb_png(6, 3, &pixels);

    let img = png2avif::prepare_avif_image(&data, None, None).unwrap();
    assert_eq!(img.width, 6);
    assert_eq!(img.height, 3);
    assert_eq!(img.data.len(), 6 * 3 * 4);
}

#[test]
fn prepare_avif_image_rejects_grayscale() {
    let pixels: Vec<u8> = vec![7; 5 * 2];
    let mut out: Vec<u8> = Vec::new();
    let mut encoder = png::Encoder::new(&mut out, 5, 2);
    encoder.set_color(png::ColorType::Grayscale);
    encoder.set_depth(png::BitDepth::Eight);
    let mut writer = encoder.write_header().unwrap();
    writer.write_image_data(&pixels).unwrap();
    writer.finish().unwrap();

    assert!(matches!(
        png2avif::prepare_avif_image(&out, None, None),
        Err(png2avif::Error::UnsupportedColorType(png2avif::ColorKind::Grayscale))
    ));
}

#[test]
fn prepare_avif_image_rejects_garbage() {
    let data: Vec<u8> = vec![0, 1, 2, 3, 4, 5, 6, 7];
    assert!(matches!(
        png2avif::prepare_avif_image(&data, None, None),
        Err(png2avif::Error::Decoding(_))
    ));
}

#[test]
fn prepare_webp_image_decodes_and_fits() {
    let mut pixels: Vec<u8> = Vec::new();
    for _ in 0..(8 * 4) {
        pixels.extend_from_slice(&[1, 2, 3]);
    }
    let data = rgb_png(8, 4, &pixels);

    let (image, target_w, target_h) =
        respicta::utils::webp::prepare_webp_image(&data, Some(4), None).unwrap();
    assert_eq!(image.width, 8);
    assert_eq!(image.height, 4);
    assert_eq!(image.data.len(), 8 * 4 * 4);
    assert_eq!(&image.data[..4], &[1, 2, 3, 255]);
    assert_eq!((target_w, target_h), (4, 2));

    let garbage: Vec<u8> = vec![9; 16];
    assert!(matches!(
        respicta::utils::webp::prepare_webp_image(&garbage, None, None),
        Err(respicta::utils::webp::Error::Image(_))
    ));
}

#[test]
fn oxipng_shrinks_an_uncompressed_png() {
    let mut pixels: Vec<u8> = Vec::new();
    for _ in 0..(64 * 64) {
        pixels.extend_from_slice(&[90, 90, 90]);
    }
    let data = rgb_png(64, 64, &pixels);

    let optimized = respicta::utils::oxipng::optimize_bytes(&data).unwrap();
    assert!(optimized.len() < data.len());
    assert_eq!(&optimized[..4], &[0x89, b'P', b'N', b'G']);

    let img = png2avif::prepare_avif_image(&optimized, None, None).unwrap();
    assert_eq!(img.width, 64);
    assert_eq!(img.height, 64);
}
