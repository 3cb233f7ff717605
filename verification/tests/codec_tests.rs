use webp_converter::codec::{
    can_resize, encode_to_webp, load_image, load_image_as, raster_from_decoding, resize_image,
    ErrorKind, PixelLayout, Raster,
};

fn gradient_rgb(width: u32, height: u32) -> Vec<u8> {
    let mut data = Vec::new();
    for y in 0..height {
        for x in 0..width {
            data.push((x * 255 / width.max(1)) as u8);
            data.push((y * 255 / height.max(1)) as u8);
            data.push(((x + y) % 256) as u8);
        }
    }
    data
}

fn jpeg_bytes(width: u32, height: u32) -> Vec<u8> {
    let buffer = image::RgbImage::from_raw(width, height, gradient_rgb(width, height)).unwrap();
    let mut out = std::io::Cursor::new(Vec::new());
    image::DynamicImage::ImageRgb8(buffer)
        .write_to(&mut out, image::ImageOutputFormat::Jpeg(90))
        .unwrap();
    out.into_inner()
}

fn png_rgba_bytes(width: u32, height: u32) -> Vec<u8> {
    let buffer = image::RgbaImage::from_pixel(width, height, image::Rgba([10, 20, 30, 255]));
    let mut out = std::io::Cursor::new(Vec::new());
    image::DynamicImage::ImageRgba8(buffer)
        .write_to(&mut out, image::ImageOutputFormat::Png)
        .unwrap();
    out.into_inner()
}

#[test]
fn raster_new_accepts_a_buffer_that_covers_the_pixels() {
    let raster = Raster::new(4, 2, PixelLayout::Rgb, vec![0u8; 24]).unwrap();
    assert_eq!(raster.width(), 4);
    assert_eq!(raster.height(), 2);
    assert_eq!(raster.layout(), PixelLayout::Rgb);
    assert_eq!(raster.samples().len(), 24);
}

#[test]
fn raster_new_refuses_a_short_buffer() {
    assert!(Raster::new(4, 2, PixelLayout::Rgb, vec![0u8; 23]).is_none());
    assert!(Raster::new(4, 2, PixelLayout::Rgba, vec![0u8; 31]).is_none());
    assert!(Raster::new(4, 2, PixelLayout::Rgba, vec![0u8; 32]).is_some());
    assert!(Raster::new(u32::MAX, u32::MAX, PixelLayout::Rgba, vec![0u8; 32]).is_none());
    assert!(Raster::new(u32::MAX, u32::MAX, PixelLayout::Other, Vec::new()).is_some());
}

#[test]
fn load_image_decodes_a_jpeg_by_its_extension() {
    let raster = load_image(&jpeg_bytes(12, 7), "photos/a.jpg").unwrap();
    assert_eq!((raster.width(), raster.height()), (12, 7));
    assert_eq!(raster.layout(), PixelLayout::Rgb);
    assert_eq!(raster.samples().len(), 12 * 7 * 3);
}

#[test]
fn load_image_decodes_a_png_with_alpha() {
    let raster = load_image(&png_rgba_bytes(5, 9), "x.PNG").unwrap();
    assert_eq!((raster.width(), raster.height()), (5, 9));
    assert_eq!(raster.layout(), PixelLayout::Rgba);
    assert_eq!(&raster.samples()[0..4], &[10, 20, 30, 255]);
}

#[test]
fn load_image_goes_by_the_extension_not_the_content() {
    let err = load_image(&png_rgba_bytes(5, 9), "x.jpg").unwrap_err();
    assert_eq!(err.kind, ErrorKind::Decode);
    assert!(!err.message.is_empty());
}

#[test]
fn load_image_fails_without_a_known_extension() {
    let err = load_image(&jpeg_bytes(3, 3), "noextension").unwrap_err();
    assert_eq!(err.kind, ErrorKind::Decode);
    let err = load_image(&jpeg_bytes(3, 3), "a.txt").unwrap_err();
    assert_eq!(err.kind, ErrorKind::Decode);
}

#[test]
fn load_image_fails_on_bytes_that_are_no_image() {
    let err = load_image(&vec![1, 2, 3, 4], "a.png").unwrap_err();
    assert_eq!(err.kind, ErrorKind::Decode);
    let err = load_image(&Vec::new(), "a.jpeg").unwrap_err();
    assert_eq!(err.kind, ErrorKind::Decode);
}

#[test]
fn resize_image_stretches_to_the_exact_dimensions() {
    let raster = Raster::new(30, 20, PixelLayout::Rgb, gradient_rgb(30, 20)).unwrap();
    assert!(can_resize(&raster, 100, 50));
    let resized = resize_image(raster, 100, 50);
    assert_eq!((resized.width(), resized.height()), (100, 50));
    assert_eq!(resized.layout(), PixelLayout::Rgb);
    assert_eq!(resized.samples().len(), 100 * 50 * 3);
}

#[test]
fn resize_image_changes_the_samples() {
    let raster = Raster::new(2, 1, PixelLayout::Rgb, vec![0, 0, 0, 255, 255, 255]).unwrap();
    let resized = resize_image(raster, 4, 1);
    assert_eq!(resized.samples().len(), 12);
    assert_ne!(resized.samples().as_slice(), &[0u8, 0, 0, 255, 255, 255][..]);
    assert!(resized.samples()[0] < resized.samples()[9]);
}

#[test]
fn resize_image_keeps_the_alpha_layout() {
    let raster = Raster::new(3, 3, PixelLayout::Rgba, vec![200u8; 36]).unwrap();
    let resized = resize_image(raster, 2, 5);
    assert_eq!((resized.width(), resized.height()), (2, 5));
    assert_eq!(resized.layout(), PixelLayout::Rgba);
    assert_eq!(resized.samples().len(), 40);
    assert!(resized.samples().iter().all(|s| *s == 200));
}

#[test]
fn resize_image_to_nothing_and_from_nothing() {
    let raster = Raster::new(3, 3, PixelLayout::Rgb, vec![9u8; 27]).unwrap();
    let empty = resize_image(raster, 0, 4);
    assert_eq!((empty.width(), empty.height()), (0, 4));
    assert_eq!(empty.samples().len(), 0);
    let grown = resize_image(empty, 2, 2);
    assert_eq!((grown.width(), grown.height()), (2, 2));
    assert_eq!(grown.samples().len(), 12);
}

#[test]
fn resize_image_of_another_layout_keeps_no_samples() {
    let raster = Raster::new(8, 8, PixelLayout::Other, Vec::new()).unwrap();
    let resized = resize_image(raster, 100, 50);
    assert_eq!((resized.width(), resized.height()), (100, 50));
    assert_eq!(resized.layout(), PixelLayout::Other);
    assert!(resized.samples().is_empty());
}

#[test]
fn can_resize_refuses_what_cannot_be_allocated() {
    let raster = Raster::new(1, 1, PixelLayout::Rgb, vec![0, 0, 0]).unwrap();
    assert!(!can_resize(&raster, u32::MAX, u32::MAX));
    assert!(can_resize(&raster, 1, 1));
    assert!(!can_resize(&raster, 0, u32::MAX));
}

#[test]
fn encode_to_webp_writes_a_riff_container() {
    let raster = Raster::new(16, 16, PixelLayout::Rgb, gradient_rgb(16, 16)).unwrap();
    let bytes = encode_to_webp(&raster, 80).unwrap();
    assert_eq!(&bytes[0..4], b"RIFF");
    assert_eq!(&bytes[8..12], b"WEBP");
    assert_ne!(bytes, gradient_rgb(16, 16));
}

#[test]
fn encode_to_webp_takes_rgba() {
    let raster = Raster::new(4, 4, PixelLayout::Rgba, vec![128u8; 64]).unwrap();
    let bytes = encode_to_webp(&raster, 50).unwrap();
    assert_eq!(&bytes[0..4], b"RIFF");
}

#[test]
fn encode_to_webp_quality_changes_the_size() {
    let low = encode_to_webp(&Raster::new(64, 64, PixelLayout::Rgb, gradient_rgb(64, 64)).unwrap(), 5).unwrap();
    let high = encode_to_webp(&Raster::new(64, 64, PixelLayout::Rgb, gradient_rgb(64, 64)).unwrap(), 100).unwrap();
    assert!(low.len() < high.len());
}

#[test]
fn encode_to_webp_rejects_a_raster_without_pixels() {
    let raster = Raster::new(0, 0, PixelLayout::Rgb, Vec::new()).unwrap();
    let err = encode_to_webp(&raster, 80).unwrap_err();
    assert_eq!(err.kind, ErrorKind::Encode);
    let raster = Raster::new(0, 5, PixelLayout::Rgba, Vec::new()).unwrap();
    assert_eq!(encode_to_webp(&raster, 80).unwrap_err().kind, ErrorKind::Encode);
}

#[test]
fn encode_to_webp_rejects_other_layouts() {
    let raster = Raster::new(2, 2, PixelLayout::Other, Vec::new()).unwrap();
    let err = encode_to_webp(&raster, 80).unwrap_err();
    assert_eq!(err.kind, ErrorKind::Encode);
}

#[test]
fn encode_to_webp_rejects_dimensions_beyond_the_binding() {
    let raster = Raster::new(0x2000_0000, 0, PixelLayout::Rgb, Vec::new()).unwrap();
    assert_eq!(encode_to_webp(&raster, 80).unwrap_err().kind, ErrorKind::Encode);
    let raster = Raster::new(0, 0x8000_0000, PixelLayout::Rgb, Vec::new()).unwrap();
    assert_eq!(encode_to_webp(&raster, 80).unwrap_err().kind, ErrorKind::Encode);
}

#[test]
fn encode_to_webp_rejects_a_quality_out_of_range() {
    let raster = Raster::new(4, 4, PixelLayout::Rgb, vec![7u8; 48]).unwrap();
    assert_eq!(encode_to_webp(&raster, 101).unwrap_err().kind, ErrorKind::Encode);
    assert!(encode_to_webp(&raster, 100).is_ok());
}

#[test]
fn encode_to_webp_reads_no_more_than_the_pixels_of_a_longer_buffer() {
    let mut data = gradient_rgb(8, 8);
    let exact = encode_to_webp(&Raster::new(8, 8, PixelLayout::Rgb, data.clone()).unwrap(), 80).unwrap();
    data.extend_from_slice(&[1, 2, 3, 4, 5]);
    let longer = encode_to_webp(&Raster::new(8, 8, PixelLayout::Rgb, data).unwrap(), 80).unwrap();
    assert_eq!(exact, longer);
}

#[test]
fn raster_from_decoding_takes_parts_that_cover_the_pixels() {
    let raster = raster_from_decoding(Ok((PixelLayout::Rgba, 2, 3, vec![5u8; 24]))).unwrap();
    assert_eq!((raster.width(), raster.height()), (2, 3));
    assert_eq!(raster.layout(), PixelLayout::Rgba);
    assert_eq!(raster.samples(), &vec![5u8; 24]);
    assert!(raster_from_decoding(Ok((PixelLayout::Other, 9, 9, Vec::new()))).is_ok());
}

#[test]
fn raster_from_decoding_refuses_parts_that_fall_short() {
    let err = raster_from_decoding(Ok((PixelLayout::Rgba, 2, 3, vec![5u8; 23]))).unwrap_err();
    assert_eq!(err.kind, ErrorKind::Decode);
    assert_eq!(err.message, "decoded image is shorter than its dimensions");
}

#[test]
fn raster_from_decoding_passes_the_decoders_error_on() {
    let err = raster_from_decoding(Err("Format error decoding Png".to_string())).unwrap_err();
    assert_eq!(err.kind, ErrorKind::Decode);
    assert_eq!(err.message, "Format error decoding Png");
}

#[test]
fn load_image_as_goes_by_the_extension_given() {
    let bytes = jpeg_bytes(6, 4);
    let raster = load_image_as(&bytes, &Some("jpg".to_string())).unwrap();
    assert_eq!((raster.width(), raster.height()), (6, 4));
    assert_eq!(raster.layout(), PixelLayout::Rgb);
    assert_eq!(raster.samples().len(), 6 * 4 * 3);
    assert!(load_image_as(&bytes, &Some("JPEG".to_string())).is_ok());
    assert_eq!(load_image_as(&bytes, &Some("png".to_string())).unwrap_err().kind, ErrorKind::Decode);
    assert_eq!(load_image_as(&bytes, &Some("txt".to_string())).unwrap_err().kind, ErrorKind::Decode);
    let err = load_image_as(&bytes, &None).unwrap_err();
    assert_eq!(err.kind, ErrorKind::Decode);
    assert!(!err.message.is_empty());
}

#[test]
fn load_image_as_gives_the_same_raster_for_the_same_bytes() {
    let bytes = png_rgba_bytes(3, 2);
    let first = load_image_as(&bytes, &Some("png".to_string())).unwrap();
    let second = load_image_as(&bytes, &Some("png".to_string())).unwrap();
    assert_eq!(first.samples(), second.samples());
    assert_eq!(first.samples(), load_image(&bytes, "dir/x.png").unwrap().samples());
    assert_ne!(first.samples().as_slice(), bytes.as_slice());
}

#[test]
fn load_image_as_keeps_no_samples_of_another_layout() {
    let buffer = image::GrayImage::from_pixel(4, 5, image::Luma([9]));
    let mut out = std::io::Cursor::new(Vec::new());
    image::DynamicImage::ImageLuma8(buffer)
        .write_to(&mut out, image::ImageOutputFormat::Png)
        .unwrap();
    let raster = load_image_as(&out.into_inner(), &Some("png".to_string())).unwrap();
    assert_eq!(raster.layout(), PixelLayout::Other);
    assert_eq!((raster.width(), raster.height()), (4, 5));
    assert!(raster.samples().is_empty());
}

#[test]
fn encode_to_webp_says_why_it_refuses_before_the_encoder_is_asked() {
    let other = Raster::new(2, 2, PixelLayout::Other, Vec::new()).unwrap();
    assert_eq!(encode_to_webp(&other, 80).unwrap_err().message, "pixel layout is not supported by the encoder");
    let other_empty = Raster::new(0, 2, PixelLayout::Other, Vec::new()).unwrap();
    assert_eq!(
        encode_to_webp(&other_empty, 80).unwrap_err().message,
        "pixel layout is not supported by the encoder"
    );
    let flat = Raster::new(7, 0, PixelLayout::Rgb, Vec::new()).unwrap();
    assert_eq!(encode_to_webp(&flat, 80).unwrap_err().message, "image has no pixels");
    let thin = Raster::new(0, 7, PixelLayout::Rgba, Vec::new()).unwrap();
    assert_eq!(encode_to_webp(&thin, 80).unwrap_err().message, "image has no pixels");
    let wide = Raster::new(0x2000_0000, 0, PixelLayout::Rgb, Vec::new()).unwrap();
    assert_eq!(encode_to_webp(&wide, 80).unwrap_err().message, "image has no pixels");
}

#[test]
fn can_resize_keeps_every_dimension_below_the_resampling_limit() {
    let raster = Raster::new(1, 1, PixelLayout::Rgb, vec![0, 0, 0]).unwrap();
    assert_eq!(webp_converter::codec::RESAMPLE_LIMIT, 8_388_608);
    assert!(can_resize(&raster, 8_388_607, 1));
    assert!(!can_resize(&raster, 8_388_608, 1));
    assert!(can_resize(&raster, 1, 8_388_607));
    assert!(!can_resize(&raster, 1, 8_388_608));
    assert!(can_resize(&raster, 0, 0));
    let wide = Raster::new(8_388_608, 1, PixelLayout::Other, Vec::new()).unwrap();
    assert!(!can_resize(&wide, 1, 1));
    let tall = Raster::new(1, 8_388_608, PixelLayout::Other, Vec::new()).unwrap();
    assert!(!can_resize(&tall, 1, 1));
    let just = Raster::new(8_388_607, 8_388_607, PixelLayout::Other, Vec::new()).unwrap();
    assert!(can_resize(&just, 1, 1));
    let long_row = Raster::new(67_108_869, 1, PixelLayout::Other, Vec::new()).unwrap();
    assert!(!can_resize(&long_row, 67_108_870, 1));
}

#[test]
fn encode_to_webp_starts_every_output_with_the_container_header() {
    for (layout, channels) in [(PixelLayout::Rgb, 3usize), (PixelLayout::Rgba, 4)] {
        for quality in [0u8, 1, 80, 100] {
            let raster = Raster::new(5, 3, layout, vec![200u8; 15 * channels]).unwrap();
            let bytes = encode_to_webp(&raster, quality).unwrap();
            assert!(bytes.len() >= 12);
            assert_eq!(&bytes[0..4], &[0x52, 0x49, 0x46, 0x46]);
            assert_eq!(&bytes[8..12], &[0x57, 0x45, 0x42, 0x50]);
        }
    }
}
