use fast_thumbnail::encode::{EncodeConfig, PerceptualHint};
use fast_thumbnail::error::ThumbnailError;
use fast_thumbnail::format::{detect_format, ImageKind};
use fast_thumbnail::mode::Mode;
use fast_thumbnail::pipeline::{create_thumbnail, create_thumbnail_with};
use std::io::Cursor;

const ALL_KINDS: [(ImageKind, image::ImageFormat); 7] = [
    (ImageKind::Jpeg, image::ImageFormat::Jpeg),
    (ImageKind::Png, image::ImageFormat::Png),
    (ImageKind::Gif, image::ImageFormat::Gif),
    (ImageKind::WebP, image::ImageFormat::WebP),
    (ImageKind::Bmp, image::ImageFormat::Bmp),
    (ImageKind::Ico, image::ImageFormat::Ico),
    (ImageKind::Tiff, image::ImageFormat::Tiff),
];

fn source(width: u32, height: u32, format: image::ImageFormat) -> Vec<u8> {
    let picture = image::RgbaImage::from_fn(width, height, |x, y| {
        image::Rgba([(x * 5 % 256) as u8, (y * 9 % 256) as u8, ((x ^ y) % 256) as u8, 255])
    });
    let mut sink = Cursor::new(Vec::new());
    image::DynamicImage::ImageRgba8(picture).write_to(&mut sink, format).unwrap();
    sink.into_inner()
}

fn dimensions(bytes: &[u8]) -> (u32, u32) {
    let picture = image::load_from_memory(bytes).unwrap();
    (picture.width(), picture.height())
}

#[test]
fn base64_mode_returns_a_webp_thumbnail_as_text() {
    let bytes = source(101, 50, image::ImageFormat::Png);
    let out = create_thumbnail(&bytes, "/tmp/a.png", 32, "base64").unwrap();
    assert_eq!(out.write, None);
    let payload = base64::Engine::decode(&base64::engine::general_purpose::STANDARD, &out.value)
        .unwrap();
    assert_eq!(&payload[..4], b"RIFF");
    assert_eq!(&payload[8..12], b"WEBP");
    assert_eq!(detect_format(&payload), Ok(ImageKind::WebP));
    assert_eq!(dimensions(&payload), (32, 32));
}

#[test]
fn webp_mode_writes_a_sibling_file() {
    let bytes = source(40, 60, image::ImageFormat::Png);
    let out = create_thumbnail(&bytes, "/tmp/a.png", 24, "webp").unwrap();
    assert_eq!(out.value, "/tmp/a.png.webp");
    let write = out.write.unwrap();
    assert_eq!(write.path, "/tmp/a.png.webp");
    assert_eq!(detect_format(&write.bytes), Ok(ImageKind::WebP));
    assert_eq!(dimensions(&write.bytes), (24, 24));
}

#[test]
fn overwrite_mode_keeps_the_format_of_the_source() {
    for (kind, format) in ALL_KINDS {
        let bytes = source(30, 45, format);
        let out = create_thumbnail(&bytes, "/tmp/picture", 20, "overwrite").unwrap();
        assert_eq!(out.value, "/tmp/picture");
        let write = out.write.unwrap();
        assert_eq!(write.path, "/tmp/picture");
        assert_eq!(detect_format(&write.bytes), Ok(kind));
        assert_eq!(image::guess_format(&write.bytes).unwrap(), format);
        assert_eq!(dimensions(&write.bytes), (20, 20));
    }
}

#[test]
fn the_thumbnail_is_square_whatever_the_source() {
    for (width, height, side) in [(101u32, 50u32, 7u32), (50, 101, 64), (8, 8, 200), (1, 1, 3)] {
        let bytes = source(width, height, image::ImageFormat::Bmp);
        for mode in ["webp", "overwrite"] {
            let out = create_thumbnail(&bytes, "p", side, mode).unwrap();
            assert_eq!(dimensions(&out.write.unwrap().bytes), (side, side));
        }
    }
}

#[test]
fn every_supported_format_is_read() {
    for (_, format) in ALL_KINDS {
        let bytes = source(12, 9, format);
        let out = create_thumbnail(&bytes, "p", 5, "webp").unwrap();
        assert_eq!(dimensions(&out.write.unwrap().bytes), (5, 5));
    }
}

#[test]
fn an_unknown_mode_ends_the_request_at_once() {
    let unknown = ThumbnailError::UnknownMode(String::from("foo"));
    let png = source(4, 4, image::ImageFormat::Png);
    assert_eq!(create_thumbnail(&png, "/tmp/a.png", 8, "foo").unwrap_err(), unknown);
    // The mode is looked at before the bytes and before the width.
    assert_eq!(create_thumbnail(b"no image", "/tmp/a.png", 8, "foo").unwrap_err(), unknown);
    assert_eq!(create_thumbnail(&png, "/tmp/a.png", 0, "foo").unwrap_err(), unknown);
    assert_eq!(
        create_thumbnail(&png, "/tmp/a.png", 8, "foo").unwrap_err().message(),
        "Unknown mode: foo"
    );
}

#[test]
fn a_file_that_is_no_image_is_an_unsupported_format() {
    for mode in ["base64", "webp", "overwrite"] {
        assert_eq!(
            create_thumbnail(b"just some text\n", "/tmp/notes.txt", 8, mode).unwrap_err(),
            ThumbnailError::UnsupportedFormat(String::from("unknown"))
        );
        assert_eq!(
            create_thumbnail(b"P6\n1 1\n255\n\0\0\0", "/tmp/a.ppm", 8, mode).unwrap_err(),
            ThumbnailError::UnsupportedFormat(String::from("Pnm"))
        );
    }
}

#[test]
fn the_format_is_checked_before_the_width() {
    assert_eq!(
        create_thumbnail(b"just some text\n", "/tmp/notes.txt", 0, "webp").unwrap_err(),
        ThumbnailError::UnsupportedFormat(String::from("unknown"))
    );
}

#[test]
fn a_corrupt_image_is_a_decoding_failure() {
    let mut bytes = source(16, 16, image::ImageFormat::Png);
    bytes.truncate(48);
    for mode in ["base64", "webp", "overwrite"] {
        assert!(matches!(
            create_thumbnail(&bytes, "/tmp/a.png", 8, mode),
            Err(ThumbnailError::Decode(_))
        ));
    }
}

#[test]
fn a_width_of_zero_is_a_resizing_failure() {
    let bytes = source(16, 16, image::ImageFormat::Png);
    for mode in ["base64", "webp", "overwrite"] {
        assert_eq!(
            create_thumbnail(&bytes, "/tmp/a.png", 0, mode).unwrap_err(),
            ThumbnailError::Resize(String::from("the target size is zero"))
        );
    }
}

#[test]
fn an_icon_too_large_to_overwrite_is_an_encoding_failure() {
    let bytes = source(20, 20, image::ImageFormat::Ico);
    assert!(matches!(
        create_thumbnail(&bytes, "/tmp/a.ico", 300, "overwrite"),
        Err(ThumbnailError::Encode(_))
    ));
    // The same request as a new file is a WebP and goes through.
    let out = create_thumbnail(&bytes, "/tmp/a.ico", 300, "webp").unwrap();
    assert_eq!(dimensions(&out.write.unwrap().bytes), (300, 300));
}

#[test]
fn settings_out_of_range_fail_where_webp_is_encoded() {
    let bytes = source(16, 16, image::ImageFormat::Png);
    let config = EncodeConfig { quality: 101, ..EncodeConfig::default() };
    let refused = ThumbnailError::Encode(String::from("the encoder settings are out of range"));
    assert_eq!(
        create_thumbnail_with(&bytes, "p", 8, Mode::InMemory, &config).unwrap_err(),
        refused
    );
    assert_eq!(
        create_thumbnail_with(&bytes, "p", 8, Mode::NewFile, &config).unwrap_err(),
        refused
    );
    assert!(create_thumbnail_with(&bytes, "p", 8, Mode::OverwriteOriginal, &config).is_ok());
}

#[test]
fn the_named_mode_runs_under_the_standard_settings() {
    let bytes = source(33, 21, image::ImageFormat::Png);
    for (literal, mode) in [
        ("base64", Mode::InMemory),
        ("webp", Mode::NewFile),
        ("overwrite", Mode::OverwriteOriginal),
    ] {
        assert_eq!(
            create_thumbnail(&bytes, "/tmp/a.png", 10, literal),
            create_thumbnail_with(&bytes, "/tmp/a.png", 10, mode, &EncodeConfig::default())
        );
    }
}

#[test]
fn other_settings_give_another_file() {
    let bytes = source(64, 64, image::ImageFormat::Png);
    let small = EncodeConfig {
        quality: 1,
        method: 6,
        hint: PerceptualHint::Graph,
        sns_strength: 0,
        filter_sharpness: 0,
        filter_strength: 100,
    };
    let standard = create_thumbnail_with(&bytes, "p", 48, Mode::NewFile, &EncodeConfig::default())
        .unwrap()
        .write
        .unwrap();
    let tuned = create_thumbnail_with(&bytes, "p", 48, Mode::NewFile, &small)
        .unwrap()
        .write
        .unwrap();
    assert!(tuned.bytes.len() < standard.bytes.len());
    assert_eq!(dimensions(&tuned.bytes), (48, 48));
}

#[test]
fn the_centre_of_the_source_is_what_remains() {
    // Green in the middle third, red on both sides: the square is all green.
    let picture = image::RgbaImage::from_fn(90, 30, |x, _| {
        if (30..60).contains(&x) {
            image::Rgba([0, 255, 0, 255])
        } else {
            image::Rgba([255, 0, 0, 255])
        }
    });
    let mut sink = Cursor::new(Vec::new());
    image::DynamicImage::ImageRgba8(picture)
        .write_to(&mut sink, image::ImageFormat::Png)
        .unwrap();
    let out = create_thumbnail(&sink.into_inner(), "p", 30, "overwrite").unwrap();
    let back = image::load_from_memory(&out.write.unwrap().bytes).unwrap().into_rgba8();
    assert_eq!((back.width(), back.height()), (30, 30));
    for pixel in back.pixels() {
        assert_eq!(pixel.0, [0, 255, 0, 255]);
    }
}

#[test]
fn a_good_image_and_a_width_of_zero_end_in_the_resize_refusal() {
    for (_, format) in ALL_KINDS {
        let bytes = source(9, 14, format);
        for mode in [Mode::InMemory, Mode::NewFile, Mode::OverwriteOriginal] {
            assert_eq!(
                create_thumbnail_with(&bytes, "p", 0, mode, &EncodeConfig::default()).unwrap_err(),
                ThumbnailError::Resize(String::from("the target size is zero"))
            );
        }
    }
}

#[test]
fn an_overwrite_is_the_native_encoding_of_the_thumbnail() {
    let bytes = source(40, 25, image::ImageFormat::Png);
    let out = create_thumbnail_with(
        &bytes,
        "/tmp/a.png",
        10,
        Mode::OverwriteOriginal,
        &EncodeConfig::default(),
    )
    .unwrap();
    let written = out.write.unwrap().bytes;
    // The file decodes into a square that encodes into the same file again.
    let square = image::load_from_memory(&written).unwrap().into_rgba8();
    let thumbnail =
        fast_thumbnail::raster::ThumbnailBuffer::from_rgba(10, square.into_raw()).unwrap();
    assert_eq!(fast_thumbnail::encode::encode_native(&thumbnail, ImageKind::Png), Ok(written));
}
