use fast_thumbnail::encode::{
    accept_encoded, accept_webp, encode, encode_native, encode_webp_advanced, target_encoding,
    EncodeConfig, EncodedPayload, Encoding, PerceptualHint,
};
use fast_thumbnail::error::ThumbnailError;
use fast_thumbnail::format::{detect_format, ImageKind};
use fast_thumbnail::mode::Mode;
use fast_thumbnail::raster::ThumbnailBuffer;

const ALL_KINDS: [ImageKind; 7] = [
    ImageKind::Jpeg,
    ImageKind::Png,
    ImageKind::Gif,
    ImageKind::WebP,
    ImageKind::Bmp,
    ImageKind::Ico,
    ImageKind::Tiff,
];

fn thumbnail(side: u32) -> ThumbnailBuffer {
    let pixels: Vec<u8> = (0..side * side)
        .flat_map(|i| [(i % 251) as u8, (i * 3 % 256) as u8, (i / side) as u8, 255])
        .collect();
    ThumbnailBuffer::from_rgba(side, pixels).unwrap()
}

fn encode_failure(reason: &str) -> ThumbnailError {
    ThumbnailError::Encode(String::from(reason))
}

#[test]
fn the_standard_settings() {
    let config = EncodeConfig::default();
    assert_eq!(
        config,
        EncodeConfig {
            quality: 75,
            method: 3,
            hint: PerceptualHint::Photo,
            sns_strength: 70,
            filter_sharpness: 2,
            filter_strength: 25,
        }
    );
    assert!(config.is_valid());
}

#[test]
fn settings_are_valid_within_their_ranges() {
    let standard = EncodeConfig::default();
    assert!(EncodeConfig { quality: 0, method: 0, sns_strength: 0, filter_sharpness: 0, filter_strength: 0, ..standard }.is_valid());
    assert!(EncodeConfig { quality: 100, method: 6, sns_strength: 100, filter_sharpness: 7, filter_strength: 100, ..standard }.is_valid());
    assert!(!EncodeConfig { quality: 101, ..standard }.is_valid());
    assert!(!EncodeConfig { method: 7, ..standard }.is_valid());
    assert!(!EncodeConfig { sns_strength: 101, ..standard }.is_valid());
    assert!(!EncodeConfig { filter_sharpness: 8, ..standard }.is_valid());
    assert!(!EncodeConfig { filter_strength: 101, ..standard }.is_valid());
}

#[test]
fn the_mode_chooses_the_encoding() {
    for original in [None, Some(ImageKind::Png), Some(ImageKind::WebP)] {
        assert_eq!(target_encoding(Mode::InMemory, original), Ok(Encoding::TunedWebP));
        assert_eq!(target_encoding(Mode::NewFile, original), Ok(Encoding::TunedWebP));
    }
    for kind in ALL_KINDS {
        assert_eq!(
            target_encoding(Mode::OverwriteOriginal, Some(kind)),
            Ok(Encoding::Native(kind))
        );
    }
}

#[test]
fn an_overwrite_needs_the_original_format() {
    assert_eq!(
        target_encoding(Mode::OverwriteOriginal, None),
        Err(ThumbnailError::MissingOriginalFormat)
    );
}

#[test]
fn an_encoding_names_the_format_of_its_bytes() {
    assert_eq!(Encoding::TunedWebP.kind(), ImageKind::WebP);
    for kind in ALL_KINDS {
        assert_eq!(Encoding::Native(kind).kind(), kind);
    }
}

#[test]
fn tuned_webp_is_a_webp_file() {
    let bytes = encode_webp_advanced(&thumbnail(16), &EncodeConfig::default()).unwrap();
    assert_eq!(&bytes[..4], b"RIFF");
    assert_eq!(&bytes[8..12], b"WEBP");
    assert_eq!(detect_format(&bytes), Ok(ImageKind::WebP));
    let picture = image::load_from_memory_with_format(&bytes, image::ImageFormat::WebP).unwrap();
    assert_eq!((picture.width(), picture.height()), (16, 16));
}

#[test]
fn tuned_webp_is_lossy_and_follows_the_quality() {
    // A lossless file of this noisy square would be far larger than either.
    let noisy = thumbnail(64);
    let standard = EncodeConfig::default();
    let low = encode_webp_advanced(&noisy, &EncodeConfig { quality: 5, ..standard }).unwrap();
    let high = encode_webp_advanced(&noisy, &EncodeConfig { quality: 95, ..standard }).unwrap();
    assert!(low.len() < high.len());
}

#[test]
fn settings_out_of_range_are_an_encoding_failure() {
    let standard = EncodeConfig::default();
    let refused = encode_failure("the encoder settings are out of range");
    for config in [
        EncodeConfig { quality: 101, ..standard },
        EncodeConfig { method: 7, ..standard },
        EncodeConfig { filter_sharpness: 8, ..standard },
    ] {
        assert_eq!(encode_webp_advanced(&thumbnail(4), &config).unwrap_err(), refused);
        assert_eq!(encode(&thumbnail(4), Encoding::TunedWebP, &config).unwrap_err(), refused);
    }
}

#[test]
fn settings_do_not_matter_to_a_native_encoding() {
    let config = EncodeConfig { quality: 255, ..EncodeConfig::default() };
    let payload = encode(&thumbnail(4), Encoding::Native(ImageKind::Png), &config).unwrap();
    assert_eq!(payload.encoding(), Encoding::Native(ImageKind::Png));
}

#[test]
fn every_native_encoding_is_detected_as_its_format() {
    for kind in ALL_KINDS {
        let bytes = encode_native(&thumbnail(12), kind).unwrap();
        assert_eq!(detect_format(&bytes), Ok(kind));
        let payload = encode(&thumbnail(12), Encoding::Native(kind), &EncodeConfig::default())
            .unwrap();
        assert_eq!(payload.encoding(), Encoding::Native(kind));
        assert_eq!(detect_format(payload.bytes()), Ok(kind));
        assert_eq!(payload.into_bytes(), bytes);
    }
}

#[test]
fn a_native_png_keeps_every_pixel() {
    let source = thumbnail(10);
    let bytes = encode_native(&source, ImageKind::Png).unwrap();
    let back = image::load_from_memory_with_format(&bytes, image::ImageFormat::Png)
        .unwrap()
        .into_rgba8();
    assert_eq!((back.width(), back.height()), (10, 10));
    assert_eq!(back.as_raw().as_slice(), source.pixels());
}

#[test]
fn a_format_that_cannot_hold_the_square_is_an_encoding_failure() {
    // An icon is at most 256 pixels wide.
    assert!(matches!(
        encode_native(&thumbnail(300), ImageKind::Ico),
        Err(ThumbnailError::Encode(_))
    ));
}

#[test]
fn a_payload_is_sealed_under_the_format_of_its_bytes() {
    let bytes = encode_native(&thumbnail(4), ImageKind::Png).unwrap();
    let payload = EncodedPayload::seal(bytes.clone(), Encoding::Native(ImageKind::Png)).unwrap();
    assert_eq!(payload.bytes(), bytes.as_slice());
    assert_eq!(payload.encoding(), Encoding::Native(ImageKind::Png));
}

#[test]
fn a_payload_under_another_format_is_refused() {
    let refused = encode_failure("the encoded image is not in the target format");
    let png = encode_native(&thumbnail(4), ImageKind::Png).unwrap();
    assert_eq!(EncodedPayload::seal(png.clone(), Encoding::TunedWebP).unwrap_err(), refused);
    assert_eq!(
        EncodedPayload::seal(png, Encoding::Native(ImageKind::Jpeg)).unwrap_err(),
        refused
    );
    assert_eq!(
        EncodedPayload::seal(b"no image".to_vec(), Encoding::TunedWebP).unwrap_err(),
        refused
    );
    assert_eq!(EncodedPayload::seal(Vec::new(), Encoding::TunedWebP).unwrap_err(), refused);
}

#[test]
fn a_webp_payload_may_be_tuned_or_native() {
    let tuned = encode(&thumbnail(8), Encoding::TunedWebP, &EncodeConfig::default()).unwrap();
    let native = encode(&thumbnail(8), Encoding::Native(ImageKind::WebP), &EncodeConfig::default())
        .unwrap();
    assert_eq!(tuned.encoding().kind(), ImageKind::WebP);
    assert_eq!(native.encoding().kind(), ImageKind::WebP);
    assert_eq!(detect_format(tuned.bytes()), Ok(ImageKind::WebP));
    assert_eq!(detect_format(native.bytes()), Ok(ImageKind::WebP));
    // The native encoder is lossless.
    let back = image::load_from_memory_with_format(native.bytes(), image::ImageFormat::WebP)
        .unwrap()
        .into_rgba8();
    assert_eq!(back.as_raw().as_slice(), thumbnail(8).pixels());
}

#[test]
fn the_bytes_of_the_encoder_are_kept() {
    assert_eq!(accept_encoded(Ok(vec![1, 2, 3])), Ok(vec![1, 2, 3]));
    assert_eq!(accept_encoded(Ok(Vec::new())), Ok(Vec::new()));
}

#[test]
fn the_words_of_the_encoder_are_kept() {
    assert_eq!(
        accept_encoded(Err(String::from("disk full"))),
        Err(ThumbnailError::Encode(String::from("disk full")))
    );
}

#[test]
fn encoding_the_same_thumbnail_gives_the_same_file() {
    for kind in ALL_KINDS {
        assert_eq!(encode_native(&thumbnail(9), kind), encode_native(&thumbnail(9), kind));
    }
    assert_eq!(
        encode_native(&thumbnail(300), ImageKind::Ico),
        encode_native(&thumbnail(300), ImageKind::Ico)
    );
}

#[test]
fn the_file_depends_on_the_pixels_the_side_and_the_kind() {
    let png = encode_native(&thumbnail(9), ImageKind::Png).unwrap();
    assert_ne!(png, encode_native(&thumbnail(10), ImageKind::Png).unwrap());
    assert_ne!(png, encode_native(&thumbnail(9), ImageKind::Bmp).unwrap());
    let flat = ThumbnailBuffer::from_rgba(9, vec![7; 4 * 9 * 9]).unwrap();
    assert_ne!(png, encode_native(&flat, ImageKind::Png).unwrap());
}

#[test]
fn webp_bytes_of_the_encoder_are_handed_on() {
    let bytes = encode_native(&thumbnail(5), ImageKind::WebP).unwrap();
    assert_eq!(accept_webp(Ok(bytes.clone())), Ok(bytes));
    let header = b"RIFF\x04\0\0\0WEBP".to_vec();
    assert_eq!(accept_webp(Ok(header.clone())), Ok(header));
}

#[test]
fn bytes_that_are_no_webp_are_an_encoding_failure() {
    let refused = encode_failure("the encoded image is not in the target format");
    let png = encode_native(&thumbnail(5), ImageKind::Png).unwrap();
    assert_eq!(accept_webp(Ok(png)), Err(refused));
    let refused = encode_failure("the encoded image is not in the target format");
    assert_eq!(accept_webp(Ok(Vec::new())), Err(refused));
    let refused = encode_failure("the encoded image is not in the target format");
    assert_eq!(accept_webp(Ok(b"RIFF\x04\0\0\0WEBX".to_vec())), Err(refused));
}

#[test]
fn a_failure_of_the_webp_encoder_is_an_encoding_failure() {
    assert_eq!(
        accept_webp(Err(String::from("WebP encoding error: VP8_ENC_ERROR_OUT_OF_MEMORY"))),
        Err(encode_failure("WebP encoding error: VP8_ENC_ERROR_OUT_OF_MEMORY"))
    );
    assert_eq!(
        accept_webp(Err(String::from("Could not create WebP config"))),
        Err(encode_failure("Could not create WebP config"))
    );
}

#[test]
fn tuned_webp_follows_each_setting() {
    let noisy = thumbnail(48);
    let standard = EncodeConfig::default();
    let reference = encode_webp_advanced(&noisy, &standard).unwrap();
    for other in [
        EncodeConfig { quality: 20, ..standard },
        EncodeConfig { method: 0, ..standard },
        EncodeConfig { sns_strength: 0, ..standard },
        EncodeConfig { filter_strength: 80, ..standard },
    ] {
        let bytes = encode_webp_advanced(&noisy, &other).unwrap();
        assert_ne!(bytes, reference);
        assert_eq!(detect_format(&bytes), Ok(ImageKind::WebP));
    }
}

#[test]
fn tuned_webp_repeats_itself_within_one_run() {
    let standard = EncodeConfig::default();
    assert_eq!(
        encode_webp_advanced(&thumbnail(20), &standard),
        encode_webp_advanced(&thumbnail(20), &standard)
    );
}
