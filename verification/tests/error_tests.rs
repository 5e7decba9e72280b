use fast_thumbnail::error::ThumbnailError;

#[test]
fn every_failure_names_its_stage() {
    let d = || String::from("detail");
    assert_eq!(ThumbnailError::IoOpen(d()).message(), "Could not open image: detail");
    assert_eq!(
        ThumbnailError::UnsupportedFormat(String::from("Pnm")).message(),
        "Unsupported image format: Pnm"
    );
    assert_eq!(ThumbnailError::Decode(d()).message(), "Could not decode image: detail");
    assert_eq!(
        ThumbnailError::CropGeometry.message(),
        "Could not crop image: the image has no pixels"
    );
    assert_eq!(ThumbnailError::Resize(d()).message(), "Could not resize image: detail");
    assert_eq!(ThumbnailError::Encode(d()).message(), "Could not encode image: detail");
    assert_eq!(ThumbnailError::IoWrite(d()).message(), "Could not write image: detail");
    assert_eq!(
        ThumbnailError::UnknownMode(String::from("foo")).message(),
        "Unknown mode: foo"
    );
    assert_eq!(
        ThumbnailError::MissingOriginalFormat.message(),
        "Could not overwrite image: the original format is not known"
    );
}

#[test]
fn an_empty_detail_leaves_the_heading() {
    assert_eq!(ThumbnailError::Decode(String::new()).message(), "Could not decode image: ");
}
