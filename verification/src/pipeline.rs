//! The whole request: detect, decode, crop, resize, encode, emit. Each stage
//! runs once and in this order, and the first failure ends the request.

use vstd::prelude::*;
use crate::encode::{
    encode, encoded_of, native_encoding, payload_of, target_encoding, webp_refusal, EncodeConfig,
    Encoding,
};
use crate::error::{Failure, ThumbnailError};
use crate::format::{detect_format, format_verdict, guessed_format, signature_kind, ImageKind};
use crate::geometry::{centered_square, checked_crop};
use crate::mode::{mode_verdict, parse_mode, Mode};
use crate::raster::{decode, decoded_rgba, resize, resize_refusal, source_of};
use crate::sink::{delivers, emission_delivers, emission_of, emit, Delivery, Emission};

verus! {

/// Whether `out` is the outcome `expected`.
pub open spec fn outcome_is(
    out: Result<Emission, ThumbnailError>,
    expected: Result<Delivery, Failure>,
) -> bool {
    match expected {
        Ok(delivery) => out is Ok && out->Ok_0@ == delivery,
        Err(failure) => out is Err && out->Err_0@ == failure,
    }
}

/// Whether `width` can be the side of a thumbnail in `mode` under `config`:
/// it is positive, its pixels can be allocated, and where the mode encodes
/// tuned WebP the encoder takes the settings and the size.
pub open spec fn admissible(width: u32, mode: Mode, config: EncodeConfig) -> bool {
    &&& width > 0
    &&& 4 * width * width <= isize::MAX
    &&& mode != Mode::OverwriteOriginal ==> webp_refusal(width, config) is None
}

/// What an overwrite makes of the pixels of a thumbnail: the payload of the
/// native encoder of the source's format goes to the path, and a failure of
/// that encoder, or bytes that cannot be sealed, end the request.
pub open spec fn overwritten(
    pixels: Seq<u8>,
    side: u32,
    original: ImageKind,
    path: Seq<char>,
) -> Result<Delivery, Failure> {
    match payload_of(
        encoded_of(native_encoding(pixels, side, original)),
        Encoding::Native(original),
    ) {
        Ok(payload) => Ok(emission_of(payload, Mode::OverwriteOriginal, path)),
        Err(failure) => Err(failure),
    }
}

/// What a request owes once the source is resampled to a square of `width`.
///
/// - An overwrite ends as `overwritten` says of the pixels of that square,
///   which are the resampler's and not described.
/// - The other modes encode tuned WebP: settings or a size that the encoder
///   refuses end the request with that refusal. Otherwise the outcome is the
///   encoder's: a delivery of what the mode owes, or an encoding failure.
pub open spec fn encodes_and_emits(
    out: Result<Emission, ThumbnailError>,
    path: Seq<char>,
    width: u32,
    mode: Mode,
    config: EncodeConfig,
    original: ImageKind,
) -> bool {
    match mode {
        Mode::OverwriteOriginal => exists|pixels: Seq<u8>|
            pixels.len() == 4 * width * width && outcome_is(
                out,
                #[trigger] overwritten(pixels, width, original, path),
            ),
        _ => match webp_refusal(width, config) {
            Some(reason) => outcome_is(out, Err(Failure::Encode(reason))),
            None => match out {
                Ok(emission) => delivers(emission@, mode, path, original),
                Err(e) => e@ is Encode,
            },
        },
    }
}

/// What a request owes once the format `original` is detected.
///
/// - Where the decoder fails, the request ends with that decoding failure.
/// - Where the decoded image has no pixels, it ends as a cropping failure.
/// - Where the resize is refused for the centred square of the image, it
///   ends as a resizing failure with the reason of the refusal; a width of
///   zero is such a refusal.
/// - Otherwise the resize goes through and the rest is as
///   `encodes_and_emits` says.
pub open spec fn decodes_and_resizes(
    out: Result<Emission, ThumbnailError>,
    bytes: Seq<u8>,
    path: Seq<char>,
    width: u32,
    mode: Mode,
    config: EncodeConfig,
    original: ImageKind,
) -> bool {
    match source_of(decoded_rgba(bytes, original)) {
        Err(failure) => outcome_is(out, Err(failure)),
        Ok(source) => if source.width == 0 || source.height == 0 {
            outcome_is(out, Err(Failure::CropGeometry))
        } else {
            match resize_refusal(
                source,
                centered_square(source.width, source.height),
                width,
            ) {
                Some(reason) => outcome_is(out, Err(Failure::Resize(reason))),
                None => encodes_and_emits(out, path, width, mode, config, original),
            }
        },
    }
}

/// What a request owes its caller, stage by stage.
///
/// - A file that opens with no signature of the supported set ends the
///   request as an unsupported format, before anything is decoded; the
///   failure is the verdict on what the detector made of the header.
/// - A file of a supported format goes on as `decodes_and_resizes` says, with
///   the format of its signature.
/// - Every success delivers what the mode owes for the detected format, at
///   an admissible width.
pub open spec fn fulfils(
    out: Result<Emission, ThumbnailError>,
    bytes: Seq<u8>,
    path: Seq<char>,
    width: u32,
    mode: Mode,
    config: EncodeConfig,
) -> bool {
    match signature_kind(bytes) {
        None => {
            &&& out is Err
            &&& out->Err_0@ is UnsupportedFormat
            &&& format_verdict(guessed_format(bytes)) == Err::<ImageKind, Failure>(out->Err_0@)
        },
        Some(original) => {
            &&& decodes_and_resizes(out, bytes, path, width, mode, config, original)
            &&& out matches Ok(emission) ==> delivers(emission@, mode, path, original)
                && admissible(width, mode, config)
        },
    }
}

/// Makes the square thumbnail of an encoded image under the given settings.
///
/// `bytes` is the content of the file at `path`; `width` is the side of the
/// thumbnail in pixels. Nothing is written: the outcome names the one write
/// that the mode calls for.
pub fn create_thumbnail_with(
    bytes: &[u8],
    path: &str,
    width: u32,
    mode: Mode,
    config: &EncodeConfig,
) -> (out: Result<Emission, ThumbnailError>)
    ensures
        fulfils(out, bytes@, path@, width, mode, *config),
{
    let original = match detect_format(bytes) {
        Ok(kind) => kind,
        Err(e) => {
            return Err(e);
        },
    };
    let source = match decode(bytes, original) {
        Ok(image) => image,
        Err(e) => {
            return Err(e);
        },
    };
    let region = match checked_crop(source.width(), source.height()) {
        Ok(region) => region,
        Err(e) => {
            return Err(e);
        },
    };
    let thumbnail = match resize(source, region, width) {
        Ok(thumbnail) => thumbnail,
        Err(e) => {
            return Err(e);
        },
    };
    let target = match target_encoding(mode, Some(original)) {
        Ok(target) => target,
        Err(e) => {
            return Err(e);
        },
    };
    let out = match encode(&thumbnail, target, config) {
        Ok(payload) => {
            proof {
                emission_delivers(payload@, mode, path@, original);
            }
            Ok(emit(payload, mode, path, original))
        },
        Err(e) => Err(e),
    };
    proof {
        if mode == Mode::OverwriteOriginal {
            assert(thumbnail@.pixels.len() == 4 * width * width);
            assert(outcome_is(out, overwritten(thumbnail@.pixels, width, original, path@)));
        }
    }
    out
}

/// Makes the square thumbnail of an encoded image, under the standard
/// settings and in the mode that `mode` names: `base64`, `webp` or
/// `overwrite`.
///
/// Any other mode ends the request at once, with the literal in the failure
/// and before the bytes are looked at. Otherwise the outcome is that of
/// [`create_thumbnail_with`] in the mode named.
pub fn create_thumbnail(bytes: &[u8], path: &str, width: u32, mode: &str) -> (out: Result<
    Emission,
    ThumbnailError,
>)
    ensures
        match mode_verdict(mode@) {
            Err(failure) => out is Err && out->Err_0@ == failure,
            Ok(parsed) => fulfils(out, bytes@, path@, width, parsed, EncodeConfig::standard()),
        },
{
    let parsed = match parse_mode(mode) {
        Ok(parsed) => parsed,
        Err(e) => {
            return Err(e);
        },
    };
    let config = EncodeConfig::default();
    create_thumbnail_with(bytes, path, width, parsed, &config)
}

} // verus!
