//! Turning a thumbnail into the bytes of a file: tuned lossy WebP, or the
//! encoding the source came in.

use vstd::prelude::*;
use vstd::string::StringExecFns;
use libwebp_sys::WebPImageHint;
use webp::{Encoder, PixelLayout, WebPConfig};
use crate::error::{Failure, ThumbnailError};
use crate::format::{detect_format, signature_kind, ImageKind};
use crate::mode::Mode;
use crate::raster::ThumbnailBuffer;
use crate::text::{text_safe_limit, within_text_limit};

verus! {

/// What kind of picture the encoder should expect.
#[derive(Clone, Copy, Debug, PartialEq, Eq, Structural)]
pub enum PerceptualHint {
    Default,
    Picture,
    Photo,
    Graph,
}

/// The tuning of the lossy WebP encoder.
#[derive(Clone, Copy, Debug, PartialEq, Eq, Structural)]
pub struct EncodeConfig {
    /// 0 (smallest file) to 100 (best quality).
    pub quality: u8,
    /// 0 (fastest) to 6 (slowest, best compression).
    pub method: u8,
    pub hint: PerceptualHint,
    /// Strength of the spatial noise shaping, 0 to 100.
    pub sns_strength: u8,
    /// 0 (sharpest) to 7.
    pub filter_sharpness: u8,
    /// Strength of the deblocking filter, 0 to 100.
    pub filter_strength: u8,
}

impl EncodeConfig {
    /// Every setting lies in the range the encoder accepts.
    pub open spec fn valid(self) -> bool {
        &&& self.quality <= 100
        &&& self.method <= 6
        &&& self.sns_strength <= 100
        &&& self.filter_sharpness <= 7
        &&& self.filter_strength <= 100
    }

    /// The settings used where the caller gives none.
    pub open spec fn standard() -> EncodeConfig {
        EncodeConfig {
            quality: 75,
            method: 3,
            hint: PerceptualHint::Photo,
            sns_strength: 70,
            filter_sharpness: 2,
            filter_strength: 25,
        }
    }

    /// Exec counterpart of [`EncodeConfig::valid`].
    pub fn is_valid(&self) -> (ok: bool)
        ensures
            ok == self.valid(),
    {
        self.quality <= 100 && self.method <= 6 && self.sns_strength <= 100
            && self.filter_sharpness <= 7 && self.filter_strength <= 100
    }
}

impl Default for EncodeConfig {
    /// Quality 75, method 3, tuned for photos, noise shaping 70, sharpness 2,
    /// filter strength 25.
    fn default() -> (config: EncodeConfig)
        ensures
            config == EncodeConfig::standard(),
            config.valid(),
    {
        EncodeConfig {
            quality: 75,
            method: 3,
            hint: PerceptualHint::Photo,
            sns_strength: 70,
            filter_sharpness: 2,
            filter_strength: 25,
        }
    }
}

/// The encoding of a payload: lossy WebP under an [`EncodeConfig`], or the
/// format's own encoder with its defaults.
#[derive(Clone, Copy, Debug, PartialEq, Eq, Structural)]
pub enum Encoding {
    TunedWebP,
    Native(ImageKind),
}

impl Encoding {
    /// The format of the bytes that this encoding produces.
    pub open spec fn kind_spec(self) -> ImageKind {
        match self {
            Encoding::TunedWebP => ImageKind::WebP,
            Encoding::Native(kind) => kind,
        }
    }

    /// The format of the bytes that this encoding produces.
    pub fn kind(&self) -> (kind: ImageKind)
        ensures
            kind == self.kind_spec(),
    {
        match self {
            Encoding::TunedWebP => ImageKind::WebP,
            Encoding::Native(kind) => *kind,
        }
    }
}

/// The encoding that a mode asks for, given the format of the source.
pub open spec fn target_of(mode: Mode, original: Option<ImageKind>) -> Result<Encoding, Failure> {
    match mode {
        Mode::InMemory => Ok(Encoding::TunedWebP),
        Mode::NewFile => Ok(Encoding::TunedWebP),
        Mode::OverwriteOriginal => match original {
            Some(kind) => Ok(Encoding::Native(kind)),
            None => Err(Failure::MissingOriginalFormat),
        },
    }
}

/// Chooses the encoding for a mode. The in-memory and new-file modes always
/// get tuned WebP. An overwrite gets the format of the source, and fails
/// where that format is not known.
pub fn target_encoding(mode: Mode, original: Option<ImageKind>) -> (target: Result<
    Encoding,
    ThumbnailError,
>)
    ensures
        match target_of(mode, original) {
            Ok(encoding) => target == Ok::<Encoding, ThumbnailError>(encoding),
            Err(failure) => target is Err && target->Err_0@ == failure,
        },
{
    match mode {
        Mode::InMemory => Ok(Encoding::TunedWebP),
        Mode::NewFile => Ok(Encoding::TunedWebP),
        Mode::OverwriteOriginal => match original {
            Some(kind) => Ok(Encoding::Native(kind)),
            None => Err(ThumbnailError::MissingOriginalFormat),
        },
    }
}

/// Mathematical value of an [`EncodedPayload`].
pub struct Payload {
    pub bytes: Seq<u8>,
    pub encoding: Encoding,
}

impl Payload {
    /// The bytes open with a signature of the format that the tag names, and
    /// are few enough to be rendered as text.
    pub open spec fn sealed(self) -> bool {
        &&& self.bytes.len() <= text_safe_limit()
        &&& signature_kind(self.bytes) == Some(self.encoding.kind_spec())
    }
}

/// Why bytes are not accepted as a payload of an encoding, if they are not.
pub open spec fn seal_refusal(bytes: Seq<u8>, encoding: Encoding) -> Option<Seq<char>> {
    if bytes.len() > text_safe_limit() {
        Some("the encoded image is too large"@)
    } else if signature_kind(bytes) != Some(encoding.kind_spec()) {
        Some("the encoded image is not in the target format"@)
    } else {
        None
    }
}

/// Encoded bytes with the tag of their encoding. The bytes of every payload
/// open with a signature of the format that its tag names.
#[derive(Debug)]
pub struct EncodedPayload {
    bytes: Vec<u8>,
    encoding: Encoding,
}

impl View for EncodedPayload {
    type V = Payload;

    closed spec fn view(&self) -> Payload {
        Payload { bytes: self.bytes@, encoding: self.encoding }
    }
}

impl EncodedPayload {
    #[verifier::type_invariant]
    spec fn tag_matches_bytes(self) -> bool {
        (Payload { bytes: self.bytes@, encoding: self.encoding }).sealed()
    }

    /// Takes over what an encoder produced. The bytes are accepted when they
    /// open with a signature of the format of `encoding`; otherwise, and
    /// where they are too many to be rendered as text, they are refused as an
    /// encoding failure with the reason that `seal_refusal` gives.
    pub fn seal(bytes: Vec<u8>, encoding: Encoding) -> (sealed: Result<
        EncodedPayload,
        ThumbnailError,
    >)
        ensures
            match seal_refusal(bytes@, encoding) {
                None => sealed is Ok && sealed->Ok_0@ == (Payload { bytes: bytes@, encoding }),
                Some(reason) => sealed is Err && sealed->Err_0@ == Failure::Encode(reason),
            },
    {
        if !within_text_limit(bytes.len()) {
            return Err(ThumbnailError::Encode(String::from_str("the encoded image is too large")));
        }
        let found = match detect_format(bytes.as_slice()) {
            Ok(kind) => kind == encoding.kind(),
            Err(_) => false,
        };
        if found {
            Ok(EncodedPayload { bytes, encoding })
        } else {
            Err(
                ThumbnailError::Encode(
                    String::from_str("the encoded image is not in the target format"),
                ),
            )
        }
    }

    /// The encoded bytes; every payload is sealed.
    pub fn bytes(&self) -> (b: &[u8])
        ensures
            b@ == self@.bytes,
            self@.sealed(),
    {
        proof {
            use_type_invariant(self);
        }
        self.bytes.as_slice()
    }

    /// The tag.
    pub fn encoding(&self) -> (e: Encoding)
        ensures
            e == self@.encoding,
    {
        self.encoding
    }

    /// Gives up the payload for its bytes.
    pub fn into_bytes(self) -> (b: Vec<u8>)
        ensures
            b@ == self@.bytes,
            self@.sealed(),
    {
        proof {
            use_type_invariant(&self);
        }
        self.bytes
    }
}

/// Calls `webp::WebPConfig::new`, which fills in the encoder's defaults,
/// stores the six settings of an [`EncodeConfig`] in the result, and calls
/// `webp::Encoder::new` on the RGBA pixels and then `encode_advanced` with
/// those settings. A failure comes back in words: that no settings could be
/// made, or the name of the encoder's error code.
///
/// `new` panics on a buffer shorter than the dimensions ask for, and the
/// encoder computes a row's length in 32 bits: the `requires` keeps both
/// away, and lets only settings within their ranges through. Nothing is
/// claimed of the outcome. It is not a function of the
/// arguments alone: the encoder's quantiser works through the C library's
/// `pow`, and its code for machines with SSE2 states of itself that it gives
/// other results than the plain code.
#[verifier::external_body]
fn webp_encode(pixels: &[u8], side: u32, config: &EncodeConfig) -> (outcome: Result<
    Vec<u8>,
    String,
>)
    requires
        config.valid(),
        0 < side <= 16383,
        pixels@.len() == 4 * side * side,
{
    let mut settings = WebPConfig::new().map_err(|()| "Could not create WebP config")?;
    settings.quality = config.quality.into();
    settings.method = config.method.into();
    settings.image_hint = match config.hint {
        PerceptualHint::Default => WebPImageHint::WEBP_HINT_DEFAULT,
        PerceptualHint::Picture => WebPImageHint::WEBP_HINT_PICTURE,
        PerceptualHint::Photo => WebPImageHint::WEBP_HINT_PHOTO,
        PerceptualHint::Graph => WebPImageHint::WEBP_HINT_GRAPH,
    };
    settings.sns_strength = config.sns_strength.into();
    settings.filter_sharpness = config.filter_sharpness.into();
    settings.filter_strength = config.filter_strength.into();
    let done = Encoder::new(pixels, PixelLayout::Rgba, side, side).encode_advanced(&settings);
    done.map(|memory| memory.to_vec()).map_err(|e| format!("WebP encoding error: {:?}", e))
}

/// What the encoder of `kind` makes of a square of RGBA pixels: the bytes of
/// the file, or the encoder's words on why there is none.
pub uninterp spec fn native_encoding(pixels: Seq<u8>, side: u32, kind: ImageKind) -> Result<
    Seq<u8>,
    Seq<char>,
>;

/// Mathematical value of what an encoder hands back.
pub open spec fn encoder_outcome(outcome: Result<Vec<u8>, String>) -> Result<Seq<u8>, Seq<char>> {
    match outcome {
        Ok(bytes) => Ok(bytes@),
        Err(detail) => Err(detail@),
    }
}

/// Calls `image::DynamicImage::write_to` on an RGBA image made of the pixels
/// with `image::RgbaImage::from_raw`, writing into memory in the variant of
/// `image::ImageFormat` that stands for `kind`; a failure comes back in the
/// encoder's own words.
///
/// The contract claims that the outcome is a function of the pixels, the
/// side and the format alone: the encoders run on the buffer with their
/// defaults and write nothing of the time or the machine. What the function
/// is, it does not say.
#[verifier::external_body]
fn native_encode(pixels: &[u8], side: u32, kind: ImageKind) -> (outcome: Result<Vec<u8>, String>)
    requires
        pixels@.len() == 4 * side * side,
    ensures
        encoder_outcome(outcome) == native_encoding(pixels@, side, kind),
{
    let format = match kind {
        ImageKind::Jpeg => image::ImageFormat::Jpeg,
        ImageKind::Png => image::ImageFormat::Png,
        ImageKind::Gif => image::ImageFormat::Gif,
        ImageKind::WebP => image::ImageFormat::WebP,
        ImageKind::Bmp => image::ImageFormat::Bmp,
        ImageKind::Ico => image::ImageFormat::Ico,
        ImageKind::Tiff => image::ImageFormat::Tiff,
    };
    let raw = image::RgbaImage::from_raw(side, side, pixels.to_vec());
    let picture = image::DynamicImage::ImageRgba8(raw.ok_or("Error constructing resized buffer")?);
    let mut sink = std::io::Cursor::new(Vec::new());
    picture.write_to(&mut sink, format).map_err(|e| e.to_string())?;
    Ok(sink.into_inner())
}

/// The largest side that a WebP image can have.
pub const WEBP_MAX_SIDE: u32 = 16383;

/// Why a thumbnail is not handed to the WebP encoder, if it is not.
pub open spec fn webp_refusal(side: u32, config: EncodeConfig) -> Option<Seq<char>> {
    if !config.valid() {
        Some("the encoder settings are out of range"@)
    } else if side > WEBP_MAX_SIDE {
        Some("the image is too large for WebP"@)
    } else {
        None
    }
}

/// Encodes a thumbnail as lossy WebP under the given settings.
///
/// Settings out of range and a side beyond what WebP can hold are refused
/// with the reason that `webp_refusal` gives. Otherwise the encoder is called
/// once, on the pixels of the thumbnail and with the six settings, and what
/// it hands back goes through [`accept_webp`]: a success is bytes that open
/// with the signature of WebP, and every failure is an encoding failure.
pub fn encode_webp_advanced(buffer: &ThumbnailBuffer, config: &EncodeConfig) -> (encoded: Result<
    Vec<u8>,
    ThumbnailError,
>)
    ensures
        webp_refusal(buffer@.width, *config) matches Some(reason) ==> encoded is Err
            && encoded->Err_0@ == Failure::Encode(reason),
        encoded matches Ok(bytes) ==> webp_refusal(buffer@.width, *config) is None && seal_refusal(
            bytes@,
            Encoding::TunedWebP,
        ) is None,
        encoded matches Err(e) ==> e@ is Encode,
{
    let side = buffer.side();
    if !config.is_valid() {
        return Err(
            ThumbnailError::Encode(String::from_str("the encoder settings are out of range")),
        );
    }
    if side > WEBP_MAX_SIDE {
        return Err(ThumbnailError::Encode(String::from_str("the image is too large for WebP")));
    }
    accept_webp(webp_encode(buffer.pixels(), side, config))
}

/// The encoded file or the encoding failure that an encoder's outcome
/// amounts to.
pub open spec fn encoded_of(outcome: Result<Seq<u8>, Seq<char>>) -> Result<Seq<u8>, Failure> {
    match outcome {
        Ok(bytes) => Ok(bytes),
        Err(detail) => Err(Failure::Encode(detail)),
    }
}

/// Turns what an encoder handed back into the bytes of the file or an
/// encoding failure, as `encoded_of` says.
pub fn accept_encoded(outcome: Result<Vec<u8>, String>) -> (accepted: Result<
    Vec<u8>,
    ThumbnailError,
>)
    ensures
        match encoded_of(encoder_outcome(outcome)) {
            Ok(bytes) => accepted is Ok && accepted->Ok_0@ == bytes,
            Err(failure) => accepted is Err && accepted->Err_0@ == failure,
        },
{
    match outcome {
        Ok(bytes) => Ok(bytes),
        Err(detail) => Err(ThumbnailError::Encode(detail)),
    }
}

/// The payload or the encoding failure that encoded bytes amount to under
/// the tag `encoding`: bytes that `seal_refusal` lets pass are the payload,
/// other bytes fail with its reason, and a failure stays what it is.
pub open spec fn payload_of(produced: Result<Seq<u8>, Failure>, encoding: Encoding) -> Result<
    Payload,
    Failure,
> {
    match produced {
        Ok(bytes) => match seal_refusal(bytes, encoding) {
            None => Ok(Payload { bytes, encoding }),
            Some(reason) => Err(Failure::Encode(reason)),
        },
        Err(failure) => Err(failure),
    }
}

/// Turns what the WebP encoder handed back into the bytes of a WebP file or
/// an encoding failure. Bytes that open with the signature of WebP are
/// handed on unchanged. Other bytes, and bytes too many to be rendered as
/// text, fail with the reason that `seal_refusal` gives, and a failure of the
/// encoder fails in the encoder's words.
pub fn accept_webp(outcome: Result<Vec<u8>, String>) -> (accepted: Result<Vec<u8>, ThumbnailError>)
    ensures
        match payload_of(encoded_of(encoder_outcome(outcome)), Encoding::TunedWebP) {
            Ok(payload) => accepted is Ok && accepted->Ok_0@ == payload.bytes,
            Err(failure) => accepted is Err && accepted->Err_0@ == failure,
        },
{
    match accept_encoded(outcome) {
        Ok(bytes) => match EncodedPayload::seal(bytes, Encoding::TunedWebP) {
            Ok(payload) => Ok(payload.into_bytes()),
            Err(e) => Err(e),
        },
        Err(e) => Err(e),
    }
}

/// Encodes a thumbnail in one of the supported formats with that format's
/// own encoder and its defaults.
///
/// The outcome is the encoder's on the pixels and the side of the thumbnail:
/// the bytes it produced, or an encoding failure in the encoder's words.
pub fn encode_native(buffer: &ThumbnailBuffer, kind: ImageKind) -> (encoded: Result<
    Vec<u8>,
    ThumbnailError,
>)
    ensures
        match encoded_of(native_encoding(buffer@.pixels, buffer@.width, kind)) {
            Ok(bytes) => encoded is Ok && encoded->Ok_0@ == bytes,
            Err(failure) => encoded is Err && encoded->Err_0@ == failure,
        },
        encoded matches Err(e) ==> e@ is Encode,
{
    let side = buffer.side();
    accept_encoded(native_encode(buffer.pixels(), side, kind))
}

/// Encodes a thumbnail in the target encoding and seals the result.
///
/// - A native target: the outcome is what `payload_of` makes of the native
///   encoder's on the pixels and the side of the thumbnail.
/// - Tuned WebP: settings out of range and a side beyond what WebP can hold
///   are refused as `webp_refusal` says; otherwise the outcome is the
///   encoder's, as [`encode_webp_advanced`] hands it on.
///
/// Every success is a sealed payload of the target encoding, and every
/// failure is an encoding failure.
pub fn encode(buffer: &ThumbnailBuffer, target: Encoding, config: &EncodeConfig) -> (encoded:
    Result<EncodedPayload, ThumbnailError>)
    ensures
        target matches Encoding::Native(kind) ==> match payload_of(
            encoded_of(native_encoding(buffer@.pixels, buffer@.width, kind)),
            target,
        ) {
            Ok(payload) => encoded is Ok && encoded->Ok_0@ == payload,
            Err(failure) => encoded is Err && encoded->Err_0@ == failure,
        },
        target is TunedWebP ==> (webp_refusal(buffer@.width, *config) matches Some(reason)
            ==> encoded is Err && encoded->Err_0@ == Failure::Encode(reason)),
        encoded matches Ok(payload) ==> payload@.encoding == target && payload@.sealed(),
        encoded matches Err(e) ==> e@ is Encode,
{
    let produced = match target {
        Encoding::TunedWebP => encode_webp_advanced(buffer, config),
        Encoding::Native(kind) => encode_native(buffer, kind),
    };
    match produced {
        Ok(bytes) => EncodedPayload::seal(bytes, target),
        Err(e) => Err(e),
    }
}

} // verus!
