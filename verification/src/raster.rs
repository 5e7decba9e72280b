//! Pixel buffers: the decoded source image and the resampled thumbnail, both
//! as rows of RGBA pixels with eight bits per channel.

use vstd::prelude::*;
use vstd::string::StringExecFns;
use crate::error::{Failure, ThumbnailError};
use crate::format::ImageKind;
use crate::geometry::CropRegion;

verus! {

/// Mathematical value of a pixel buffer.
pub struct Raster {
    pub width: u32,
    pub height: u32,
    pub pixels: Seq<u8>,
}

impl Raster {
    /// Four bytes for each of `width * height` pixels.
    pub open spec fn well_formed(self) -> bool {
        self.pixels.len() == 4 * self.width * self.height
    }

    /// A well-formed buffer that is as high as it is wide, and not empty.
    pub open spec fn is_square(self, side: u32) -> bool {
        &&& self.well_formed()
        &&& side > 0
        &&& self.width == side
        &&& self.height == side
    }
}

/// Whether `len` bytes are exactly the RGBA pixels of a `width` x `height`
/// image.
pub fn holds_rgba(len: usize, width: u32, height: u32) -> (ok: bool)
    ensures
        ok == (len == 4 * width * height),
{
    assert(0 <= width * height <= 0xffff_ffff * 0xffff_ffff) by (nonlinear_arith)
        requires
            0 <= width <= 0xffff_ffff,
            0 <= height <= 0xffff_ffff,
    ;
    assert(4 * width * height == 4 * (width * height)) by (nonlinear_arith);
    let area: u128 = (width as u128) * (height as u128);
    len as u128 == 4 * area
}

/// A decoded image. Its buffer always holds exactly `4 * width * height`
/// bytes.
#[derive(Debug)]
pub struct SourceImage {
    width: u32,
    height: u32,
    pixels: Vec<u8>,
}

impl View for SourceImage {
    type V = Raster;

    closed spec fn view(&self) -> Raster {
        Raster { width: self.width, height: self.height, pixels: self.pixels@ }
    }
}

impl SourceImage {
    #[verifier::type_invariant]
    spec fn buffer_matches(self) -> bool {
        self.pixels@.len() == 4 * self.width * self.height
    }

    /// Takes over what a decoder produced. The buffer is accepted when it
    /// holds exactly the pixels of a `width` x `height` image, and refused as
    /// a decoding failure otherwise.
    pub fn from_rgba(width: u32, height: u32, pixels: Vec<u8>) -> (made: Result<
        SourceImage,
        ThumbnailError,
    >)
        ensures
            pixels@.len() == 4 * width * height ==> made is Ok && made->Ok_0@ == (Raster {
                width,
                height,
                pixels: pixels@,
            }),
            pixels@.len() != 4 * width * height ==> made is Err && made->Err_0@
                == Failure::Decode("the pixel buffer does not match the dimensions"@),
    {
        if holds_rgba(pixels.len(), width, height) {
            Ok(SourceImage { width, height, pixels })
        } else {
            Err(
                ThumbnailError::Decode(
                    String::from_str("the pixel buffer does not match the dimensions"),
                ),
            )
        }
    }

    pub fn width(&self) -> (w: u32)
        ensures
            w == self@.width,
    {
        self.width
    }

    pub fn height(&self) -> (h: u32)
        ensures
            h == self@.height,
    {
        self.height
    }

    /// The pixels, row by row; every image is well formed.
    pub fn pixels(&self) -> (p: &[u8])
        ensures
            p@ == self@.pixels,
            self@.well_formed(),
    {
        proof {
            use_type_invariant(self);
        }
        self.pixels.as_slice()
    }
}

/// A thumbnail: a square, non-empty image.
#[derive(Debug)]
pub struct ThumbnailBuffer {
    side: u32,
    pixels: Vec<u8>,
}

impl View for ThumbnailBuffer {
    type V = Raster;

    closed spec fn view(&self) -> Raster {
        Raster { width: self.side, height: self.side, pixels: self.pixels@ }
    }
}

impl ThumbnailBuffer {
    #[verifier::type_invariant]
    spec fn square_and_filled(self) -> bool {
        &&& self.side > 0
        &&& self.pixels@.len() == 4 * self.side * self.side
    }

    /// Takes over what a resampler produced for a square of `side` pixels.
    /// The buffer is accepted when `side` is positive and the buffer holds
    /// exactly the pixels of the square, and refused as a resizing failure
    /// otherwise.
    pub fn from_rgba(side: u32, pixels: Vec<u8>) -> (made: Result<ThumbnailBuffer, ThumbnailError>)
        ensures
            side > 0 && pixels@.len() == 4 * side * side ==> made is Ok && made->Ok_0@ == (Raster {
                width: side,
                height: side,
                pixels: pixels@,
            }),
            !(side > 0 && pixels@.len() == 4 * side * side) ==> made is Err && made->Err_0@
                == Failure::Resize("the pixel buffer does not match the target size"@),
    {
        if side > 0 && holds_rgba(pixels.len(), side, side) {
            Ok(ThumbnailBuffer { side, pixels })
        } else {
            Err(
                ThumbnailError::Resize(
                    String::from_str("the pixel buffer does not match the target size"),
                ),
            )
        }
    }

    /// The side length; every thumbnail is a square of it.
    pub fn side(&self) -> (s: u32)
        ensures
            self@.is_square(s),
    {
        proof {
            use_type_invariant(self);
        }
        self.side
    }

    pub fn width(&self) -> (w: u32)
        ensures
            w == self@.width,
    {
        self.side
    }

    pub fn height(&self) -> (h: u32)
        ensures
            h == self@.height,
    {
        self.side
    }

    pub fn pixels(&self) -> (p: &[u8])
        ensures
            p@ == self@.pixels,
    {
        self.pixels.as_slice()
    }
}

/// What the decoder of `kind` makes of a file: the dimensions and the RGBA
/// pixels of the image it holds, or the decoder's words on why it holds none.
pub uninterp spec fn decoded_rgba(bytes: Seq<u8>, kind: ImageKind) -> Result<
    (u32, u32, Seq<u8>),
    Seq<char>,
>;

/// Mathematical value of what a decoder hands back.
pub open spec fn decoder_outcome(outcome: Result<(u32, u32, Vec<u8>), String>) -> Result<
    (u32, u32, Seq<u8>),
    Seq<char>,
> {
    match outcome {
        Ok((width, height, pixels)) => Ok((width, height, pixels@)),
        Err(detail) => Err(detail@),
    }
}

/// The source image that a decoder's outcome amounts to. Pixels that fill
/// their dimensions exactly are the image. Pixels that do not, and the
/// decoder's own failure, are a decoding failure.
pub open spec fn source_of(outcome: Result<(u32, u32, Seq<u8>), Seq<char>>) -> Result<
    Raster,
    Failure,
> {
    match outcome {
        Ok((width, height, pixels)) => if pixels.len() == 4 * width * height {
            Ok(Raster { width, height, pixels })
        } else {
            Err(Failure::Decode("the pixel buffer does not match the dimensions"@))
        },
        Err(detail) => Err(Failure::Decode(detail)),
    }
}

/// Turns what a decoder handed back into a source image or a decoding
/// failure, as `source_of` says.
pub fn accept_decoded(outcome: Result<(u32, u32, Vec<u8>), String>) -> (accepted: Result<
    SourceImage,
    ThumbnailError,
>)
    ensures
        match source_of(decoder_outcome(outcome)) {
            Ok(raster) => accepted is Ok && accepted->Ok_0@ == raster,
            Err(failure) => accepted is Err && accepted->Err_0@ == failure,
        },
{
    match outcome {
        Ok((width, height, pixels)) => SourceImage::from_rgba(width, height, pixels),
        Err(detail) => Err(ThumbnailError::Decode(detail)),
    }
}

/// Calls `image::load_from_memory_with_format` with the variant of
/// `image::ImageFormat` that stands for `kind`, then `into_rgba8` on the
/// decoded image, and hands out its dimensions and its buffer; a failure
/// comes back as the decoder's own words.
///
/// The contract claims that the outcome is a function of the bytes and the
/// format alone: the decoders read nothing but the buffer, under the crate's
/// fixed default limits. What the function is, it does not say.
#[verifier::external_body]
fn decode_rgba(bytes: &[u8], kind: ImageKind) -> (outcome: Result<(u32, u32, Vec<u8>), String>)
    ensures
        decoder_outcome(outcome) == decoded_rgba(bytes@, kind),
{
    let format = match kind {
        ImageKind::Jpeg => image::ImageFormat::Jpeg,
        ImageKind::Png => image::ImageFormat::Png,
        ImageKind::Gif => image::ImageFormat::Gif,
        ImageKind::WebP => image::ImageFormat::WebP,
        ImageKind::Bmp => image::ImageFormat::Bmp,
        ImageKind::Ico => image::ImageFormat::Ico,
        ImageKind::Tiff => image::ImageFormat::Tiff,
    };
    let picture = image::load_from_memory_with_format(bytes, format).map_err(|e| e.to_string())?;
    let rgba = picture.into_rgba8();
    Ok((rgba.width(), rgba.height(), rgba.into_raw()))
}

/// Decodes a file of a supported encoding into RGBA pixels, whatever pixel
/// layout the file uses.
///
/// The outcome is what `source_of` makes of the decoder's: where the decoder
/// of `kind` reads an image from the bytes, that image, which is then well
/// formed; where it does not, a decoding failure in the decoder's words.
pub fn decode(bytes: &[u8], kind: ImageKind) -> (decoded: Result<SourceImage, ThumbnailError>)
    ensures
        match source_of(decoded_rgba(bytes@, kind)) {
            Ok(raster) => decoded is Ok && decoded->Ok_0@ == raster,
            Err(failure) => decoded is Err && decoded->Err_0@ == failure,
        },
        decoded matches Ok(image) ==> image@.well_formed(),
        decoded matches Err(e) ==> e@ is Decode,
{
    accept_decoded(decode_rgba(bytes, kind))
}

/// Why a resize is refused before any pixel is touched, if it is.
pub open spec fn resize_refusal(source: Raster, region: CropRegion, target: u32) -> Option<
    Seq<char>,
> {
    if target == 0 {
        Some("the target size is zero"@)
    } else if 4 * target * target > isize::MAX {
        Some("the pixel count overflows"@)
    } else if !region.fits(source.width, source.height) {
        Some("the crop region lies outside the image"@)
    } else {
        None
    }
}

/// Whether a square of `target` pixels a side can be allocated at all.
pub fn target_fits_memory(target: u32) -> (ok: bool)
    ensures
        ok == (4 * target * target <= isize::MAX),
{
    assert(0 <= target * target <= 0xffff_ffff * 0xffff_ffff) by (nonlinear_arith)
        requires
            0 <= target <= 0xffff_ffff,
    ;
    assert(4 * target * target == 4 * (target * target)) by (nonlinear_arith);
    let area: u128 = (target as u128) * (target as u128);
    4 * area <= isize::MAX as u128
}

/// Calls `fast_image_resize::Resizer::resize` with the default algorithm and
/// a crop box, from an `Image` over the source buffer into a new `Image` of
/// `target` x `target` pixels, both of pixel type `U8x4`.
///
/// The contract claims that a success hands out the whole buffer of the new
/// image, which `Image::new` makes four bytes a pixel, and that the call
/// succeeds for a positive target and a crop box inside the source: the
/// source buffer is long enough and its pixels are single bytes, a box inside
/// the image is accepted, and resizing has no other failure. The pixel values
/// are not described: the filter's weights come from a sine whose last digits
/// the platform decides.
#[verifier::external_body]
fn resample(
    pixels: Vec<u8>,
    width: u32,
    height: u32,
    region: CropRegion,
    target: u32,
) -> (outcome: Result<Vec<u8>, String>)
    requires
        pixels@.len() == 4 * width * height,
        4 * target * target <= isize::MAX,
    ensures
        outcome matches Ok(resampled) ==> resampled@.len() == 4 * target * target,
        target > 0 && region.fits(width, height) ==> outcome is Ok,
{
    let kind = fast_image_resize::PixelType::U8x4;
    let src = match fast_image_resize::images::Image::from_vec_u8(width, height, pixels, kind) {
        Ok(src) => src,
        Err(e) => return Err(e.to_string()),
    };
    let mut dst = fast_image_resize::images::Image::new(target, target, kind);
    let (left, top, side) = (region.left.into(), region.top.into(), region.side.into());
    let options = fast_image_resize::ResizeOptions::new().crop(left, top, side, side);
    match fast_image_resize::Resizer::new().resize(&src, &mut dst, &options) {
        Ok(()) => Ok(dst.into_vec()),
        Err(e) => Err(e.to_string()),
    }
}

/// Resamples the `region` of `source` to a square of `target` pixels a side.
/// Cropping and resizing are one resampling pass: no cropped copy of the
/// source is made in between.
///
/// The request is refused, with the reason that `resize_refusal` gives, when
/// the target is zero, when its pixel count cannot be allocated, or when the
/// region is empty or reaches outside the source. Every other request
/// succeeds, with a thumbnail of exactly `target` x `target` pixels.
pub fn resize(source: SourceImage, region: CropRegion, target: u32) -> (resized: Result<
    ThumbnailBuffer,
    ThumbnailError,
>)
    ensures
        resize_refusal(source@, region, target) matches Some(reason) ==> resized is Err
            && resized->Err_0@ == Failure::Resize(reason),
        resize_refusal(source@, region, target) is None ==> resized is Ok,
        resized matches Ok(thumbnail) ==> thumbnail@.is_square(target) && resize_refusal(
            source@,
            region,
            target,
        ) is None,
        resized matches Err(e) ==> e@ is Resize,
{
    proof {
        use_type_invariant(&source);
    }
    if target == 0 {
        return Err(ThumbnailError::Resize(String::from_str("the target size is zero")));
    }
    if !target_fits_memory(target) {
        return Err(ThumbnailError::Resize(String::from_str("the pixel count overflows")));
    }
    if !region.fits_within(source.width, source.height) {
        return Err(
            ThumbnailError::Resize(String::from_str("the crop region lies outside the image")),
        );
    }
    match resample(source.pixels, source.width, source.height, region, target) {
        Ok(pixels) => ThumbnailBuffer::from_rgba(target, pixels),
        Err(detail) => Err(ThumbnailError::Resize(detail)),
    }
}

} // verus!
