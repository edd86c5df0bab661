use vstd::prelude::*;

use crate::exif_orientation::{exif_orientation_of, get_orientation, resolves_to, ExifOrientation, NoFixNeededReason};
use crate::orient::{fix_orientation, oriented};
use crate::pixels::{grid_of, lemma_grid_of_prefix, PixelBuffer};
use crate::target::{plan_resize, spec_plan, ResizePlan};
use crate::threshold::ImageResizeThreshold;

verus! {

#[verifier::external_type_specification]
#[verifier::external_body]
pub struct ExDynamicImage(image::DynamicImage);

/// The pixel format of a decoded image.
#[derive(Clone, Copy, Debug, PartialEq, Eq, Structural)]
pub enum PixelFormat {
    L8,
    La8,
    Rgb8,
    Rgba8,
    L16,
    La16,
    Rgb16,
    Rgba16,
    Rgb32F,
    Rgba32F,
    Other,
}

/// The channel layouts a derivative can be written in.
#[derive(Clone, Copy, Debug, PartialEq, Eq, Structural)]
pub enum SupportedImageColorType {
    Rgb,
    Rgba,
}

impl SupportedImageColorType {
    pub open spec fn channels(self) -> u32 {
        match self {
            SupportedImageColorType::Rgb => 3,
            SupportedImageColorType::Rgba => 4,
        }
    }
}

/// Why a derivative could not be produced.
#[derive(Debug)]
pub enum DerivativeError {
    /// The source bytes are not an image the decoder understands.
    Decode(String),
    /// The orientation metadata is malformed or holds an unusable code.
    Orientation(NoFixNeededReason),
    /// The decoded pixels are neither RGB nor RGBA.
    UnsupportedColorType,
}

/// The outcome of rendering a derivative.
#[derive(Debug)]
pub enum Derivative {
    /// The source already fits its bucket and is used as it is.
    Original,
    /// The resized, upright pixels of the derivative.
    Resized(PixelBuffer),
}

/// What to do with a decoded source.
#[derive(Clone, Copy, Debug, PartialEq, Eq, Structural)]
pub enum DerivativeStep {
    /// Use the source as it is.
    KeepOriginal,
    /// Resize to `width` x `height`, convert to `layout` and correct
    /// orientation code `orientation` (1 for none).
    Transform { width: u32, height: u32, layout: SupportedImageColorType, orientation: u32 },
}

pub open spec fn spec_support(f: PixelFormat) -> Option<SupportedImageColorType> {
    match f {
        PixelFormat::Rgba8 | PixelFormat::Rgba16 | PixelFormat::Rgba32F => Some(SupportedImageColorType::Rgba),
        PixelFormat::Rgb8 | PixelFormat::Rgb16 | PixelFormat::Rgb32F => Some(SupportedImageColorType::Rgb),
        _ => None,
    }
}

pub open spec fn spec_pixel_format(channels: u8, bytes_per_pixel: u8) -> PixelFormat {
    match (channels, bytes_per_pixel) {
        (1, 1) => PixelFormat::L8,
        (2, 2) => PixelFormat::La8,
        (3, 3) => PixelFormat::Rgb8,
        (4, 4) => PixelFormat::Rgba8,
        (1, 2) => PixelFormat::L16,
        (2, 4) => PixelFormat::La16,
        (3, 6) => PixelFormat::Rgb16,
        (4, 8) => PixelFormat::Rgba16,
        (3, 12) => PixelFormat::Rgb32F,
        (4, 16) => PixelFormat::Rgba32F,
        _ => PixelFormat::Other,
    }
}

/// The pixel format with `channels` channels in `bytes_per_pixel` bytes.
pub fn pixel_format(channels: u8, bytes_per_pixel: u8) -> (r: PixelFormat)
    ensures
        r == spec_pixel_format(channels, bytes_per_pixel),
{
    match (channels, bytes_per_pixel) {
        (1, 1) => PixelFormat::L8,
        (2, 2) => PixelFormat::La8,
        (3, 3) => PixelFormat::Rgb8,
        (4, 4) => PixelFormat::Rgba8,
        (1, 2) => PixelFormat::L16,
        (2, 4) => PixelFormat::La16,
        (3, 6) => PixelFormat::Rgb16,
        (4, 8) => PixelFormat::Rgba16,
        (3, 12) => PixelFormat::Rgb32F,
        (4, 16) => PixelFormat::Rgba32F,
        _ => PixelFormat::Other,
    }
}

/// The channel layout a derivative of this pixel format is written in, if any.
pub fn get_support_image_color_type(format: PixelFormat) -> (r: Option<SupportedImageColorType>)
    ensures
        r == spec_support(format),
{
    match format {
        PixelFormat::Rgba8 | PixelFormat::Rgba16 | PixelFormat::Rgba32F => Some(SupportedImageColorType::Rgba),
        PixelFormat::Rgb8 | PixelFormat::Rgb16 | PixelFormat::Rgb32F => Some(SupportedImageColorType::Rgb),
        _ => None,
    }
}

/// Absent metadata, a missing tag and an upright tag all mean code 1;
/// malformed metadata and unusable codes stay errors.
pub open spec fn spec_orientation_to_apply(r: Result<u32, NoFixNeededReason>) -> Result<u32, NoFixNeededReason> {
    match r {
        Ok(v) => Ok(v),
        Err(NoFixNeededReason::AlreadyCorrect) => Ok(1),
        Err(NoFixNeededReason::NoExif) => Ok(1),
        Err(NoFixNeededReason::NoOrientationTag) => Ok(1),
        Err(e) => Err(e),
    }
}

/// The orientation code to correct, given what the metadata said.
pub fn orientation_to_apply(resolved: Result<u32, NoFixNeededReason>) -> (r: Result<u32, NoFixNeededReason>)
    ensures
        r == spec_orientation_to_apply(resolved),
{
    match resolved {
        Ok(v) => Ok(v),
        Err(NoFixNeededReason::AlreadyCorrect) => Ok(1),
        Err(NoFixNeededReason::NoExif) => Ok(1),
        Err(NoFixNeededReason::NoOrientationTag) => Ok(1),
        Err(e) => Err(e),
    }
}

pub open spec fn spec_step(
    resolved: Result<u32, NoFixNeededReason>,
    native_w: u32,
    native_h: u32,
    format: PixelFormat,
    width: u32,
    height: u32,
) -> Result<DerivativeStep, DerivativeError> {
    let ceiling = ImageResizeThreshold::spec_for_size(width as int, height as int).ceiling();
    match spec_orientation_to_apply(resolved) {
        Err(e) => Err(DerivativeError::Orientation(e)),
        Ok(o) => match spec_plan(native_w as int, native_h as int, width as int, height as int, ceiling) {
            ResizePlan::KeepOriginal => Ok(DerivativeStep::KeepOriginal),
            ResizePlan::Resize { width: nw, height: nh } => match spec_support(format) {
                None => Err(DerivativeError::UnsupportedColorType),
                Some(layout) => Ok(DerivativeStep::Transform { width: nw, height: nh, layout, orientation: o }),
            },
        },
    }
}

/// Decides what a request of `width` x `height` does with a decoded source of
/// `native_w` x `native_h` pixels in `format`, whose metadata resolved to
/// `resolved`. Orientation errors come first, then the check that the source
/// already fits its bucket, then the check of the pixel format.
pub fn plan_derivative(
    resolved: Result<u32, NoFixNeededReason>,
    native_w: u32,
    native_h: u32,
    format: PixelFormat,
    width: u32,
    height: u32,
) -> (r: Result<DerivativeStep, DerivativeError>)
    ensures
        r == spec_step(resolved, native_w, native_h, format, width, height),
{
    let preset = ImageResizeThreshold::for_size(width, height).value();
    let orientation = match orientation_to_apply(resolved) {
        Err(e) => return Err(DerivativeError::Orientation(e)),
        Ok(o) => o,
    };
    match plan_resize(native_w, native_h, width, height, preset.desired_value) {
        ResizePlan::KeepOriginal => Ok(DerivativeStep::KeepOriginal),
        ResizePlan::Resize { width: nw, height: nh } => match get_support_image_color_type(format) {
            None => Err(DerivativeError::UnsupportedColorType),
            Some(layout) => Ok(DerivativeStep::Transform { width: nw, height: nh, layout, orientation }),
        },
    }
}

/// What the decoder finds in an encoded image: its width, height, channel
/// count and bytes per pixel, or `None` when it cannot decode it.
pub uninterp spec fn decoded_of(source: Seq<u8>) -> Option<(u32, u32, u8, u8)>;

/// The description of the decoder's fault for an image it cannot decode.
pub uninterp spec fn decode_fault_of(source: Seq<u8>) -> Seq<char>;

/// The width, height and 8-bit samples (`channels` per pixel, row by row) of
/// the decoded `source` resized to fit `width` x `height`.
pub uninterp spec fn resized_of(source: Seq<u8>, width: u32, height: u32, channels: u32) -> (u32, u32, Seq<u8>);

/// A decoded image, with what the decoder reported of it.
pub struct DecodedImage {
    image: image::DynamicImage,
    width: u32,
    height: u32,
    channels: u8,
    bytes_per_pixel: u8,
    source: Ghost<Seq<u8>>,
}

impl DecodedImage {
    pub closed spec fn source(&self) -> Seq<u8> {
        self.source@
    }

    pub closed spec fn info(&self) -> (u32, u32, u8, u8) {
        (self.width, self.height, self.channels, self.bytes_per_pixel)
    }
}

/// Relies on image::load_from_memory, which guesses the format from the
/// bytes, and on the decoded image's width, height and color type (its
/// channel count and bytes per pixel); a fault is described by its Display text.
#[verifier::external_body]
fn decode(source: &[u8]) -> (r: Result<DecodedImage, String>)
    ensures
        r is Ok <==> decoded_of(source@) is Some,
        r matches Ok(d) ==> decoded_of(source@) == Some(d.info()) && d.source() == source@,
        r matches Err(s) ==> s@ == decode_fault_of(source@),
{
    match image::load_from_memory(source) {
        Ok(image) => {
            let color = image.color();
            let (width, height) = (image.width(), image.height());
            let (channels, bytes_per_pixel) = (color.channel_count(), color.bytes_per_pixel());
            Ok(DecodedImage { image, width, height, channels, bytes_per_pixel, source: Ghost(source@) })
        },
        Err(e) => Err(e.to_string()),
    }
}

/// Relies on image::DynamicImage::resize with the Lanczos3 filter (the largest
/// size within the bounds that keeps the aspect ratio), then into_rgb8: three
/// samples per pixel; an image buffer holds at least that many samples.
#[verifier::external_body]
fn resize_rgb8(d: &DecodedImage, width: u32, height: u32) -> (r: PixelBuffer)
    ensures
        r.channels == 3,
        (r.width, r.height, r.data@) == resized_of(d.source(), width, height, 3),
        r.data@.len() >= r.width as int * r.height as int * 3,
{
    let buf = d.image.resize(width, height, image::imageops::FilterType::Lanczos3).into_rgb8();
    PixelBuffer { width: buf.width(), height: buf.height(), channels: 3, data: buf.into_raw() }
}

/// Relies on image::DynamicImage::resize with the Lanczos3 filter, then
/// into_rgba8: four samples per pixel, as for RGB.
#[verifier::external_body]
fn resize_rgba8(d: &DecodedImage, width: u32, height: u32) -> (r: PixelBuffer)
    ensures
        r.channels == 4,
        (r.width, r.height, r.data@) == resized_of(d.source(), width, height, 4),
        r.data@.len() >= r.width as int * r.height as int * 4,
{
    let buf = d.image.resize(width, height, image::imageops::FilterType::Lanczos3).into_rgba8();
    PixelBuffer { width: buf.width(), height: buf.height(), channels: 4, data: buf.into_raw() }
}

/// Drops any samples past the last pixel.
fn trim_samples(b: PixelBuffer) -> (r: PixelBuffer)
    requires
        b.channels == 3 || b.channels == 4,
        b.data@.len() >= b.width as int * b.height as int * b.channels as int,
    ensures
        r.wf(),
        r.width == b.width,
        r.height == b.height,
        r.channels == b.channels,
        r.data@ == b.data@.subrange(0, b.width as int * b.height as int * b.channels as int),
{
    let PixelBuffer { width, height, channels, mut data } = b;
    let available: usize = data.len();
    proof {
        let (w, h, c) = (width as int, height as int, channels as int);
        assert(0 <= w * h <= w * h * c) by (nonlinear_arith)
            requires
                w >= 0,
                h >= 0,
                c >= 3,
        ;
    }
    let pixels: usize = width as usize * height as usize;
    let len: usize = pixels * channels as usize;
    data.truncate(len);
    PixelBuffer { width, height, channels, data }
}

/// The orientation code to correct for metadata of kind `k`, or `None` when
/// the metadata is malformed or holds an unusable code.
pub open spec fn orientation_code_of(k: ExifOrientation) -> Option<u32> {
    match k {
        ExifOrientation::Missing => Some(1),
        ExifOrientation::NoTag => Some(1),
        ExifOrientation::Malformed => None,
        ExifOrientation::Tagged(Some(v)) => if v == 1 {
            Some(1)
        } else if 2 <= v <= 8 {
            Some(v)
        } else {
            None
        },
        ExifOrientation::Tagged(None) => None,
    }
}

/// What rendering `source`, decoded as `w` x `h` pixels with `ch` channels in
/// `bpp` bytes each, for a request of `width` x `height` gives.
pub open spec fn renders_to(
    source: Seq<u8>,
    w: u32,
    h: u32,
    ch: u8,
    bpp: u8,
    width: u32,
    height: u32,
    r: Result<Derivative, DerivativeError>,
) -> bool {
    let ceiling = ImageResizeThreshold::spec_for_size(width as int, height as int).ceiling();
    let k = exif_orientation_of(source);
    match orientation_code_of(k) {
        None => r matches Err(DerivativeError::Orientation(e)) && resolves_to(k, Err(e)),
        Some(o) => match spec_plan(w as int, h as int, width as int, height as int, ceiling) {
            ResizePlan::KeepOriginal => r matches Ok(Derivative::Original),
            ResizePlan::Resize { width: nw, height: nh } => match spec_support(spec_pixel_format(ch, bpp)) {
                None => r matches Err(DerivativeError::UnsupportedColorType),
                Some(layout) => r matches Ok(Derivative::Resized(b)) && b.wf() && b.channels
                    == layout.channels() && ({
                    let (rw, rh, samples) = resized_of(source, nw, nh, layout.channels());
                    (b.grid(), b.width as int, b.height as int) == oriented(
                        grid_of(rw as int, rh as int, b.channels as int, samples),
                        rw as int,
                        rh as int,
                        o as int,
                    )
                }),
            },
        },
    }
}

/// Renders the derivative of an encoded source for a request of `width` x
/// `height`: decodes it and, unless it already fits its bucket, resizes it and
/// corrects its orientation.
pub fn render_derivative(source: &[u8], width: u32, height: u32) -> (r: Result<Derivative, DerivativeError>)
    ensures
        decoded_of(source@) is None <==> r matches Err(DerivativeError::Decode(_)),
        r matches Err(DerivativeError::Decode(s)) ==> s@ == decode_fault_of(source@),
        decoded_of(source@) matches Some((w, h, ch, bpp)) ==> renders_to(source@, w, h, ch, bpp, width, height, r),
{
    let decoded = match decode(source) {
        Err(e) => return Err(DerivativeError::Decode(e)),
        Ok(d) => d,
    };
    let resolved = get_orientation(source);
    let format = pixel_format(decoded.channels, decoded.bytes_per_pixel);
    let step = plan_derivative(resolved, decoded.width, decoded.height, format, width, height);
    let (nw, nh, layout, orientation) = match step {
        Err(e) => return Err(e),
        Ok(DerivativeStep::KeepOriginal) => return Ok(Derivative::Original),
        Ok(DerivativeStep::Transform { width, height, layout, orientation }) => (width, height, layout, orientation),
    };
    let resized = match layout {
        SupportedImageColorType::Rgba => resize_rgba8(&decoded, nw, nh),
        SupportedImageColorType::Rgb => resize_rgb8(&decoded, nw, nh),
    };
    let ghost untrimmed = resized.data@;
    let mut buf = trim_samples(resized);
    proof {
        lemma_grid_of_prefix(
            buf.width as int,
            buf.height as int,
            buf.channels as int,
            untrimmed,
            buf.data@,
        );
    }
    if orientation > 1 {
        buf = fix_orientation(buf, orientation);
    }
    Ok(Derivative::Resized(buf))
}

} // verus!
