//! The codec adapter: decoding an image file's bytes into a raster,
//! resampling a raster to fixed dimensions and encoding it as lossy WebP.
//!
//! Decoding and resampling are done by the `image` crate and encoding by the
//! `webp` crate. The library keeps a raster as plain values, so that the one
//! property the encoder's memory safety rests on, that the sample buffer
//! covers the stated dimensions, is checked here and not assumed.

use image::io::Reader;
use image::{DynamicImage, ImageFormat};
use std::io::Cursor;
use vstd::prelude::*;
use vstd::string::StringExecFns;

verus! {

/// How the samples of a raster are laid out.
#[derive(Clone, Copy, Debug, PartialEq, Eq, Structural)]
pub enum PixelLayout {
    /// Three 8-bit samples per pixel: red, green, blue.
    Rgb,
    /// Four 8-bit samples per pixel: red, green, blue, alpha.
    Rgba,
    /// Any other layout. The WebP encoder takes none of them, so the
    /// library keeps no samples for such a raster.
    Other,
}

impl PixelLayout {
    /// The number of bytes that one pixel occupies in the sample buffer.
    pub open spec fn channels(self) -> nat {
        match self {
            PixelLayout::Rgb => 3,
            PixelLayout::Rgba => 4,
            PixelLayout::Other => 0,
        }
    }
}

/// What went wrong with one item.
#[derive(Clone, Copy, Debug, PartialEq, Eq, Structural)]
pub enum ErrorKind {
    /// The source was missing, unreadable or not a supported image.
    Decode,
    /// The encoder rejected the raster.
    Encode,
    /// The output could not be written, or a size could not be read.
    Io,
    /// A cancellation was requested before the item was done.
    Cancelled,
}

/// A failure of one item, with a message for the user.
#[derive(Debug)]
pub struct ConversionError {
    pub kind: ErrorKind,
    pub message: String,
}

/// The mathematical content of a failure.
pub struct ErrorView {
    pub kind: ErrorKind,
    pub message: Seq<char>,
}

impl View for ConversionError {
    type V = ErrorView;

    open spec fn view(&self) -> ErrorView {
        ErrorView { kind: self.kind, message: self.message@ }
    }
}

/// The mathematical content of a raster.
pub struct RasterView {
    pub width: nat,
    pub height: nat,
    pub layout: PixelLayout,
    pub samples: Seq<u8>,
}

impl RasterView {
    /// The least number of samples that covers the raster's pixels.
    pub open spec fn required_len(self) -> nat {
        self.width * self.height * self.layout.channels()
    }

    /// The sample buffer covers every pixel.
    pub open spec fn covered(self) -> bool {
        self.samples.len() >= self.required_len()
    }
}

/// A decoded image: dimensions, layout and samples, row by row.
#[derive(Debug)]
pub struct Raster {
    width: u32,
    height: u32,
    layout: PixelLayout,
    data: Vec<u8>,
}

impl View for Raster {
    type V = RasterView;

    closed spec fn view(&self) -> RasterView {
        RasterView {
            width: self.width as nat,
            height: self.height as nat,
            layout: self.layout,
            samples: self.data@,
        }
    }
}

/// The bound on widths and heights that the resampler is asked for. It
/// computes pixel positions and half-pixel offsets in 32-bit floating point,
/// which is exact only below 2^23.
pub const RESAMPLE_LIMIT: u32 = 0x80_0000;

/// Whether the resampler can be asked to bring a raster of the source's
/// dimensions to the new ones: every width and height is below
/// `RESAMPLE_LIMIT`, and the buffers can be held. The resampler allocates
/// four 32-bit samples for each pixel of a raster of the source's width and
/// the new height, then the result.
pub open spec fn resize_fits(source_width: nat, source_height: nat, width: nat, height: nat) -> bool {
    &&& source_width < RESAMPLE_LIMIT
    &&& source_height < RESAMPLE_LIMIT
    &&& width < RESAMPLE_LIMIT
    &&& height < RESAMPLE_LIMIT
    &&& 16 * (source_width * height) <= isize::MAX
    &&& 4 * (width * height) <= isize::MAX
}

/// The bytes are a WebP file as far as its container goes: they begin with
/// the twelve bytes of a RIFF header whose form is `WEBP`.
pub open spec fn is_webp_container(bytes: Seq<u8>) -> bool {
    &&& bytes.len() >= 12
    &&& bytes.subrange(0, 4) == seq![0x52u8, 0x49, 0x46, 0x46]
    &&& bytes.subrange(8, 12) == seq![0x57u8, 0x45, 0x42, 0x50]
}

/// Whether the encoder binding can take the dimensions: it computes the row
/// stride, four times the width at most, as a signed 32-bit number.
pub open spec fn encoder_accepts_dimensions(width: nat, height: nat) -> bool {
    &&& 4 * width <= i32::MAX
    &&& height <= i32::MAX
}

impl Raster {
    #[verifier::type_invariant]
    spec fn covers_pixels(self) -> bool {
        self.data@.len() >= (self.width as nat) * (self.height as nat) * self.layout.channels()
    }

    /// A raster of the given dimensions over `data`, if `data` covers them.
    pub fn new(width: u32, height: u32, layout: PixelLayout, data: Vec<u8>) -> (r: Option<Raster>)
        ensures
            r is Some <==> (RasterView {
                width: width as nat,
                height: height as nat,
                layout,
                samples: data@,
            }).covered(),
            r matches Some(raster) ==> raster@ == (RasterView {
                width: width as nat,
                height: height as nat,
                layout,
                samples: data@,
            }),
    {
        let channels: u128 = match layout {
            PixelLayout::Rgb => 3,
            PixelLayout::Rgba => 4,
            PixelLayout::Other => 0,
        };
        let pixels: u128 = pixel_count(width, height);
        assert(pixels * channels <= 0x1_0000_0000_0000_0000 * 4) by (nonlinear_arith)
            requires
                pixels <= 0x1_0000_0000_0000_0000,
                channels <= 4,
        ;
        let needed: u128 = pixels * channels;
        assert(needed == (width as nat) * (height as nat) * layout.channels());
        if data.len() as u128 >= needed {
            Some(Raster { width, height, layout, data })
        } else {
            None
        }
    }

    pub fn width(&self) -> (w: u32)
        ensures
            w == self@.width,
    {
        self.width
    }

    pub fn height(&self) -> (h: u32)
        ensures
            h == self@.height,
    {
        self.height
    }

    pub fn layout(&self) -> (l: PixelLayout)
        ensures
            l == self@.layout,
    {
        self.layout
    }

    /// The samples, row by row; at least `width * height * channels` of them.
    pub fn samples(&self) -> (s: &Vec<u8>)
        ensures
            s@ == self@.samples,
            self@.covered(),
    {
        proof {
            use_type_invariant(self);
        }
        &self.data
    }
}

/// `width * height`, which always fits.
fn pixel_count(width: u32, height: u32) -> (n: u128)
    ensures
        n == (width as nat) * (height as nat),
        n <= 0x1_0000_0000_0000_0000,
{
    assert((width as nat) * (height as nat) <= 0x1_0000_0000 * 0x1_0000_0000) by (nonlinear_arith)
        requires
            width <= 0xFFFF_FFFF,
            height <= 0xFFFF_FFFF,
    ;
    (width as u128) * (height as u128)
}

/// `image::io::Reader::decode`, on a reader that `Reader::with_format` has
/// set to the format of the extension (`ImageFormat::from_extension`), or
/// that `Reader::new` has made without a format. The decoded image is taken
/// apart, the error rendered as text. An image in another layout than the
/// two 8-bit RGB ones comes without samples. The samples of one file can
/// differ from machine to machine: nothing is claimed of the result.
#[verifier::external_body]
fn decode_parts(bytes: &Vec<u8>, extension: &Option<String>) -> Result<
    (PixelLayout, u32, u32, Vec<u8>),
    String,
> {
    let cursor = Cursor::new(bytes.as_slice());
    let reader = match extension.as_deref().and_then(ImageFormat::from_extension) {
        Some(format) => Reader::with_format(cursor, format),
        None => Reader::new(cursor),
    };
    match reader.decode() {
        Ok(DynamicImage::ImageRgb8(b)) => Ok((PixelLayout::Rgb, b.width(), b.height(), b.into_raw())),
        Ok(DynamicImage::ImageRgba8(b)) => Ok((PixelLayout::Rgba, b.width(), b.height(), b.into_raw())),
        Ok(other) => Ok((PixelLayout::Other, other.width(), other.height(), Vec::new())),
        Err(error) => Err(error.to_string()),
    }
}

/// `Path::extension` of the path, as text. What counts as a separator is
/// the platform's: nothing is claimed of the result.
#[verifier::external_body]
pub(crate) fn path_extension(path: &str) -> Option<String> {
    match std::path::Path::new(path).extension() {
        Some(extension) => Some(extension.to_string_lossy().into_owned()),
        None => None,
    }
}

/// Calls `image::imageops::resize` with the Lanczos3 filter on an RGB
/// buffer. The result is an `ImageBuffer` made by `ImageBuffer::new` for the
/// new dimensions, so its buffer has exactly three samples per pixel. The
/// preconditions keep `ImageBuffer::from_raw` from refusing the buffer,
/// `ImageBuffer::new` from overflowing, and the resampler's floating-point
/// pixel positions exact.
#[verifier::external_body]
fn resample_rgb(data: &Vec<u8>, source_width: u32, source_height: u32, width: u32, height: u32) -> (out: Vec<u8>)
    requires
        data@.len() >= (source_width as nat) * (source_height as nat) * 3,
        resize_fits(source_width as nat, source_height as nat, width as nat, height as nat),
    ensures
        out@.len() == (width as nat) * (height as nat) * 3,
{
    let source: image::ImageBuffer<image::Rgb<u8>, &[u8]> =
        image::ImageBuffer::from_raw(source_width, source_height, data.as_slice()).unwrap();
    image::imageops::resize(&source, width, height, image::imageops::FilterType::Lanczos3).into_raw()
}

/// Calls `image::imageops::resize` with the Lanczos3 filter on an RGBA
/// buffer; as `resample_rgb`, with four samples per pixel.
#[verifier::external_body]
fn resample_rgba(data: &Vec<u8>, source_width: u32, source_height: u32, width: u32, height: u32) -> (out: Vec<u8>)
    requires
        data@.len() >= (source_width as nat) * (source_height as nat) * 4,
        resize_fits(source_width as nat, source_height as nat, width as nat, height as nat),
    ensures
        out@.len() == (width as nat) * (height as nat) * 4,
{
    let source: image::ImageBuffer<image::Rgba<u8>, &[u8]> =
        image::ImageBuffer::from_raw(source_width, source_height, data.as_slice()).unwrap();
    image::imageops::resize(&source, width, height, image::imageops::FilterType::Lanczos3).into_raw()
}

/// `webp::Encoder::encode_simple` on the encoder that
/// `webp::Encoder::from_rgb` makes of the buffer; an error comes back as its
/// `Debug` text. The encoder reads `width * height` pixels of three samples
/// from the buffer without checking its length, and computes the stride in
/// 32 bits: the preconditions cover both. What the encoder writes depends on
/// the machine; every output that it completes begins with the RIFF header
/// of a WebP file, which is all that is claimed.
#[verifier::external_body]
fn webp_encode_rgb(data: &Vec<u8>, width: u32, height: u32, lossless: bool, quality: u8) -> (r: Result<
    Vec<u8>,
    String,
>)
    requires
        data@.len() >= (width as nat) * (height as nat) * 3,
        encoder_accepts_dimensions(width as nat, height as nat),
    ensures
        r matches Ok(bytes) ==> is_webp_container(bytes@),
{
    match webp::Encoder::from_rgb(data.as_slice(), width, height).encode_simple(lossless, quality.into()) {
        Ok(memory) => Ok(memory.to_vec()),
        Err(error) => Err(format!("{:?}", error)),
    }
}

/// `webp::Encoder::encode_simple` on the encoder that
/// `webp::Encoder::from_rgba` makes of the buffer; as `webp_encode_rgb`,
/// with four samples per pixel.
#[verifier::external_body]
fn webp_encode_rgba(data: &Vec<u8>, width: u32, height: u32, lossless: bool, quality: u8) -> (r: Result<
    Vec<u8>,
    String,
>)
    requires
        data@.len() >= (width as nat) * (height as nat) * 4,
        encoder_accepts_dimensions(width as nat, height as nat),
    ensures
        r matches Ok(bytes) ==> is_webp_container(bytes@),
{
    match webp::Encoder::from_rgba(data.as_slice(), width, height).encode_simple(lossless, quality.into()) {
        Ok(memory) => Ok(memory.to_vec()),
        Err(error) => Err(format!("{:?}", error)),
    }
}

/// Decodes the bytes of an image file whose name has the given extension.
/// The format is taken from the extension, never guessed from the content.
/// Whether the bytes decode, and to which samples, is the decoder's; what is
/// made of its outcome is `raster_from_decoding`'s.
pub fn load_image_as(bytes: &Vec<u8>, extension: &Option<String>) -> (r: Result<
    Raster,
    ConversionError,
>)
    ensures
        r matches Err(e) ==> e.kind == ErrorKind::Decode,
        r matches Ok(raster) ==> raster@.covered(),
        exists|outcome: Result<(PixelLayout, u32, u32, Seq<u8>), Seq<char>>|
            decoding_view(r) == #[trigger] decoding_result(outcome),
{
    let outcome = decode_parts(bytes, extension);
    let ghost seen = outcome_view(outcome);
    let r = raster_from_decoding(outcome);
    assert(decoding_view(r) == decoding_result(seen));
    r
}

/// Decodes the bytes of the image file at `path`. The format is taken from
/// the extension that the platform's path rules find in `path`.
pub fn load_image(bytes: &Vec<u8>, path: &str) -> (r: Result<Raster, ConversionError>)
    ensures
        r matches Err(e) ==> e.kind == ErrorKind::Decode,
        r matches Ok(raster) ==> raster@.covered(),
        exists|outcome: Result<(PixelLayout, u32, u32, Seq<u8>), Seq<char>>|
            decoding_view(r) == #[trigger] decoding_result(outcome),
{
    let extension = path_extension(path);
    load_image_as(bytes, &extension)
}

/// The message of an image whose decoded buffer does not cover its pixels.
pub open spec fn short_buffer_text() -> Seq<char> {
    "decoded image is shorter than its dimensions"@
}

/// What the decoder handed back, as mathematical content: the parts of an
/// image, or the text of an error.
pub open spec fn outcome_view(outcome: Result<(PixelLayout, u32, u32, Vec<u8>), String>) -> Result<
    (PixelLayout, u32, u32, Seq<u8>),
    Seq<char>,
> {
    match outcome {
        Ok((layout, width, height, data)) => Ok((layout, width, height, data@)),
        Err(text) => Err(text@),
    }
}

/// The mathematical content of what `load_image` returns.
pub open spec fn decoding_view(r: Result<Raster, ConversionError>) -> Result<RasterView, ErrorView> {
    match r {
        Ok(raster) => Ok(raster@),
        Err(error) => Err(error@),
    }
}

/// What becomes of the decoder's outcome: parts whose buffer covers the
/// pixels are the raster, parts whose buffer falls short are a decode error,
/// and the decoder's own error is a decode error with the decoder's text.
pub open spec fn decoding_result(
    outcome: Result<(PixelLayout, u32, u32, Seq<u8>), Seq<char>>,
) -> Result<RasterView, ErrorView> {
    match outcome {
        Ok((layout, width, height, samples)) => {
            let view = RasterView { width: width as nat, height: height as nat, layout, samples };
            if view.covered() {
                Ok(view)
            } else {
                Err(ErrorView { kind: ErrorKind::Decode, message: short_buffer_text() })
            }
        },
        Err(text) => Err(ErrorView { kind: ErrorKind::Decode, message: text }),
    }
}

/// Makes the raster, or the failure, of what the decoder handed back.
pub fn raster_from_decoding(outcome: Result<(PixelLayout, u32, u32, Vec<u8>), String>) -> (r: Result<
    Raster,
    ConversionError,
>)
    ensures
        decoding_view(r) == decoding_result(outcome_view(outcome)),
{
    match outcome {
        Ok((layout, width, height, data)) => match Raster::new(width, height, layout, data) {
            Some(raster) => Ok(raster),
            None => Err(
                ConversionError {
                    kind: ErrorKind::Decode,
                    message: String::from_str("decoded image is shorter than its dimensions"),
                },
            ),
        },
        Err(message) => Err(ConversionError { kind: ErrorKind::Decode, message }),
    }
}

/// Whether `resize_image` can be asked for these dimensions.
pub fn can_resize(raster: &Raster, width: u32, height: u32) -> (ok: bool)
    ensures
        ok == resize_fits(raster@.width, raster@.height, width as nat, height as nat),
{
    if raster.width >= RESAMPLE_LIMIT || raster.height >= RESAMPLE_LIMIT || width >= RESAMPLE_LIMIT
        || height >= RESAMPLE_LIMIT {
        return false;
    }
    let tall: u128 = pixel_count(raster.width, height);
    let area: u128 = pixel_count(width, height);
    16 * tall <= isize::MAX as u128 && 4 * area <= isize::MAX as u128
}

/// Resamples the raster to exactly `width` by `height` pixels, whatever its
/// aspect ratio was.
pub fn resize_image(raster: Raster, width: u32, height: u32) -> (r: Raster)
    requires
        resize_fits(raster@.width, raster@.height, width as nat, height as nat),
    ensures
        r@.width == width,
        r@.height == height,
        r@.layout == raster@.layout,
        r@.samples.len() == r@.required_len(),
{
    proof {
        use_type_invariant(&raster);
    }
    match raster.layout {
        PixelLayout::Rgb => {
            let data = resample_rgb(&raster.data, raster.width, raster.height, width, height);
            Raster { width, height, layout: PixelLayout::Rgb, data }
        },
        PixelLayout::Rgba => {
            let data = resample_rgba(&raster.data, raster.width, raster.height, width, height);
            Raster { width, height, layout: PixelLayout::Rgba, data }
        },
        PixelLayout::Other => {
            assert((width as nat) * (height as nat) * 0 == 0) by (nonlinear_arith);
            Raster { width, height, layout: PixelLayout::Other, data: Vec::new() }
        },
    }
}

/// The message of a raster in a layout that the encoder does not take.
pub open spec fn unsupported_layout_text() -> Seq<char> {
    "pixel layout is not supported by the encoder"@
}

/// The message of a raster without pixels.
pub open spec fn empty_raster_text() -> Seq<char> {
    "image has no pixels"@
}

/// The message of a raster whose dimensions the encoder cannot take.
pub open spec fn oversized_raster_text() -> Seq<char> {
    "image dimensions are too large for the encoder"@
}

/// Why a raster is refused before the encoder is asked, if it is: for its
/// layout, for a zero width or height, or for dimensions beyond the encoder.
pub open spec fn encoder_refusal(raster: RasterView) -> Option<Seq<char>> {
    if raster.layout == PixelLayout::Other {
        Some(unsupported_layout_text())
    } else if raster.width == 0 || raster.height == 0 {
        Some(empty_raster_text())
    } else if !encoder_accepts_dimensions(raster.width, raster.height) {
        Some(oversized_raster_text())
    } else {
        None
    }
}

/// Encodes the raster as lossy WebP at the given quality. Only the two
/// 8-bit RGB layouts can be encoded, and only a raster that has pixels.
/// Whether the encoder takes a raster that is not refused beforehand, and
/// which bytes it writes, is the encoder's; whatever it completes is a WebP
/// container.
pub fn encode_to_webp(raster: &Raster, quality: u8) -> (r: Result<Vec<u8>, ConversionError>)
    ensures
        r matches Err(e) ==> e.kind == ErrorKind::Encode,
        r matches Ok(bytes) ==> is_webp_container(bytes@),
        encoder_refusal(raster@) matches Some(text) ==> (r matches Err(e) && e.message@ == text),
        raster@.layout == PixelLayout::Other ==> r is Err,
        raster@.width == 0 || raster@.height == 0 ==> r is Err,
        !encoder_accepts_dimensions(raster@.width, raster@.height) ==> r is Err,
{
    proof {
        use_type_invariant(raster);
    }
    let refusal = match raster.layout {
        PixelLayout::Other => Some("pixel layout is not supported by the encoder"),
        _ => if raster.width == 0 || raster.height == 0 {
            Some("image has no pixels")
        } else if raster.width > 0x1FFF_FFFF || raster.height > 0x7FFF_FFFF {
            Some("image dimensions are too large for the encoder")
        } else {
            None
        },
    };
    match refusal {
        Some(text) => {
            return Err(ConversionError { kind: ErrorKind::Encode, message: String::from_str(text) });
        },
        None => {},
    }
    let encoded = match raster.layout {
        PixelLayout::Rgb => webp_encode_rgb(
            &raster.data,
            raster.width,
            raster.height,
            false,
            quality,
        ),
        PixelLayout::Rgba => webp_encode_rgba(
            &raster.data,
            raster.width,
            raster.height,
            false,
            quality,
        ),
        PixelLayout::Other => Err(String::from_str("pixel layout is not supported by the encoder")),
    };
    match encoded {
        Ok(bytes) => Ok(bytes),
        Err(message) => Err(ConversionError { kind: ErrorKind::Encode, message }),
    }
}

} // verus!
