//! From a rendered surface to the bytes that are stored and posted.
//!
//! The renderer hands over its surface as a bitmap dumped into a buffer.
//! The buffer is sized here, the bitmap is decoded to a picture, the picture
//! is encoded as PNG, and the PNG is run through an optimiser whose failure
//! is no failure of the bot: the image then goes out as it was.
//!
//! Decoding and encoding are the image library's work. What they give for
//! given bytes is always the same, so each result has a name, and the
//! contracts say over those names when a dump becomes an image and which.

use image::{DynamicImage, GenericImageView, ImageBuffer};
use vstd::prelude::*;
use vstd::string::StringExecFns;

verus! {

/// The bytes of a bitmap header.
pub const BMP_HEADER_SIZE: u32 = 54;

/// The preset at which the optimiser is run.
pub const OPTIMIZER_PRESET: u8 = 4;

/// What precedes the detail in the text of an `SdlError`.
pub const SDL_FAILED: &'static str = "SDL error: ";

/// What precedes the detail in the text of an `ImageError`.
pub const LOADING_FAILED: &'static str = "Error loading image: ";

#[verifier::external_type_specification]
#[verifier::external_body]
pub struct ExImageError(image::ImageError);

#[verifier::external_type_specification]
#[verifier::external_body]
pub struct ExPngError(oxipng::PngError);

/// Why a surface could not be turned into a PNG.
#[derive(Debug)]
pub enum ImageConvertError {
    /// The renderer could not dump the surface; the field is its message.
    SdlError(String),
    /// The dump could not be read as a bitmap or written as a PNG.
    ImageError(image::ImageError),
}

/// How the bytes of a picture make up its pixels. Every channel takes one
/// byte.
#[derive(Clone, Copy, Debug, PartialEq, Eq)]
pub enum PictureKind {
    /// Grey.
    Luma,
    /// Grey, then opacity.
    LumaA,
    /// Red, green, blue.
    Rgb,
    /// Red, green, blue, then opacity.
    Rgba,
    /// Blue, green, red.
    Bgr,
    /// Blue, green, red, then opacity.
    Bgra,
}

impl PictureKind {
    /// The bytes of one pixel.
    pub open spec fn channels(self) -> int {
        match self {
            PictureKind::Luma => 1,
            PictureKind::LumaA => 2,
            PictureKind::Rgb => 3,
            PictureKind::Rgba => 4,
            PictureKind::Bgr => 3,
            PictureKind::Bgra => 4,
        }
    }
}

/// A decoded picture: its size in pixels, the make-up of a pixel, and the
/// bytes of its pixels, line by line from the top.
#[derive(Debug, PartialEq, Eq)]
pub struct Picture {
    pub width: u32,
    pub height: u32,
    pub kind: PictureKind,
    pub pixels: Vec<u8>,
}

/// A picture as plain data.
pub ghost struct PictureView {
    pub width: u32,
    pub height: u32,
    pub kind: PictureKind,
    pub pixels: Seq<u8>,
}

impl View for Picture {
    type V = PictureView;

    open spec fn view(&self) -> PictureView {
        PictureView {
            width: self.width,
            height: self.height,
            kind: self.kind,
            pixels: self.pixels@,
        }
    }
}

impl PictureView {
    /// The picture has bytes for every pixel of its size.
    pub open spec fn fits(self) -> bool {
        self.kind.channels() * self.width * self.height <= self.pixels.len()
    }
}

/// The picture that the image library decodes from `bitmap`, read as BMP,
/// or `None` where it refuses the bytes.
pub uninterp spec fn bmp_picture(bitmap: Seq<u8>) -> Option<PictureView>;

/// The bytes that the image library writes for `picture`, encoded as PNG,
/// or `None` where it refuses the picture.
pub uninterp spec fn picture_png(picture: PictureView) -> Option<Seq<u8>>;

/// The PNG that a bitmap becomes: decoded, then encoded. `None` where
/// either step is refused.
pub open spec fn bmp_png(bitmap: Seq<u8>) -> Option<Seq<u8>> {
    match bmp_picture(bitmap) {
        Some(picture) => picture_png(picture),
        None => None,
    }
}

/// `bytes` are what the encoder wrote for some picture.
pub open spec fn encoder_wrote(bytes: Seq<u8>) -> bool {
    exists|picture: PictureView| #[trigger] picture_png(picture) == Some(bytes)
}

/// The bytes set aside for one line of a bitmap `width` pixels wide: three
/// per pixel, and as many more as the line's length leaves over when
/// divided by four.
pub open spec fn bmp_line_size(width: u32) -> int {
    width * 3 + (width * 3) % 4
}

/// The bytes set aside for the dump of a surface: its lines and a header.
pub open spec fn bmp_size(width: u32, height: u32) -> int {
    bmp_line_size(width) * height + BMP_HEADER_SIZE
}

/// The size of the buffer into which a surface of `width` by `height`
/// pixels is dumped, or `None` where that size is beyond 32 bits.
pub fn bmp_buffer_size(width: u32, height: u32) -> (size: Option<u32>)
    ensures
        match size {
            Some(bytes) => bytes == bmp_size(width, height),
            None => bmp_size(width, height) > u32::MAX,
        },
{
    let row: u64 = (width as u64) * 3;
    let line: u64 = row + row % 4;
    assert(line * height <= 0xffff_ffff_ffff_ffff_ffff) by (nonlinear_arith)
        requires
            0 <= line <= 0xf_ffff_ffff,
            0 <= height <= 0xffff_ffff,
    ;
    let lines: u128 = (line as u128) * (height as u128);
    let total: u128 = lines + (BMP_HEADER_SIZE as u128);
    if total > (u32::MAX as u128) {
        None
    } else {
        Some(total as u32)
    }
}

/// Turns the dump of a surface into a PNG. `dump` is what the renderer
/// gave: the bitmap, or its message where it could not write one. A failed
/// dump comes back as an `SdlError` with that message. A bitmap that cannot
/// be decoded, or whose picture cannot be encoded, comes back as an
/// `ImageError`. Every other bitmap comes back as the PNG of its picture.
pub fn write_surface_as_png(
    dump: Result<Vec<u8>, String>,
) -> (out: Result<Vec<u8>, ImageConvertError>)
    ensures
        match dump {
            Err(message) => {
                &&& out matches Err(ImageConvertError::SdlError(text))
                &&& text@ == message@
            },
            Ok(bitmap) => match bmp_png(bitmap@) {
                None => out matches Err(ImageConvertError::ImageError(_)),
                Some(png) => out matches Ok(bytes) && bytes@ == png,
            },
        },
        out matches Ok(bytes) ==> encoder_wrote(bytes@) && opens_as_png(bytes@),
{
    match dump {
        Err(message) => Err(ImageConvertError::SdlError(message)),
        Ok(bitmap) => match load_bmp(&bitmap) {
            Err(cause) => Err(ImageConvertError::ImageError(cause)),
            Ok(picture) => {
                let ghost decoded = picture@;
                match write_png(picture) {
                    Err(cause) => Err(ImageConvertError::ImageError(cause)),
                    Ok(png) => {
                        assert(picture_png(decoded) == Some(png@));
                        Ok(png)
                    },
                }
            },
        },
    }
}

/// Turns the dump of a surface into the image to store and post: the PNG
/// that `write_surface_as_png` makes of it, run through the optimiser. A
/// dump fails here exactly where it fails there, and in the same way; the
/// image is the PNG as it was made, or a shorter PNG in its place.
pub fn write_surface_as_optimized_png(
    dump: Result<Vec<u8>, String>,
) -> (out: Result<Vec<u8>, ImageConvertError>)
    ensures
        match dump {
            Err(message) => {
                &&& out matches Err(ImageConvertError::SdlError(text))
                &&& text@ == message@
            },
            Ok(bitmap) => match bmp_png(bitmap@) {
                None => out matches Err(ImageConvertError::ImageError(_)),
                Some(png) => out matches Ok(bytes) && (bytes@ == png || shrinks(png, bytes@)),
            },
        },
        out matches Ok(bytes) ==> opens_as_png(bytes@),
{
    match write_surface_as_png(dump) {
        Err(cause) => Err(cause),
        Ok(png) => Ok(optimize_image(png)),
    }
}

/// The image to keep after an optimiser run: what the optimiser made, or
/// the image as it was where the optimiser failed.
pub open spec fn kept_image(
    image: Seq<u8>,
    optimized: Result<Vec<u8>, oxipng::PngError>,
) -> Seq<u8> {
    match optimized {
        Ok(smaller) => smaller@,
        Err(_) => image,
    }
}

/// Picks the image to keep after an optimiser run.
pub fn keep_optimized(
    image: Vec<u8>,
    optimized: Result<Vec<u8>, oxipng::PngError>,
) -> (kept: Vec<u8>)
    ensures
        kept@ == kept_image(image@, optimized),
{
    match optimized {
        Ok(smaller) => smaller,
        Err(_) => image,
    }
}

/// Runs `image`, a PNG that the encoder wrote, through the optimiser and
/// keeps what `keep_optimized` picks: the image as it was, or a shorter PNG
/// in its place. Which of the two, and which bytes, the optimiser may
/// settle anew at every run.
pub fn optimize_image(image: Vec<u8>) -> (kept: Vec<u8>)
    requires
        encoder_wrote(image@),
    ensures
        kept@ == image@ || shrinks(image@, kept@),
{
    let optimized = optimize_png(&image, OPTIMIZER_PRESET);
    keep_optimized(image, optimized)
}

/// The eight bytes with which every PNG opens.
pub open spec fn png_signature() -> Seq<u8> {
    seq![137u8, 80u8, 78u8, 71u8, 13u8, 10u8, 26u8, 10u8]
}

/// `bytes` opens as a PNG does.
pub open spec fn opens_as_png(bytes: Seq<u8>) -> bool {
    bytes.len() >= 8 && bytes.subrange(0, 8) == png_signature()
}

/// `made` is a shorter PNG in place of the PNG `image`: both open as a PNG
/// does, and `made` has fewer bytes.
pub open spec fn shrinks(image: Seq<u8>, made: Seq<u8>) -> bool {
    opens_as_png(image) && opens_as_png(made) && made.len() < image.len()
}

impl ImageConvertError {
    /// The error as one line of text: a fixed opening that tells the two
    /// kinds apart, then the renderer's message or what the image library
    /// says of its error.
    pub fn message(&self) -> (text: String)
        ensures
            match self {
                ImageConvertError::SdlError(detail) => text@ == SDL_FAILED@ + detail@,
                ImageConvertError::ImageError(_) => {
                    &&& text@.len() >= LOADING_FAILED@.len()
                    &&& text@.subrange(0, LOADING_FAILED@.len() as int) == LOADING_FAILED@
                },
            },
    {
        match self {
            ImageConvertError::SdlError(detail) => {
                String::from_str(SDL_FAILED).concat(detail.as_str())
            },
            ImageConvertError::ImageError(cause) => {
                let detail = image_error_text(cause);
                let text = String::from_str(LOADING_FAILED).concat(detail.as_str());
                assert(text@.subrange(0, LOADING_FAILED@.len() as int) =~= LOADING_FAILED@);
                text
            },
        }
    }
}

/// Decodes `bitmap` with `image::load`, read as BMP, and hands the
/// picture over as plain values: its variant, what
/// `GenericImageView::dimensions` gives, and what
/// `DynamicImage::raw_pixels` gives. The contract claims that the call
/// gives the same for the same bytes, which is what the name stands for,
/// and that a picture that comes back has bytes for every pixel of its
/// size: the library builds no picture otherwise.
#[verifier::external_body]
fn load_bmp(bitmap: &Vec<u8>) -> (picture: Result<Picture, image::ImageError>)
    ensures
        match picture {
            Ok(decoded) => bmp_picture(bitmap@) == Some(decoded@) && decoded@.fits(),
            Err(_) => bmp_picture(bitmap@) is None,
        },
{
    let whole = image::load(std::io::Cursor::new(bitmap.as_slice()), image::ImageFormat::BMP)?;
    let kind = match whole {
        DynamicImage::ImageLuma8(_) => PictureKind::Luma,
        DynamicImage::ImageLumaA8(_) => PictureKind::LumaA,
        DynamicImage::ImageRgb8(_) => PictureKind::Rgb,
        DynamicImage::ImageRgba8(_) => PictureKind::Rgba,
        DynamicImage::ImageBgr8(_) => PictureKind::Bgr,
        DynamicImage::ImageBgra8(_) => PictureKind::Bgra,
    };
    let (width, height) = whole.dimensions();
    Ok(Picture { width, height, kind, pixels: whole.raw_pixels() })
}

/// Encodes `picture` with `image::DynamicImage::write_to`, written as PNG
/// into a fresh vector. The picture is put together with
/// `ImageBuffer::from_raw`, which refuses bytes that are too few for the
/// size: the precondition leaves those out. The contract claims that the
/// call gives the same for the same picture, which is what the name stands
/// for, and that what it writes opens with the eight bytes of a PNG, which
/// the encoder writes before anything else.
#[verifier::external_body]
fn write_png(picture: Picture) -> (png: Result<Vec<u8>, image::ImageError>)
    requires
        picture@.fits(),
    ensures
        match png {
            Ok(bytes) => picture_png(picture@) == Some(bytes@) && opens_as_png(bytes@),
            Err(_) => picture_png(picture@) is None,
        },
{
    let (w, h, raw) = (picture.width, picture.height, picture.pixels);
    let whole = match picture.kind {
        PictureKind::Luma => ImageBuffer::from_raw(w, h, raw).map(DynamicImage::ImageLuma8),
        PictureKind::LumaA => ImageBuffer::from_raw(w, h, raw).map(DynamicImage::ImageLumaA8),
        PictureKind::Rgb => ImageBuffer::from_raw(w, h, raw).map(DynamicImage::ImageRgb8),
        PictureKind::Rgba => ImageBuffer::from_raw(w, h, raw).map(DynamicImage::ImageRgba8),
        PictureKind::Bgr => ImageBuffer::from_raw(w, h, raw).map(DynamicImage::ImageBgr8),
        PictureKind::Bgra => ImageBuffer::from_raw(w, h, raw).map(DynamicImage::ImageBgra8),
    };
    let mut out = Vec::new();
    whole.unwrap().write_to(&mut out, image::ImageOutputFormat::PNG)?;
    Ok(out)
}

/// Optimises `image` with `oxipng::optimize_from_memory`, at the options
/// that `oxipng::Options::from_preset` gives for `preset`. The optimiser
/// reads its data as a PNG and may panic on chunks that no encoder writes,
/// so the precondition admits only what the encoder wrote. The contract
/// claims three things that the source of that function shows. It fails
/// on data that does not open with the eight bytes of a PNG. What it
/// writes itself opens with those bytes. And with options that neither
/// force a rewrite nor interlace, which is so at every preset, it hands
/// the data back as they were unless what it wrote is shorter. Nothing
/// else is claimed: not which bytes are written, which may depend on the
/// machine, and nothing of the error.
#[verifier::external_body]
fn optimize_png(image: &Vec<u8>, preset: u8) -> (optimized: Result<Vec<u8>, oxipng::PngError>)
    requires
        encoder_wrote(image@),
    ensures
        optimized matches Ok(made) ==> {
            &&& opens_as_png(image@)
            &&& made@ == image@ || shrinks(image@, made@)
        },
{
    oxipng::optimize_from_memory(image.as_slice(), &oxipng::Options::from_preset(preset))
}

/// Formats an `image::ImageError` with its own `Display`. Nothing is
/// claimed of the text.
#[verifier::external_body]
fn image_error_text(cause: &image::ImageError) -> (text: String) {
    format!("{}", cause)
}

} // verus!
