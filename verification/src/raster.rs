//! Raster images as plain values, and the image operations of the `image`
//! crate on them: decoding, grayscale, colour inversion, overlaying an RGBA
//! watermark and JPEG encoding.
//!
//! What each operation computes is the `image` crate's own algorithm; it is
//! named here by a spec function of its arguments, and the wrappers state the
//! short facts that the crate's source shows (sizes and colour kinds).

use std::io::Cursor;
use ::image::{imageops, ColorType, ImageBuffer, ImageFormat, RgbaImage};
use vstd::prelude::*;

verus! {

/// How the samples of a raster are laid out: the channels of each pixel, and
/// whether a sample is 8 or 16 bits wide.
#[derive(Clone, Copy, PartialEq, Eq, Structural, Debug)]
pub enum ColorKind {
    L8,
    La8,
    Rgb8,
    Rgba8,
    L16,
    La16,
    Rgb16,
    Rgba16,
}

/// The number of samples of one pixel.
pub open spec fn channels(k: ColorKind) -> nat {
    match k {
        ColorKind::L8 | ColorKind::L16 => 1,
        ColorKind::La8 | ColorKind::La16 => 2,
        ColorKind::Rgb8 | ColorKind::Rgb16 => 3,
        ColorKind::Rgba8 | ColorKind::Rgba16 => 4,
    }
}

/// Whether a sample is 16 bits wide.
pub open spec fn wide(k: ColorKind) -> bool {
    match k {
        ColorKind::L16 | ColorKind::La16 | ColorKind::Rgb16 | ColorKind::Rgba16 => true,
        _ => false,
    }
}

/// The grey kind of the same width that keeps the alpha channel, if any.
pub open spec fn gray_kind(k: ColorKind) -> ColorKind {
    match k {
        ColorKind::L8 | ColorKind::Rgb8 => ColorKind::L8,
        ColorKind::La8 | ColorKind::Rgba8 => ColorKind::La8,
        ColorKind::L16 | ColorKind::Rgb16 => ColorKind::L16,
        ColorKind::La16 | ColorKind::Rgba16 => ColorKind::La16,
    }
}

/// A raster image: its size, its colour kind and its samples, row by row,
/// the channels of each pixel together. Samples of 8-bit kinds are in
/// `bytes`, those of 16-bit kinds in `words`.
#[derive(Clone, Debug)]
pub struct Raster {
    pub width: u32,
    pub height: u32,
    pub kind: ColorKind,
    pub bytes: Vec<u8>,
    pub words: Vec<u16>,
}

/// The meaning of a `Raster`.
pub struct RasterView {
    pub width: u32,
    pub height: u32,
    pub kind: ColorKind,
    pub bytes: Seq<u8>,
    pub words: Seq<u16>,
}

impl RasterView {
    /// The number of samples that the pixels take.
    pub open spec fn sample_count(self) -> nat {
        (self.width * self.height * channels(self.kind)) as nat
    }

    /// The buffer of the kind's width holds exactly the samples of the
    /// pixels, and the other buffer is empty.
    pub open spec fn wf(self) -> bool {
        if wide(self.kind) {
            self.words.len() == self.sample_count() && self.bytes.len() == 0
        } else {
            self.bytes.len() == self.sample_count() && self.words.len() == 0
        }
    }
}

impl View for Raster {
    type V = RasterView;

    open spec fn view(&self) -> RasterView {
        RasterView {
            width: self.width,
            height: self.height,
            kind: self.kind,
            bytes: self.bytes@,
            words: self.words@,
        }
    }
}

impl Raster {
    /// The raster's invariant: that of its view.
    pub open spec fn wf(&self) -> bool {
        self@.wf()
    }

    /// Whether the raster is well formed: the buffer of its kind's width
    /// holds exactly the samples of its pixels, and the other buffer is empty.
    pub fn is_well_formed(&self) -> (r: bool)
        ensures
            r == self.wf(),
    {
        let ch: u128 = match self.kind {
            ColorKind::L8 | ColorKind::L16 => 1,
            ColorKind::La8 | ColorKind::La16 => 2,
            ColorKind::Rgb8 | ColorKind::Rgb16 => 3,
            ColorKind::Rgba8 | ColorKind::Rgba16 => 4,
        };
        let w = self.width as u128;
        let h = self.height as u128;
        assert(w * h <= 0xffff_ffff * 0xffff_ffffu128) by (nonlinear_arith)
            requires
                w <= 0xffff_ffff,
                h <= 0xffff_ffff,
        ;
        assert(w * h * ch <= 4 * (0xffff_ffff * 0xffff_ffffu128)) by (nonlinear_arith)
            requires
                w * h <= 0xffff_ffff * 0xffff_ffffu128,
                ch <= 4,
        ;
        let n: u128 = w * h * ch;
        assert(n == self@.sample_count());
        match self.kind {
            ColorKind::L16 | ColorKind::La16 | ColorKind::Rgb16 | ColorKind::Rgba16 => {
                self.words.len() as u128 == n && self.bytes.len() == 0
            },
            _ => self.bytes.len() as u128 == n && self.words.len() == 0,
        }
    }
}

/// The image that `image::load_from_memory_with_format` decodes from `bytes`
/// in the format that the extension of `path` names, as a raster; or the text
/// (`Display`) of the error when the extension names no format or the bytes do
/// not decode, or the name of the colour type of an image with floating-point
/// samples, which a raster does not hold.
pub uninterp spec fn decoded_image(bytes: Seq<u8>, path: Seq<char>) -> Result<RasterView, Seq<char>>;

/// The grey version of an image (`DynamicImage::grayscale`).
pub uninterp spec fn grayscaled(img: RasterView) -> RasterView;

/// An image with each colour sample inverted (`DynamicImage::invert`).
pub uninterp spec fn inverted(img: RasterView) -> RasterView;

/// The image `base` with the `w` x `h` RGBA image `rgba` blended over it,
/// its top left corner at (`x`, `y`) (`imageops::overlay`).
pub uninterp spec fn overlaid(base: RasterView, w: u32, h: u32, rgba: Seq<u8>, x: i64, y: i64) -> RasterView;

/// The JPEG file that `DynamicImage::write_to` writes of an image, or nothing
/// when the encoder refuses it.
pub uninterp spec fn jpeg_encoded(img: RasterView) -> Option<Seq<u8>>;

#[verifier::external_type_specification]
#[verifier::external_body]
pub struct ExDynamicImage(::image::DynamicImage);

/// The colour kind of an image (`DynamicImage::color`); nothing for
/// floating-point samples.
#[verifier::external_body]
fn kind_of(img: &::image::DynamicImage) -> Option<ColorKind> {
    match img.color() {
        ColorType::L8 => Some(ColorKind::L8),
        ColorType::La8 => Some(ColorKind::La8),
        ColorType::Rgb8 => Some(ColorKind::Rgb8),
        ColorType::Rgba8 => Some(ColorKind::Rgba8),
        ColorType::L16 => Some(ColorKind::L16),
        ColorType::La16 => Some(ColorKind::La16),
        ColorType::Rgb16 => Some(ColorKind::Rgb16),
        ColorType::Rgba16 => Some(ColorKind::Rgba16),
        _ => None,
    }
}

/// Copies an image into a raster: its size, its colour kind and the samples
/// of its pixels (`FlatSamples::image_slice`: exactly width × height ×
/// channels of them, though the image's buffer may hold more); nothing for an
/// image with floating-point samples.
#[verifier::external_body]
fn raster_of(img: ::image::DynamicImage) -> (r: Option<Raster>)
    ensures
        r matches Some(x) ==> x.wf(),
{
    let kind = kind_of(&img)?;
    let bytes = img.as_flat_samples_u8().and_then(|f| f.image_slice().map(|s| s.to_vec()));
    let words = img.as_flat_samples_u16().and_then(|f| f.image_slice().map(|s| s.to_vec()));
    let (bytes, words) = (bytes.unwrap_or_default(), words.unwrap_or_default());
    Some(Raster { width: img.width(), height: img.height(), kind, bytes, words })
}

/// The image of an 8-bit kind of this size on these samples
/// (`ImageBuffer::from_raw`); nothing for a 16-bit kind or too few samples.
#[verifier::external_body]
fn narrow_image(w: u32, h: u32, kind: ColorKind, b: Vec<u8>) -> Option<::image::DynamicImage> {
    match kind {
        ColorKind::L8 => Some(::image::DynamicImage::ImageLuma8(ImageBuffer::from_raw(w, h, b)?)),
        ColorKind::La8 => Some(::image::DynamicImage::ImageLumaA8(ImageBuffer::from_raw(w, h, b)?)),
        ColorKind::Rgb8 => Some(::image::DynamicImage::ImageRgb8(ImageBuffer::from_raw(w, h, b)?)),
        ColorKind::Rgba8 => Some(::image::DynamicImage::ImageRgba8(ImageBuffer::from_raw(w, h, b)?)),
        _ => None,
    }
}

/// The image of a 16-bit kind of this size on these samples
/// (`ImageBuffer::from_raw`); nothing for an 8-bit kind or too few samples.
#[verifier::external_body]
fn wide_image(w: u32, h: u32, kind: ColorKind, s: Vec<u16>) -> Option<::image::DynamicImage> {
    match kind {
        ColorKind::L16 => Some(::image::DynamicImage::ImageLuma16(ImageBuffer::from_raw(w, h, s)?)),
        ColorKind::La16 => Some(::image::DynamicImage::ImageLumaA16(ImageBuffer::from_raw(w, h, s)?)),
        ColorKind::Rgb16 => Some(::image::DynamicImage::ImageRgb16(ImageBuffer::from_raw(w, h, s)?)),
        ColorKind::Rgba16 => Some(::image::DynamicImage::ImageRgba16(ImageBuffer::from_raw(w, h, s)?)),
        _ => None,
    }
}

/// The image of a raster: its size, its colour kind, a copy of its samples.
/// A well-formed raster holds the samples that its size and kind take, so one
/// of the two builders gives the image.
#[verifier::external_body]
fn image_of(r: &Raster) -> ::image::DynamicImage
    requires
        r.wf(),
{
    let narrow = narrow_image(r.width, r.height, r.kind, r.bytes.clone());
    narrow.or_else(|| wide_image(r.width, r.height, r.kind, r.words.clone())).unwrap()
}

/// Decodes an image file's bytes in the format that the extension of `path`
/// names (`ImageFormat::from_path`, then `image::load_from_memory_with_format`).
/// Claims that the result is the named decoding.
#[verifier::external_body]
pub fn decode_image(bytes: &[u8], path: &str) -> (r: Result<Raster, String>)
    ensures
        match r {
            Ok(x) => x.wf() && decoded_image(bytes@, path@) == Ok::<RasterView, Seq<char>>(x@),
            Err(e) => decoded_image(bytes@, path@) == Err::<RasterView, Seq<char>>(e@),
        },
{
    let format = ImageFormat::from_path(path).map_err(|e| e.to_string())?;
    let img = ::image::load_from_memory_with_format(bytes, format).map_err(|e| e.to_string())?;
    let color = img.color();
    raster_of(img).ok_or_else(|| format!("{:?}", color))
}

/// The grey version of an image (`DynamicImage::grayscale`). Claims, as the
/// crate's source shows, that it keeps the size and turns the kind into the
/// grey kind of the same sample width.
#[verifier::external_body]
pub fn grayscale(img: &Raster) -> (r: Raster)
    requires
        img.wf(),
    ensures
        r.wf(),
        r@ == grayscaled(img@),
        r.width == img.width && r.height == img.height,
        r.kind == gray_kind(img.kind),
{
    raster_of(image_of(img).grayscale()).unwrap()
}

/// Inverts the colour samples of an image (`DynamicImage::invert`). Claims,
/// as the crate's source shows, that it keeps the size and the kind, and that
/// inverting the result gives the image back: each colour sample `c` becomes
/// `max - c` (alpha is kept), and `max - (max - c) == c`.
#[verifier::external_body]
pub fn invert(img: &Raster) -> (r: Raster)
    requires
        img.wf(),
    ensures
        r.wf(),
        r@ == inverted(img@),
        inverted(r@) == img@,
        r.width == img.width && r.height == img.height && r.kind == img.kind,
{
    let mut out = image_of(img);
    out.invert();
    raster_of(out).unwrap()
}

/// Blends the `w` x `h` RGBA image held by the first `4 * w * h` bytes of
/// `rgba` over `base` at (`x`, `y`) (`RgbaImage::from_raw`, then
/// `imageops::overlay`). Claims that it fails exactly when `rgba` is too short
/// for the watermark, and, as the crate's source shows, that the result keeps
/// the size and kind of `base`.
#[verifier::external_body]
pub fn overlay_rgba(base: &Raster, w: u32, h: u32, rgba: &[u8], x: i64, y: i64) -> (r: Option<Raster>)
    requires
        base.wf(),
    ensures
        r is Some <==> rgba@.len() >= 4 * w * h,
        r matches Some(o) ==> o.wf() && o@ == overlaid(base@, w, h, rgba@, x, y) && o.width
            == base.width && o.height == base.height && o.kind == base.kind,
{
    let top = ::image::DynamicImage::ImageRgba8(RgbaImage::from_raw(w, h, rgba.to_vec())?);
    let mut out = image_of(base);
    imageops::overlay(&mut out, &top, x, y);
    raster_of(out)
}

/// Encodes an image as JPEG (`DynamicImage::write_to` with
/// `ImageFormat::Jpeg`). Claims that the result is the named encoding, and
/// that it is no longer than a `Vec` can be (`isize::MAX` bytes).
#[verifier::external_body]
pub fn encode_jpeg(img: &Raster) -> (r: Option<Vec<u8>>)
    requires
        img.wf(),
    ensures
        match r {
            Some(b) => jpeg_encoded(img@) == Some(b@) && b@.len() <= usize::MAX / 2,
            None => jpeg_encoded(img@) is None,
        },
{
    let mut out: Vec<u8> = Vec::new();
    image_of(img).write_to(&mut Cursor::new(&mut out), ImageFormat::Jpeg).ok()?;
    Some(out)
}

} // verus!
