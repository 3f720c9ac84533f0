//! The three encoders, each followed by best-effort container work that never discards a
//! successful encode.
use vstd::prelude::*;
use crate::format::ConvertError;
use crate::metadata::opt_bytes;
use crate::jpeg_container::{
    embed_jpeg_metadata, embedded_output,
};
use crate::pixels::{any_translucent, has_translucent_pixel, rgb_bytes, rgb_of};
use crate::raster::Raster;

verus! {

/// The bytes the `png` encoder writes for 8-bit pixels, RGBA or RGB, with best or default
/// compression, Paeth or Sub filtering and, when asked, a perceptual sRGB chunk.
pub uninterp spec fn png_encoding_of(
    data: Seq<u8>,
    width: u32,
    height: u32,
    rgba: bool,
    best: bool,
    paeth: bool,
    srgb: bool,
) -> Option<Seq<u8>>;

/// The bytes `oxipng::optimize_from_memory` gives for the preset level, with safe chunk
/// stripping and alpha optimization switched as asked.
pub uninterp spec fn oxipng_of(png: Seq<u8>, level: u8, strip_safe: bool, optimize_alpha: bool) -> Option<Seq<u8>>;

/// The bytes `jpeg_encoder::Encoder` writes for RGB pixels at the given quality.
pub uninterp spec fn jpeg_encoder_of(
    rgb: Seq<u8>,
    width: u16,
    height: u16,
    quality: u8,
    progressive: bool,
    optimize_huffman: bool,
) -> Option<Seq<u8>>;

/// Relies on `png::Encoder` (8-bit depth; compression, filter, color type and sRGB chunk as
/// asked), `Writer::write_image_data` and `Writer::finish`; any error gives `None`.
#[verifier::external_body]
fn png_encode(
    data: &Vec<u8>,
    width: u32,
    height: u32,
    rgba: bool,
    best: bool,
    paeth: bool,
    srgb: bool,
) -> (r: Option<Vec<u8>>)
    ensures
        opt_bytes(r) == png_encoding_of(data@, width, height, rgba, best, paeth, srgb),
{
    let mut buffer = Vec::new();
    {
        let mut enc = png::Encoder::new(&mut buffer, width, height);
        enc.set_depth(png::BitDepth::Eight);
        enc.set_compression(if best { png::Compression::Best } else { png::Compression::Default });
        enc.set_filter(if paeth { png::FilterType::Paeth } else { png::FilterType::Sub });
        enc.set_color(if rgba { png::ColorType::Rgba } else { png::ColorType::Rgb });
        if srgb {
            enc.set_source_srgb(png::SrgbRenderingIntent::Perceptual);
        }
        let mut writer = enc.write_header().ok()?;
        writer.write_image_data(data).ok()?;
        writer.finish().ok()?;
    }
    Some(buffer)
}

/// Relies on `oxipng::Options::from_preset`, its `strip` and `optimize_alpha` fields, and
/// `oxipng::optimize_from_memory`; an error gives `None`.
#[verifier::external_body]
fn oxipng_optimize(png: &Vec<u8>, level: u8, strip_safe: bool, optimize_alpha: bool) -> (r: Option<Vec<u8>>)
    ensures
        opt_bytes(r) == oxipng_of(png@, level, strip_safe, optimize_alpha),
{
    let mut opts = oxipng::Options::from_preset(level);
    opts.strip = if strip_safe { oxipng::StripChunks::Safe } else { oxipng::StripChunks::None };
    opts.optimize_alpha = optimize_alpha;
    oxipng::optimize_from_memory(png, &opts).ok()
}

/// Relies on `jpeg_encoder::Encoder::new`, `set_progressive`, `set_optimized_huffman_tables`
/// and `encode` with RGB pixels; an error gives `None`.
#[verifier::external_body]
fn jpeg_encoder_encode(
    rgb: &Vec<u8>,
    width: u16,
    height: u16,
    quality: u8,
    progressive: bool,
    optimize_huffman: bool,
) -> (r: Option<Vec<u8>>)
    ensures
        opt_bytes(r) == jpeg_encoder_of(rgb@, width, height, quality, progressive, optimize_huffman),
{
    let mut buf = Vec::new();
    let mut enc = jpeg_encoder::Encoder::new(&mut buf, quality);
    enc.set_optimized_huffman_tables(optimize_huffman);
    enc.set_progressive(progressive);
    enc.encode(rgb, width, height, jpeg_encoder::ColorType::Rgb).ok()?;
    Some(buf)
}

/// The bytes libwebp's lossy encoder (`webp::Encoder::encode_simple`) writes for RGBA pixels.
pub uninterp spec fn webp_encoding_of(rgba: Seq<u8>, width: u32, height: u32, quality: u8) -> Option<Seq<u8>>;

/// The WebP file img-parts writes after `WebP::from_bytes` and `ImageICC::set_icc_profile`,
/// or `None` when it does not parse.
pub uninterp spec fn webp_with_icc_of(webp: Seq<u8>, icc: Seq<u8>) -> Option<Seq<u8>>;

/// Largest width or height of a WebP image.
pub const WEBP_MAX_DIMENSION: u32 = 16383;

/// Relies on `webp::Encoder::from_rgba` and `Encoder::encode_simple` (lossy, at the quality
/// handed over as a float), then on `img_parts::webp::WebP::from_bytes`,
/// `ImageICC::set_icc_profile` and `ImageEncoder::bytes` to embed the profile. Returns the
/// encoded bytes and, where the container could be re-parsed, the bytes with the profile.
/// img-parts is only handed what libwebp produced, whose frame header it can read. Dimensions
/// stay within WebP's limit, below which the row stride computed in `i32` cannot overflow.
#[verifier::external_body]
fn webp_encode_with_icc(rgba: &Vec<u8>, width: u32, height: u32, quality: u8, icc: &Vec<u8>) -> (r: Option<
    (Vec<u8>, Option<Vec<u8>>),
>)
    requires
        rgba@.len() == width * height * 4,
        width <= WEBP_MAX_DIMENSION,
        height <= WEBP_MAX_DIMENSION,
    ensures
        match r {
            None => webp_encoding_of(rgba@, width, height, quality) is None,
            Some(out) => webp_encoding_of(rgba@, width, height, quality) == Some(out.0@)
                && opt_bytes(out.1) == webp_with_icc_of(out.0@, icc@),
        },
{
    let raw = webp::Encoder::from_rgba(rgba, width, height).encode_simple(false, quality.into()).ok()?.to_vec();
    let embedded = img_parts::webp::WebP::from_bytes(bytes::Bytes::from(raw.clone())).ok().map(|mut w| {
        img_parts::ImageICC::set_icc_profile(&mut w, Some(bytes::Bytes::from(icc.clone())));
        w.encoder().bytes().to_vec()
    });
    Some((raw, embedded))
}

/// The image uses transparency: it has an alpha channel and some pixel is not fully opaque.
pub open spec fn uses_alpha(img: Raster) -> bool {
    img.has_alpha && has_translucent_pixel(img.rgba@)
}

/// The pixels handed to the PNG encoder: RGBA when transparency is used, RGB otherwise.
pub open spec fn png_pixels(img: Raster) -> Seq<u8> {
    if uses_alpha(img) {
        img.rgba@
    } else {
        rgb_of(img.rgba@)
    }
}

/// Preset level of the size-optimization pass.
pub const OXIPNG_PRESET: u8 = 6;

/// The PNG file for an image: best compression with Paeth filtering when optimization is asked
/// for, then the size-optimization pass (its output kept only when it succeeds); default
/// compression with Sub filtering otherwise. Always marked perceptual sRGB.
pub open spec fn png_output(img: Raster, compressed: bool) -> Result<Seq<u8>, ConvertError> {
    match png_encoding_of(png_pixels(img), img.width, img.height, uses_alpha(img), compressed, compressed, true) {
        None => Err(ConvertError::EncodeFailure),
        Some(buf) => Ok(
            if compressed {
                match oxipng_of(buf, OXIPNG_PRESET, true, true) {
                    Some(o) => o,
                    None => buf,
                }
            } else {
                buf
            },
        ),
    }
}

/// Encodes an image to PNG, as RGBA only when transparency is used.
pub fn encode_png(img: &Raster, compressed: bool) -> (r: Result<Vec<u8>, ConvertError>)
    requires
        img.wf(),
    ensures
        result_bytes(r) == png_output(*img, compressed),
{
    let has_alpha = img.has_alpha && any_translucent(&img.rgba);
    let data = if has_alpha {
        img.rgba.clone()
    } else {
        rgb_bytes(&img.rgba)
    };
    let buffer = match png_encode(&data, img.width, img.height, has_alpha, compressed, compressed, true) {
        Some(b) => b,
        None => return Err(ConvertError::EncodeFailure),
    };
    if compressed {
        match oxipng_optimize(&buffer, OXIPNG_PRESET, true, true) {
            Some(o) => Ok(o),
            None => Ok(buffer),
        }
    } else {
        Ok(buffer)
    }
}

/// The bytes of a result.
pub open spec fn result_bytes(r: Result<Vec<u8>, ConvertError>) -> Result<Seq<u8>, ConvertError> {
    match r {
        Ok(v) => Ok(v@),
        Err(e) => Err(e),
    }
}

/// The WebP file for an image: the lossy encode, with the canonical profile embedded when there
/// is one and the container re-parses; `EncodeFailure` beyond WebP's size limit or when the
/// encoder fails.
pub open spec fn webp_output(img: Raster, quality: u8, icc: Seq<u8>) -> Result<Seq<u8>, ConvertError> {
    if img.width > WEBP_MAX_DIMENSION || img.height > WEBP_MAX_DIMENSION {
        Err(ConvertError::EncodeFailure)
    } else {
        match webp_encoding_of(img.rgba@, img.width, img.height, quality) {
            None => Err(ConvertError::EncodeFailure),
            Some(raw) => Ok(
                if icc.len() > 0 {
                    match webp_with_icc_of(raw, icc) {
                        Some(e) => e,
                        None => raw,
                    }
                } else {
                    raw
                },
            ),
        }
    }
}

/// Encodes an image to lossy WebP at the given quality and embeds the canonical profile (unless
/// empty), keeping the plain encode when the container cannot be re-parsed.
pub fn encode_webp(img: &Raster, quality: u8, icc: &Vec<u8>) -> (r: Result<Vec<u8>, ConvertError>)
    requires
        img.wf(),
    ensures
        result_bytes(r) == webp_output(*img, quality, icc@),
{
    if img.width > WEBP_MAX_DIMENSION || img.height > WEBP_MAX_DIMENSION {
        return Err(ConvertError::EncodeFailure);
    }
    match webp_encode_with_icc(&img.rgba, img.width, img.height, quality, icc) {
        Some((raw, embedded)) => match embedded {
            Some(e) => if icc.len() > 0 {
                Ok(e)
            } else {
                Ok(raw)
            },
            None => Ok(raw),
        },
        None => Err(ConvertError::EncodeFailure),
    }
}

/// Highest quality handed to the primary JPEG encoder.
pub const PRIMARY_JPEG_MAX_QUALITY: u8 = 99;

/// The quality for the primary JPEG encoder: the requested one, at most 99.
pub fn primary_jpeg_quality(quality: u8) -> (r: u8)
    ensures
        r == if quality <= PRIMARY_JPEG_MAX_QUALITY {
            quality
        } else {
            PRIMARY_JPEG_MAX_QUALITY
        },
{
    if quality <= PRIMARY_JPEG_MAX_QUALITY {
        quality
    } else {
        PRIMARY_JPEG_MAX_QUALITY
    }
}

/// The pixels handed to a JPEG encoder: the RGB bytes of the image.
pub fn jpeg_input(img: &Raster) -> (r: Vec<u8>)
    ensures
        r@ == rgb_of(img.rgba@),
{
    rgb_bytes(&img.rgba)
}

/// What the fallback JPEG encoder gives: progressive with optimized Huffman tables at the
/// requested quality, for dimensions that fit its 16-bit header fields.
pub open spec fn fallback_jpeg(img: Raster, quality: u8) -> Option<Seq<u8>> {
    if img.width <= 0xFFFF && img.height <= 0xFFFF {
        jpeg_encoder_of(rgb_of(img.rgba@), img.width as u16, img.height as u16, quality, true, true)
    } else {
        None
    }
}

/// The JPEG file for an image: the primary encoder's bytes, or the fallback's when the primary
/// failed, with the canonical profile and metadata embedded; `EncodeFailure` when neither
/// produced bytes.
pub open spec fn jpeg_output(
    img: Raster,
    quality: u8,
    primary: Option<Seq<u8>>,
    exif: Option<Seq<u8>>,
    icc: Seq<u8>,
) -> Result<Seq<u8>, ConvertError> {
    let raw = match primary {
        Some(b) => Some(b),
        None => fallback_jpeg(img, quality),
    };
    match raw {
        None => Err(ConvertError::EncodeFailure),
        Some(b) => Ok(embedded_output(b, icc, exif)),
    }
}

/// Encodes an image to JPEG. `primary` is what the primary encoder produced, `None` when it
/// failed; the fallback encoder then runs. The encoded bytes are re-parsed to embed the
/// canonical profile and, if given, the metadata blob with its orientation normalized.
pub fn encode_jpeg(
    img: &Raster,
    quality: u8,
    primary: Option<Vec<u8>>,
    exif: &Option<Vec<u8>>,
    icc: &Vec<u8>,
) -> (r: Result<Vec<u8>, ConvertError>)
    requires
        img.wf(),
    ensures
        result_bytes(r) == jpeg_output(*img, quality, opt_bytes(primary), opt_bytes(*exif), icc@),
{
    let raw = match primary {
        Some(b) => b,
        None => {
            if img.width > 0xFFFF || img.height > 0xFFFF {
                return Err(ConvertError::EncodeFailure);
            }
            let rgb = rgb_bytes(&img.rgba);
            match jpeg_encoder_encode(&rgb, img.width as u16, img.height as u16, quality, true, true) {
                Some(b) => b,
                None => return Err(ConvertError::EncodeFailure),
            }
        },
    };
    Ok(embed_jpeg_metadata(&raw, icc, exif))
}

} // verus!
