//! The conversion pipeline: admission, decoding, orientation, metadata and profile handling,
//! resizing, encoding and naming, in that order.
use vstd::prelude::*;
use crate::color::{apply_color_correction, srgb_icc_profile};
use crate::color::srgb_of;
use crate::encode::{
    encode_jpeg, encode_png, encode_webp, jpeg_input, jpeg_output, png_output, primary_jpeg_quality,
    result_bytes, webp_output,
};
use crate::pixels::is_alpha_merge;
use crate::format::{admitted, check_input, source_format_of_lower, ConvertError, ImageFormat, SourceFormat};
use crate::metadata::{
    extract_icc_profile, extract_metadata, extracted_icc, extracted_metadata, opt_bytes, orientation_of, read_orientation,
};
use crate::naming::{get_target_filename, target_filename};
use crate::options::ConversionOptions;
use crate::raster::{apply_orientation, is_oriented, oriented_dims, Raster};
use crate::resize::{buffer_fits, requested_dimensions, requested_dims, resize_image_fast, resolve_dimensions, resolved_dims};
use crate::text::lower_of;

verus! {

/// What `image::load_from_memory` decodes: width, height, whether the color type has an alpha
/// channel, and the pixels as `DynamicImage::to_rgba8` lays them out.
pub uninterp spec fn decoded_of(b: Seq<u8>) -> Option<(u32, u32, bool, Seq<u8>)>;

/// The view of a raster as plain values.
pub open spec fn raster_view(img: Raster) -> (u32, u32, bool, Seq<u8>) {
    (img.width, img.height, img.has_alpha, img.rgba@)
}

/// Relies on `image::load_from_memory`, `DynamicImage::color` (`has_alpha`) and
/// `DynamicImage::to_rgba8`, whose buffer holds four bytes for each pixel.
#[verifier::external_body]
fn decode_image(b: &Vec<u8>) -> (r: Option<Raster>)
    ensures
        match r {
            None => decoded_of(b@) is None,
            Some(img) => decoded_of(b@) == Some(raster_view(img)) && img.wf(),
        },
{
    let img = image::load_from_memory(b).ok()?;
    let has_alpha = img.color().has_alpha();
    let rgba = img.to_rgba8();
    Some(Raster { width: rgba.width(), height: rgba.height(), has_alpha, rgba: rgba.into_raw() })
}

/// Decodes the bytes of a JPEG, PNG or WebP file; `DecodeFailure` exactly when the decoder
/// produces no pixels.
pub fn decode_source(source: &Vec<u8>) -> (r: Result<Raster, ConvertError>)
    ensures
        match decoded_of(source@) {
            None => r == Err::<Raster, ConvertError>(ConvertError::DecodeFailure),
            Some(d) => r matches Ok(img) && raster_view(img) == d && img.wf(),
        },
{
    match decode_image(source) {
        Some(img) => Ok(img),
        None => Err(ConvertError::DecodeFailure),
    }
}

/// A processed image, ready for encoding, with the metadata blob carried through.
#[derive(Clone, Debug)]
pub struct Processed {
    pub image: Raster,
    pub exif: Option<Vec<u8>>,
}

/// The metadata blob is carried through only for a JPEG source converted to JPEG with
/// preservation asked for.
pub open spec fn keeps_metadata(fmt: SourceFormat, o: ConversionOptions) -> bool {
    o.keep_metadata && fmt == SourceFormat::Jpeg && o.format == ImageFormat::Jpeg
}

/// Dimensions of the decoded image after orientation: HEIC sources arrive oriented.
pub open spec fn dims_after_orientation(fmt: SourceFormat, source: Seq<u8>, w: u32, h: u32) -> (int, int) {
    if fmt == SourceFormat::Heic {
        (w as int, h as int)
    } else {
        oriented_dims(orientation_of(source), w as int, h as int)
    }
}

/// Dimensions of the processed image: those after orientation, or the resolved resize target
/// when its buffer can be addressed.
pub open spec fn processed_dims(fmt: SourceFormat, source: Seq<u8>, img: Raster, o: ConversionOptions) -> (int, int) {
    let d = dims_after_orientation(fmt, source, img.width, img.height);
    match requested_dims(o.resize, o.target_width@, o.target_height@) {
        Some(req) => match resolved_dims(d.0 as u32, d.1 as u32, req.0, req.1) {
            Some(t) => if t.0 * t.1 * 4 <= usize::MAX {
                (t.0 as int, t.1 as int)
            } else {
                d
            },
            None => d,
        },
        None => d,
    }
}

/// `mid` is the decoded image after the orientation stage: normalized for the source's EXIF
/// orientation, or as decoded for HEIC, whose decoder orients.
pub open spec fn is_stage_oriented(mid: Raster, decoded: Raster, source: Seq<u8>, fmt: SourceFormat) -> bool {
    if fmt == SourceFormat::Heic {
        raster_view(mid) == raster_view(decoded)
    } else {
        is_oriented(mid, decoded, orientation_of(source))
    }
}

/// `out` is `mid` after the color stage: converted to sRGB from the source's embedded profile,
/// alpha kept; unchanged when there is no profile or lcms2 cannot use it.
pub open spec fn is_color_corrected(out: Raster, mid: Raster, source: Seq<u8>) -> bool {
    &&& out.wf()
    &&& out.width == mid.width
    &&& out.height == mid.height
    &&& out.has_alpha == mid.has_alpha
    &&& match extracted_icc(source) {
        None => out.rgba@ == mid.rgba@,
        Some(icc) => match srgb_of(icc, mid.rgba@) {
            None => out.rgba@ == mid.rgba@,
            Some(c) => is_alpha_merge(out.rgba@, c, mid.rgba@),
        },
    }
}

/// `out` is `col` after the resize stage: scaled to the resolved target when one is asked for
/// and its buffer can be addressed (an RGBA image), unchanged otherwise.
pub open spec fn is_resized(out: Raster, col: Raster, o: ConversionOptions) -> bool {
    match requested_dims(o.resize, o.target_width@, o.target_height@) {
        Some(req) => match resolved_dims(col.width, col.height, req.0, req.1) {
            Some(t) => if t.0 * t.1 * 4 <= usize::MAX {
                out.wf() && out.width == t.0 && out.height == t.1 && out.has_alpha
            } else {
                raster_view(out) == raster_view(col)
            },
            None => raster_view(out) == raster_view(col),
        },
        None => raster_view(out) == raster_view(col),
    }
}

/// `p` is what the stages make of the decoded image: the carried metadata blob, and the image
/// through orientation, color correction and resizing.
pub open spec fn is_processed(
    p: Processed,
    decoded: Raster,
    source: Seq<u8>,
    fmt: SourceFormat,
    o: ConversionOptions,
) -> bool {
    &&& p.image.wf()
    &&& opt_bytes(p.exif) == if keeps_metadata(fmt, o) {
        extracted_metadata(source)
    } else {
        None
    }
    &&& exists|mid: Raster, col: Raster|
        #[trigger] is_stage_oriented(mid, decoded, source, fmt) && #[trigger] is_color_corrected(
            col,
            mid,
            source,
        ) && is_resized(p.image, col, o)
}

/// Runs the stages between decoding and encoding: orientation (but for HEIC), extraction of the
/// metadata blob (JPEG to JPEG with preservation asked for), conversion from an embedded ICC
/// profile to sRGB (best effort), and resizing when asked for (skipped when the target's
/// buffer could not be addressed).
pub fn process_image(
    decoded: Raster,
    source: &Vec<u8>,
    fmt: SourceFormat,
    options: &ConversionOptions,
) -> (r: Processed)
    requires
        decoded.wf(),
    ensures
        is_processed(r, decoded, source@, fmt, *options),
        (r.image.width as int, r.image.height as int) == processed_dims(fmt, source@, decoded, *options),
{
    let ghost dec = decoded;
    let mut img = if fmt != SourceFormat::Heic {
        let o = read_orientation(source);
        apply_orientation(decoded, o)
    } else {
        decoded
    };
    let ghost mid = img;
    assert(is_stage_oriented(mid, dec, source@, fmt));
    let exif = if options.keep_metadata && fmt == SourceFormat::Jpeg && options.format
        == ImageFormat::Jpeg {
        extract_metadata(source)
    } else {
        None
    };
    if let Some(icc) = extract_icc_profile(source) {
        let _ = apply_color_correction(&mut img, &icc);
    }
    let ghost col = img;
    assert(is_color_corrected(col, mid, source@));
    let requested = requested_dimensions(
        options.resize,
        options.target_width.as_str(),
        options.target_height.as_str(),
    );
    if let Some((w, h)) = requested {
        if let Some((fw, fh)) = resolve_dimensions(img.width, img.height, w, h) {
            if buffer_fits(fw, fh) {
                img = resize_image_fast(&img, fw, fh);
            }
        }
    }
    let r = Processed { image: img, exif };
    assert(is_resized(r.image, col, *options));
    assert(is_stage_oriented(mid, dec, source@, fmt) && is_color_corrected(col, mid, source@) && is_resized(r.image, col, *options));
    r
}

/// The file for a processed image in the target format; `primary` is the primary JPEG
/// encoder's output.
pub open spec fn encoded_output(
    p: Processed,
    o: ConversionOptions,
    icc: Seq<u8>,
    primary: Option<Seq<u8>>,
) -> Result<Seq<u8>, ConvertError> {
    match o.format {
        ImageFormat::Jpeg => jpeg_output(p.image, o.quality, primary, opt_bytes(p.exif), icc),
        ImageFormat::Png => png_output(p.image, o.png_compressed),
        ImageFormat::WebP => webp_output(p.image, o.quality, icc),
    }
}

/// Encodes a processed image in the target format. `primary_jpeg` is what the primary JPEG
/// encoder produced from `jpeg_input` (`None` when it failed); other formats ignore it.
pub fn encode_image(
    p: &Processed,
    options: &ConversionOptions,
    icc: &Vec<u8>,
    primary_jpeg: Option<Vec<u8>>,
) -> (r: Result<Vec<u8>, ConvertError>)
    requires
        p.image.wf(),
    ensures
        result_bytes(r) == encoded_output(*p, *options, icc@, opt_bytes(primary_jpeg)),
{
    match options.format {
        ImageFormat::Jpeg => encode_jpeg(&p.image, options.quality, primary_jpeg, &p.exif, icc),
        ImageFormat::Png => encode_png(&p.image, options.png_compressed),
        ImageFormat::WebP => encode_webp(&p.image, options.quality, icc),
    }
}

/// The output file name for a processed image: the suffix, if asked for, records the processed
/// dimensions.
pub fn output_file_name(file_stem: &str, p: &Processed, options: &ConversionOptions) -> (r: String)
    ensures
        r@ == target_filename(file_stem@, Some((p.image.width, p.image.height)), *options),
{
    get_target_filename(file_stem, Some((p.image.width, p.image.height)), options)
}

/// A finished conversion: the output file name and its bytes.
#[derive(Clone, Debug)]
pub struct Converted {
    pub file_name: String,
    pub bytes: Vec<u8>,
}

/// What the HEIC adapter returned is a usable image: present, with a correctly sized buffer.
pub open spec fn heic_usable(h: Option<Raster>) -> bool {
    h matches Some(x) && x.wf()
}

/// `c` is the conversion of processed image `p`: its name carries the processed dimensions,
/// its bytes are the encoder's output.
pub open spec fn is_conversion_of(
    c: Converted,
    p: Processed,
    file_stem: Seq<char>,
    o: ConversionOptions,
    icc: Seq<u8>,
    primary: Option<Seq<u8>>,
) -> bool {
    &&& c.file_name@ == target_filename(file_stem, Some((p.image.width, p.image.height)), o)
    &&& encoded_output(p, o, icc, primary) == Ok::<Seq<u8>, ConvertError>(c.bytes@)
}

/// `r` is the outcome of converting `source` once it was admitted as `fmt`: `d` is the decoded
/// image (what image's decoder gave, or for HEIC a usable raster the adapter returned as `h`),
/// `p` what the stages made of it, `icc` the canonical profile and `prim` the primary JPEG
/// encoder's output; the result is the named file, or the encoder's failure.
pub open spec fn is_outcome_of<H: Fn(&Vec<u8>) -> Option<Raster>>(
    r: Result<Converted, ConvertError>,
    source: &Vec<u8>,
    fmt: SourceFormat,
    file_stem: Seq<char>,
    o: ConversionOptions,
    decode_heic: H,
    d: Raster,
    p: Processed,
    icc: Seq<u8>,
    prim: Option<Seq<u8>>,
    h: Option<Raster>,
) -> bool {
    &&& is_processed(p, d, source@, fmt, o)
    &&& if fmt == SourceFormat::Heic {
        decode_heic.ensures((source,), h) && (h matches Some(x) && raster_view(x) == raster_view(d))
    } else {
        decoded_of(source@) == Some(raster_view(d))
    }
    &&& (o.format != ImageFormat::Jpeg ==> prim is None)
    &&& match r {
        Ok(c) => is_conversion_of(c, p, file_stem, o, icc, prim),
        Err(_) => encoded_output(p, o, icc, prim) is Err,
    }
}

/// Converts the bytes of a source file. `ext` is the source's extension and `file_size` its size
/// on disk; `decode_heic` decodes a HEIC/HEIF file into oriented RGBA pixels and
/// `primary_jpeg` runs the primary JPEG encoder on RGB pixels (width, height, quality),
/// `None` when it fails. The header check and the size ceiling come first; a failure there is
/// reported before anything is decoded. Then: `DecodeFailure` exactly when no pixels are
/// decoded; otherwise the processed image is encoded (`EncodeFailure` when that fails) and named.
/// The canonical profile `icc` and the primary encoder's output are whatever those services
/// gave.
pub fn convert_image<H, P>(
    source: &Vec<u8>,
    ext: &str,
    file_size: u64,
    file_stem: &str,
    options: &ConversionOptions,
    decode_heic: H,
    primary_jpeg: P,
) -> (r: Result<Converted, ConvertError>)
    where
        H: Fn(&Vec<u8>) -> Option<Raster>,
        P: Fn(&Vec<u8>, u32, u32, u8) -> Option<Vec<u8>>,
    requires
        forall|b: &Vec<u8>| decode_heic.requires((b,)),
        forall|rgb: &Vec<u8>, w: u32, h: u32, q: u8| primary_jpeg.requires((rgb, w, h, q)),
    ensures
        match admitted(source_format_of_lower(lower_of(ext@)), source@, file_size) {
            Err(e) => r == Err::<Converted, ConvertError>(e),
            Ok(fmt) => {
                &&& r matches Err(e) ==> e == ConvertError::DecodeFailure || e
                    == ConvertError::EncodeFailure
                &&& fmt != SourceFormat::Heic ==> (r == Err::<Converted, ConvertError>(
                    ConvertError::DecodeFailure,
                ) <==> decoded_of(source@) is None)
                &&& fmt == SourceFormat::Heic ==> ((forall|h: Option<Raster>|
                    decode_heic.ensures((source,), h) ==> !heic_usable(h)) ==> r == Err::<
                    Converted,
                    ConvertError,
                >(ConvertError::DecodeFailure))
                &&& fmt == SourceFormat::Heic && r == Err::<Converted, ConvertError>(
                    ConvertError::DecodeFailure,
                ) ==> exists|h: Option<Raster>|
                    decode_heic.ensures((source,), h) && !heic_usable(h)
                &&& (r is Ok || r == Err::<Converted, ConvertError>(ConvertError::EncodeFailure))
                    ==> exists|d: Raster, p: Processed, icc: Seq<u8>, prim: Option<Seq<u8>>, h: Option<Raster>|
                    is_outcome_of(r, source, fmt, file_stem@, *options, decode_heic, d, p, icc, prim, h)
            },
        },
{
    let fmt = match check_input(ext, source.as_slice(), file_size) {
        Ok(f) => f,
        Err(e) => return Err(e),
    };
    let ghost mut hg: Option<Raster> = None;
    let decoded = if fmt == SourceFormat::Heic {
        let h = decode_heic(source);
        proof {
            hg = h;
        }
        match h {
            Some(img) => match Raster::from_rgba(img.width, img.height, img.has_alpha, img.rgba) {
                Some(checked) => checked,
                None => {
                    assert(decode_heic.ensures((source,), hg) && !heic_usable(hg));
                    return Err(ConvertError::DecodeFailure);
                },
            },
            None => {
                assert(decode_heic.ensures((source,), hg) && !heic_usable(hg));
                return Err(ConvertError::DecodeFailure);
            },
        }
    } else {
        match decode_source(source) {
            Ok(d) => d,
            Err(e) => return Err(e),
        }
    };
    let ghost d = decoded;
    let ghost decoded_ok = if fmt == SourceFormat::Heic {
        decode_heic.ensures((source,), hg) && (hg matches Some(x) && raster_view(x) == raster_view(d))
    } else {
        decoded_of(source@) == Some(raster_view(d))
    };
    assert(decoded_ok);
    assert(fmt == SourceFormat::Heic ==> heic_usable(hg) && decode_heic.ensures((source,), hg));
    let processed = process_image(decoded, source, fmt, options);
    let icc = match srgb_icc_profile() {
        Some(p) => p,
        None => Vec::new(),
    };
    let primary = if options.format == ImageFormat::Jpeg {
        let rgb = jpeg_input(&processed.image);
        primary_jpeg(
            &rgb,
            processed.image.width,
            processed.image.height,
            primary_jpeg_quality(options.quality),
        )
    } else {
        None
    };
    let ghost prim = opt_bytes(primary);
    let bytes = match encode_image(&processed, options, &icc, primary) {
        Ok(b) => b,
        Err(e) => {
            assert(is_processed(processed, d, source@, fmt, *options));
            assert(encoded_output(processed, *options, icc@, prim) is Err);
            assert(options.format != ImageFormat::Jpeg ==> prim is None);
            let r = Err(e);
            assert(is_outcome_of(r, source, fmt, file_stem@, *options, decode_heic, d, processed, icc@, prim, hg));
            return r;
        },
    };
    let file_name = output_file_name(file_stem, &processed, options);
    let c = Converted { file_name, bytes };
    assert(is_processed(processed, d, source@, fmt, *options));
    assert(is_conversion_of(c, processed, file_stem@, *options, icc@, prim));
    assert(options.format != ImageFormat::Jpeg ==> prim is None);
    let r = Ok(c);
    assert(is_outcome_of(r, source, fmt, file_stem@, *options, decode_heic, d, processed, icc@, prim, hg));
    r
}

} // verus!
