//! Color management: conversion of pixels from an embedded ICC profile to sRGB.
use vstd::prelude::*;
use crate::format::ConvertError;
use crate::metadata::opt_bytes;
use crate::pixels::{is_alpha_merge, merge_alpha};
use crate::raster::Raster;

verus! {

/// The pixels lcms2 gives when transforming RGBA_8 pixels from the profile to sRGB with
/// perceptual intent, or `None` when the profile or the transform cannot be built.
pub uninterp spec fn srgb_of(icc: Seq<u8>, rgba: Seq<u8>) -> Option<Seq<u8>>;

/// Relies on `lcms2::Profile::new_icc`, `Profile::new_srgb`, `Transform::new` with perceptual
/// intent and `Transform::transform_in_place` on RGBA_8 pixels: a profile or transform that
/// cannot be built gives `None`; otherwise the buffer keeps its length.
#[verifier::external_body]
fn srgb_transform(icc: &Vec<u8>, rgba: &Vec<u8>) -> (r: Option<Vec<u8>>)
    requires
        rgba@.len() % 4 == 0,
    ensures
        opt_bytes(r) == srgb_of(icc@, rgba@),
        r matches Some(v) ==> v@.len() == rgba@.len(),
{
    let input = lcms2::Profile::new_icc(icc).ok()?;
    let output = lcms2::Profile::new_srgb();
    let transform: lcms2::Transform<u8, u8> = lcms2::Transform::new(
        &input,
        lcms2::PixelFormat::RGBA_8,
        &output,
        lcms2::PixelFormat::RGBA_8,
        lcms2::Intent::Perceptual,
    ).ok()?;
    let mut pixels = rgba.clone();
    transform.transform_in_place(&mut pixels);
    Some(pixels)
}

/// Relies on `lcms2::Profile::new_srgb` and `Profile::icc`, which serializes the built-in sRGB
/// profile.
#[verifier::external_body]
pub(crate) fn srgb_icc_profile() -> (r: Option<Vec<u8>>) {
    lcms2::Profile::new_srgb().icc().ok()
}

/// The alpha byte of every pixel is the same in both buffers.
pub open spec fn alpha_kept(new: Seq<u8>, old: Seq<u8>) -> bool {
    &&& new.len() == old.len()
    &&& forall|i: int| 0 <= i < old.len() / 4 ==> #[trigger] new[4 * i + 3] == old[4 * i + 3]
}

/// Converts the pixels from the given input profile to sRGB; only the color channels change
/// (they become those lcms2 computes, the alpha bytes stay). A profile that cannot be used is
/// reported as `ColorProfileInvalid` and leaves the image as it was.
pub fn apply_color_correction(img: &mut Raster, input_profile: &Vec<u8>) -> (r: Result<(), ConvertError>)
    requires
        old(img).wf(),
    ensures
        final(img).wf(),
        final(img).width == old(img).width,
        final(img).height == old(img).height,
        final(img).has_alpha == old(img).has_alpha,
        alpha_kept(final(img).rgba@, old(img).rgba@),
        match srgb_of(input_profile@, old(img).rgba@) {
            None => r == Err::<(), ConvertError>(ConvertError::ColorProfileInvalid) && *final(img)
                == *old(img),
            Some(c) => r is Ok && is_alpha_merge(final(img).rgba@, c, old(img).rgba@),
        },
{
    proof {
        let n = img.width * img.height;
        assert(img.rgba@.len() % 4 == 0) by {
            assert(img.rgba@.len() == n * 4);
        }
    }
    match srgb_transform(input_profile, &img.rgba) {
        Some(color) => {
            let merged = merge_alpha(&color, &img.rgba);
            proof {
                assert forall|i: int| 0 <= i < img.rgba@.len() / 4 implies #[trigger] merged@[4 * i + 3]
                    == img.rgba@[4 * i + 3] by {
                    assert(is_alpha_merge(merged@, color@, img.rgba@));
                    assert(merged@[4 * i + 3] == img.rgba@[4 * i + 3]);
                }
            }
            img.rgba = merged;
            Ok(())
        },
        None => {
            proof {
                assert forall|i: int| 0 <= i < img.rgba@.len() / 4 implies #[trigger] img.rgba@[4 * i + 3]
                    == img.rgba@[4 * i + 3] by {}
            }
            Err(ConvertError::ColorProfileInvalid)
        },
    }
}

} // verus!
