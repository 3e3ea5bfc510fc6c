//! Serializes a colorized RGBA image into the engine's binary texture
//! container, through the outside encoder.

use vstd::prelude::*;

use crate::colorize::ColorizedImage;
use crate::colorize::MAX_PIXEL_BYTES;
use crate::errors::EncodeError;

verus! {

/// The two hardware texture-feature tiers a texture is produced for.
/// Both accept the same RGBA pixel data and the same container layout;
/// they are told apart by the file each one is written to.
#[derive(Copy, Clone, PartialEq, Eq, Structural, Debug)]
pub enum EncoderProfile {
    /// The newer tier.
    Dx9,
    /// The older tier.
    Dx8,
}

/// Whether `d` is a positive power of two.
pub open spec fn pow2_dim(d: int) -> bool
    decreases d,
{
    if d <= 0 {
        false
    } else if d == 1 {
        true
    } else {
        d % 2 == 0 && pow2_dim(d / 2)
    }
}

/// Whether an image's dimensions are ones the texture container can
/// carry: powers of two, at most 65535.
pub open spec fn encodable_dims(width: int, height: int) -> bool {
    pow2_dim(width) && pow2_dim(height) && width <= 0xffff && height <= 0xffff
}

/// The container bytes the outside encoder produces for an RGBA image
/// of the given dimensions: a function of the pixel data alone.
pub uninterp spec fn vtf_bytes(width: nat, height: nat, rgba: Seq<u8>) -> Seq<u8>;

/// Relies on vtf::create with the RGBA8888 format: it refuses exactly
/// the images whose width or height is not a power of two or exceeds
/// 65535, and otherwise returns a 64-byte container header followed by
/// the raw RGBA payload, depending on nothing but its arguments.
#[verifier::external_body]
fn vtf_encode_rgba(width: u32, height: u32, rgba: &Vec<u8>) -> (r: Option<Vec<u8>>)
    requires
        rgba@.len() == 4 * (width as int) * (height as int),
        rgba@.len() <= MAX_PIXEL_BYTES,
    ensures
        r is Some <==> encodable_dims(width as int, height as int),
        r matches Some(v) ==> {
            &&& v@ == vtf_bytes(width as nat, height as nat, rgba@)
            &&& v@.len() == 64 + rgba@.len()
            &&& v@.subrange(64, v@.len() as int) == rgba@
        },
{
    match image::RgbaImage::from_raw(width, height, rgba.clone()) {
        Some(buffer) => vtf::create(
            image::DynamicImage::ImageRgba8(buffer),
            vtf::ImageFormat::Rgba8888,
        ).ok(),
        None => None,
    }
}

/// Serializes the image for one profile. Success depends on the
/// dimensions alone: the container takes powers of two up to 65535.
/// Both profiles accept the RGBA data and produce the same container
/// bytes: a 64-byte header, then the pixel payload unchanged.
pub fn encode(image: &ColorizedImage, profile: EncoderProfile) -> (r: Result<
    Vec<u8>,
    EncodeError,
>)
    requires
        image.wf(),
    ensures
        r is Ok <==> encodable_dims(image.width as int, image.height as int),
        r matches Ok(v) ==> {
            &&& v@ == vtf_bytes(image.width as nat, image.height as nat, image.data@)
            &&& v@.len() == 64 + image.data@.len()
            &&& v@.subrange(64, v@.len() as int) == image.data@
        },
        r is Err ==> r == Err::<Vec<u8>, EncodeError>(EncodeError::InvalidDimensions),
{
    proof {
        assert(4 * ((image.width as int) * (image.height as int)) == 4 * (image.width as int) * (
        image.height as int)) by (nonlinear_arith);
    }
    match vtf_encode_rgba(image.width, image.height, &image.data) {
        Some(v) => Ok(v),
        None => Err(EncodeError::InvalidDimensions),
    }
}

} // verus!
