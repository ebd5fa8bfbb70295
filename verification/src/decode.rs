//! Decoding an atlas: a raster image held in memory.

use crate::atlas::{AtlasImage, AtlasModel};
use crate::skin::{SkinError, SkinFailure};
use crate::text::{le32, read_le32};
use vstd::prelude::*;

verus! {

/// The most pixels that a run-length bitmap may declare and still be handed
/// to the decoder: the size of the buffer that the decoder starts with.
pub const MAX_RUN_LENGTH_PIXELS: u64 = 0x200_0000;

/// The bytes are those of a bitmap file with an info header that declares
/// run-length compression and more pixels than `MAX_RUN_LENGTH_PIXELS`. The
/// header size stands at byte 14, width and height at bytes 18 and 22, the
/// compression at byte 30; a core header, of size 12, has no compression.
pub open spec fn oversized_run_length_bitmap(data: Seq<u8>) -> bool {
    &&& data.len() >= 34
    &&& data[0] == 0x42 && data[1] == 0x4d
    &&& le32(data, 14) != 12
    &&& (le32(data, 30) == 1 || le32(data, 30) == 2)
    &&& le32(data, 18) * le32(data, 22) > MAX_RUN_LENGTH_PIXELS
}

/// The image that the bytes `data` encode: its width, its height and its
/// pixels as straight RGBA8, row by row from the top; `None` where the bytes
/// cannot be decoded.
pub uninterp spec fn decoded_atlas(data: Seq<u8>) -> Option<(u32, u32, Seq<u8>)>;

/// `image::load_from_memory`, then `DynamicImage::to_rgba8` and the size and
/// buffer of what that gives. The format is guessed from the first bytes and
/// the image decoded; a failure comes back as the crate's error. The RGBA8
/// copy is made in a fresh buffer of exactly four bytes per pixel.
///
/// The bitmap decoder unpacks run-length data into a buffer of at most
/// `MAX_RUN_LENGTH_PIXELS` pixels and does not grow it once the data has
/// ended; it then copies that buffer into one of the declared size and stops
/// the program where the two differ. So a run-length bitmap that declares
/// more pixels is kept from the call.
#[verifier::external_body]
fn decode_rgba8(data: &[u8]) -> (r: Result<(u32, u32, Vec<u8>), image::ImageError>)
    requires
        !oversized_run_length_bitmap(data@),
    ensures
        r is Ok <==> decoded_atlas(data@) is Some,
        r matches Ok(t) ==> decoded_atlas(data@) == Some((t.0, t.1, t.2@)),
        r matches Ok(t) ==> t.2@.len() == t.0 * t.1 * 4,
{
    let image = image::load_from_memory(data)?.to_rgba8();
    Ok((image.width(), image.height(), image.into_vec()))
}

/// `image::error::LimitError::from_kind` with the kind `DimensionError`,
/// inside `image::ImageError::Limits`: the crate's error for an image whose
/// dimensions are past a limit.
#[verifier::external_body]
fn dimension_error() -> image::ImageError {
    image::ImageError::Limits(
        image::error::LimitError::from_kind(image::error::LimitErrorKind::DimensionError),
    )
}

/// The atlas that bytes decode to, if they decode. A run-length bitmap that
/// declares more than `MAX_RUN_LENGTH_PIXELS` pixels does not.
pub open spec fn decoded_model(data: Seq<u8>) -> Option<AtlasModel> {
    if oversized_run_length_bitmap(data) {
        None
    } else {
        match decoded_atlas(data) {
            Some(image) => Some(
                AtlasModel { width: image.0 as nat, height: image.1 as nat, pixels: image.2 },
            ),
            None => None,
        }
    }
}

/// Decides whether the bytes are those of a run-length bitmap that declares
/// more pixels than the decoder's buffer starts with.
pub fn is_oversized_run_length_bitmap(data: &[u8]) -> (oversized: bool)
    ensures
        oversized == oversized_run_length_bitmap(data@),
{
    if data.len() < 34 {
        return false;
    }
    if data[0] != 0x42 || data[1] != 0x4d {
        return false;
    }
    let header_size = read_le32(data, 14);
    let compression = read_le32(data, 30);
    if header_size == 12 || !(compression == 1 || compression == 2) {
        return false;
    }
    let width = read_le32(data, 18);
    let height = read_le32(data, 22);
    assert(width * height <= 0xffff_ffff * 0xffff_ffff) by (nonlinear_arith)
        requires
            width <= 0xffff_ffff,
            height <= 0xffff_ffff,
    ;
    (width as u128) * (height as u128) > MAX_RUN_LENGTH_PIXELS as u128
}

/// Decodes the bytes of an atlas file into straight RGBA8. A run-length
/// bitmap that declares more than `MAX_RUN_LENGTH_PIXELS` pixels is refused
/// as an image that cannot be decoded.
pub fn decode_atlas(data: &[u8]) -> (r: Result<AtlasImage, SkinError>)
    ensures
        match r {
            Ok(atlas) => decoded_model(data@) == Some(atlas@) && atlas@.wf(),
            Err(e) => decoded_model(data@) is None && e@ == SkinFailure::Image,
        },
{
    if is_oversized_run_length_bitmap(data) {
        return Err(SkinError::Image(dimension_error()));
    }
    match decode_rgba8(data) {
        Ok((width, height, pixels)) => Ok(AtlasImage::from_rgba8(width, height, pixels)),
        Err(e) => Err(SkinError::Image(e)),
    }
}

} // verus!
