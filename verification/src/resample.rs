//! Resampling of a decoded frame to the size of the overlay.

use vstd::prelude::*;
use std::num::NonZeroU32;
use fast_image_resize::{FilterType, Image, PixelType, ResizeAlg, Resizer};

verus! {

/// Why a frame could not be resampled.
#[derive(Clone, Copy, Debug, PartialEq, Eq, Structural)]
pub enum ResizeError {
    /// A side is zero, or a pixel count is beyond what can be addressed.
    Dimensions,
    /// The frame holds fewer bytes than its width and height call for.
    Buffer,
    /// The two images differ in pixel type.
    PixelType,
}

/// Whether a source of `src_width` by `src_height` pixels can be resampled
/// to `dst_width` by `dst_height`: no side is zero; the pixel counts of the
/// source, of the target, and of the image between them, which has the
/// target's width and up to the source's height, each fit 32 bits; and
/// each byte count can be addressed.
pub open spec fn resizable(src_width: u32, src_height: u32, dst_width: u32, dst_height: u32) -> bool {
    &&& src_width > 0
    &&& src_height > 0
    &&& dst_width > 0
    &&& dst_height > 0
    &&& src_width * src_height <= u32::MAX
    &&& dst_width * dst_height <= u32::MAX
    &&& 3 * (src_width * src_height) <= usize::MAX
    &&& 3 * (dst_width * dst_height) <= usize::MAX
    &&& dst_width * src_height <= u32::MAX
    &&& 3 * (dst_width * src_height) + 3 <= usize::MAX
}

/// Calls `fast_image_resize`: `Image::from_slice_u8` on the frame,
/// `Image::new` for the target, and `Resizer::resize` with bilinear
/// convolution, all with three bytes to the pixel. Claimed of it: the
/// call fails exactly where the frame is shorter than its sizes call for,
/// and then because of the buffer; a result has three bytes for each target
/// pixel; and where the target has the size of the source, the result is a
/// copy of the source's pixels. Which bytes a change of size gives is not
/// claimed: the crate picks its arithmetic by the processor it runs on.
#[verifier::external_body]
fn resample_bilinear(
    mut pixels: Vec<u8>,
    src_width: u32,
    src_height: u32,
    dst_width: u32,
    dst_height: u32,
) -> (out: Result<Vec<u8>, ResizeError>)
    requires
        resizable(src_width, src_height, dst_width, dst_height),
    ensures
        out is Ok <==> pixels@.len() >= 3 * (src_width * src_height),
        out matches Ok(v) ==> v@.len() == 3 * (dst_width * dst_height),
        out matches Ok(v) ==> src_width == dst_width && src_height == dst_height ==> v@
            == pixels@.subrange(0, 3 * (src_width * src_height)),
        out matches Err(e) ==> e == ResizeError::Buffer,
{
    let (sw, sh) = (NonZeroU32::new(src_width).unwrap(), NonZeroU32::new(src_height).unwrap());
    let (dw, dh) = (NonZeroU32::new(dst_width).unwrap(), NonZeroU32::new(dst_height).unwrap());
    let source = Image::from_slice_u8(sw, sh, &mut pixels, PixelType::U8x3)
        .map_err(|_| ResizeError::Buffer)?;
    let mut target = Image::new(dw, dh, source.pixel_type());
    let mut resizer = Resizer::new(ResizeAlg::Convolution(FilterType::Bilinear));
    resizer.resize(&source.view(), &mut target.view_mut()).map_err(|_| ResizeError::PixelType)?;
    Ok(target.into_vec())
}

/// Whether the four sizes can be resampled.
pub fn check_sizes(src_width: u32, src_height: u32, dst_width: u32, dst_height: u32) -> (ok: bool)
    ensures
        ok == resizable(src_width, src_height, dst_width, dst_height),
{
    if src_width == 0 || src_height == 0 || dst_width == 0 || dst_height == 0 {
        return false;
    }
    let s: u32 = match src_width.checked_mul(src_height) {
        Some(s) => s,
        None => { return false; },
    };
    let d: u32 = match dst_width.checked_mul(dst_height) {
        Some(d) => d,
        None => { return false; },
    };
    let t: u32 = match dst_width.checked_mul(src_height) {
        Some(t) => t,
        None => { return false; },
    };
    3 * (s as u128) <= usize::MAX as u128 && 3 * (d as u128) <= usize::MAX as u128 && 3 * (
    t as u128) + 3 <= usize::MAX as u128
}

/// Resamples an interleaved red, green, blue frame of `src_width` by
/// `src_height` pixels to `dst_width` by `dst_height`, with bilinear
/// filtering. Sizes that cannot be resampled and a frame that is too short
/// are errors; every other frame gives three bytes for each target pixel,
/// and its own pixels where the size stays the same.
pub fn resample(
    pixels: Vec<u8>,
    src_width: u32,
    src_height: u32,
    dst_width: u32,
    dst_height: u32,
) -> (out: Result<Vec<u8>, ResizeError>)
    ensures
        out is Ok <==> resizable(src_width, src_height, dst_width, dst_height) && pixels@.len()
            >= 3 * (src_width * src_height),
        !resizable(src_width, src_height, dst_width, dst_height) <==> out == Err::<
            Vec<u8>,
            ResizeError,
        >(ResizeError::Dimensions),
        resizable(src_width, src_height, dst_width, dst_height) && pixels@.len() < 3 * (src_width
            * src_height) <==> out == Err::<Vec<u8>, ResizeError>(ResizeError::Buffer),
        out matches Ok(v) ==> v@.len() == 3 * (dst_width * dst_height),
        out matches Ok(v) ==> src_width == dst_width && src_height == dst_height ==> v@
            == pixels@.subrange(0, 3 * (src_width * src_height)),
{
    if !check_sizes(src_width, src_height, dst_width, dst_height) {
        return Err(ResizeError::Dimensions);
    }
    resample_bilinear(pixels, src_width, src_height, dst_width, dst_height)
}

} // verus!
