//! The inference side: turning an encoded image into the model's input grid,
//! and turning the index of the largest logit into a class label.
//!
//! Note: the grid produced here holds raw intensities, which the caller scales
//! to `[0, 1]` by dividing by 255, while training batches use the mean and
//! standard-deviation normalization of `crate::batch`. Inference inputs are
//! thus not distributed like training inputs. This is kept as it stands, since
//! which scaling is intended is an open question; a caller that wants parity
//! can normalize the grid with `crate::batch::normalize_image` instead.

use vstd::prelude::*;
use crate::batch::PIXELS_PER_IMAGE;

verus! {

/// Width, height and row-major luma pixels of an encoded image, if its bytes
/// decode.
pub uninterp spec fn luma_decoded(bytes: Seq<u8>) -> Option<(u32, u32, Seq<u8>)>;

/// Relies on `image::guess_format`, which recognizes the built-in formats by
/// their signatures, on `image::load_from_memory_with_format`, which decodes
/// with that format (neither consults the hooks that other code may register),
/// and on `DynamicImage::to_luma8`, which builds one 8-bit gray channel with
/// `ImageBuffer::from_vec(width, height, ..)`, so the buffer holds
/// `width * height` bytes.
#[verifier::external_body]
fn decode_luma(bytes: &[u8]) -> (r: Option<(u32, u32, Vec<u8>)>)
    ensures
        r is Some <==> luma_decoded(bytes@) is Some,
        r matches Some((w, h, p)) ==> luma_decoded(bytes@) == Some((w, h, p@)),
        r matches Some((w, h, p)) ==> p@.len() == w * h,
{
    let format = match image::guess_format(bytes) {
        Ok(format) => format,
        Err(_) => return None,
    };
    match image::load_from_memory_with_format(bytes, format) {
        Ok(img) => {
            let gray = img.to_luma8();
            Some((gray.width(), gray.height(), gray.into_raw()))
        },
        Err(_) => None,
    }
}

/// Relies on `image::imageops::resize` with `FilterType::Lanczos3` on a
/// `GrayImage` built by `ImageBuffer::from_raw`: the output buffer is
/// allocated as `new_width` by `new_height`, and an image that already has
/// the target size is copied. The resampled values themselves go through
/// `f32::sin`, whose precision std leaves to the platform, so nothing more is
/// stated of them.
#[verifier::external_body]
fn resize_luma(width: u32, height: u32, pixels: Vec<u8>, new_width: u32, new_height: u32) -> (r:
    Vec<u8>)
    requires
        pixels@.len() == width * height,
        new_width * new_height <= usize::MAX,
    ensures
        r@.len() == new_width * new_height,
        new_width == width && new_height == height ==> r@ == pixels@,
{
    image::GrayImage::from_raw(width, height, pixels).map(
        |img|
            image::imageops::resize(
                &img,
                new_width,
                new_height,
                image::imageops::FilterType::Lanczos3,
            ).into_raw(),
    ).unwrap_or_default()
}

/// Why a prediction cannot be made.
#[derive(Clone, Copy, Debug, PartialEq, Eq, Structural)]
pub enum PredictError {
    /// The image bytes do not decode.
    Decode,
    /// The decoded pixel buffer does not match the decoded dimensions.
    PixelCount,
    /// The index of the largest logit is no class of the model.
    LabelOutOfRange,
}

/// Whether `input` is a model input for a decoded `width` by `height` luma
/// image: a 28 by 28 grid, which is the image itself when it already has that
/// size. Any other size is resampled with the Lanczos filter of radius three.
pub open spec fn fits_input(width: u32, height: u32, pixels: Seq<u8>, input: Seq<u8>) -> bool {
    &&& input.len() == PIXELS_PER_IMAGE
    &&& (width == 28 && height == 28 ==> input == pixels)
}

/// Resamples a decoded luma image to the 28 by 28 input grid.
pub fn fit_to_input(width: u32, height: u32, pixels: Vec<u8>) -> (r: Result<Vec<u8>, PredictError>)
    ensures
        r is Ok <==> pixels@.len() == width * height,
        r matches Ok(v) ==> fits_input(width, height, pixels@, v@),
        r is Err ==> r == Err::<Vec<u8>, _>(PredictError::PixelCount),
{
    proof {
        assert(width as int * height as int <= u32::MAX as int * u32::MAX as int) by (nonlinear_arith)
            requires
                width <= u32::MAX,
                height <= u32::MAX,
        ;
    }
    if pixels.len() as u64 != width as u64 * height as u64 {
        return Err(PredictError::PixelCount);
    }
    Ok(resize_luma(width, height, pixels, 28, 28))
}

/// Decodes an encoded image to gray and resamples it to the 28 by 28 input
/// grid of the model: this succeeds exactly on the bytes that decode.
pub fn preprocess_image(bytes: &[u8]) -> (r: Result<Vec<u8>, PredictError>)
    ensures
        r is Ok <==> luma_decoded(bytes@) is Some,
        r matches Ok(v) ==> (luma_decoded(bytes@) matches Some((w, h, p)) && fits_input(
            w,
            h,
            p,
            v@,
        )),
        r is Err ==> r == Err::<Vec<u8>, _>(PredictError::Decode),
{
    match decode_luma(bytes) {
        Some((w, h, p)) => fit_to_input(w, h, p),
        None => Err(PredictError::Decode),
    }
}

/// The class label for the index of the largest logit.
pub fn label_from_index(index: i64, num_classes: usize) -> (r: Result<usize, PredictError>)
    ensures
        r is Ok <==> 0 <= index < num_classes,
        r matches Ok(label) ==> label == index && label < num_classes,
        r is Err ==> r == Err::<usize, _>(PredictError::LabelOutOfRange),
{
    if index < 0 || index as u64 >= num_classes as u64 {
        Err(PredictError::LabelOutOfRange)
    } else {
        Ok(index as usize)
    }
}

} // verus!
