//! Image preprocessing: decode arbitrary image bytes, resample them to a
//! fixed 384 * 384 pixel grid, and build the normalized tensor the vision
//! encoder expects. Pure: no shared state, safe to run concurrently.
use vstd::prelude::*;
use std::io::Cursor;
use image::ImageReader;
use image::imageops::FilterType;
use crate::errors::CaptionError;
use crate::tensor::{create_tensor, dims_of, processing_failure};

verus! {

/// Number of bytes of a 384 * 384 image with three 8-bit samples per pixel.
pub const RESAMPLED_LEN: usize = 442368;

/// The pixel buffer the image pipeline yields for these bytes — decoding,
/// resampling and RGB8 conversion are deterministic, a function of the bytes
/// alone — or `None` for bytes that do not decode.
pub uninterp spec fn resampled(bytes: Seq<u8>) -> Option<Seq<u8>>;

/// Whether the bytes' signature matches no container format this build can
/// decode.
pub uninterp spec fn unrecognized_signature(bytes: Seq<u8>) -> bool;

/// Relies on the image crate: the container format is auto-detected from the
/// bytes' signature; the payload is decoded; the image is resampled to fill
/// exactly 384 * 384 with the triangle filter, preserving aspect ratio and
/// center-cropping the overflow; and the result is converted to 3-channel
/// 8-bit samples in row-major height * width * channel order, so the buffer
/// holds 384 * 384 * 3 bytes. The whole pipeline is a function of the bytes
/// alone: it succeeds exactly when the bytes resample, and it returns the
/// named buffer. An unrecognized signature cannot decode and is reported as
/// `UnsupportedFormat`; a recognized but invalid payload as `DecodeError`.
/// A payload that decodes to zero pixels (some containers admit zero-sized
/// frames) cannot fill the grid — resampling such an image would misbehave —
/// so it does not resample and is rejected as a `DecodeError` up front.
#[verifier::external_body]
pub fn process_image(image_bytes: &[u8]) -> (r: Result<Vec<u8>, CaptionError>)
    ensures
        r is Ok <==> resampled(image_bytes@) is Some,
        r is Ok ==> Some(r->Ok_0@) == resampled(image_bytes@) && r->Ok_0@.len() == RESAMPLED_LEN,
        r is Err ==> !(r->Err_0 is ProcessingFailure),
        r is Err ==> (r->Err_0 is UnsupportedFormat <==> unrecognized_signature(image_bytes@)),
        r is Ok ==> !unrecognized_signature(image_bytes@),
{
    let reader = match ImageReader::new(Cursor::new(image_bytes)).with_guessed_format() {
        Ok(rd) => rd,
        Err(e) => return Err(CaptionError::DecodeError(e.to_string())),
    };
    let img = match reader.decode() {
        Ok(i) => i,
        Err(image::ImageError::Unsupported(e)) => {
            return Err(CaptionError::UnsupportedFormat(e.to_string()));
        },
        Err(e) => return Err(CaptionError::DecodeError(e.to_string())),
    };
    if img.width() == 0 || img.height() == 0 {
        return Err(CaptionError::DecodeError(String::from("image has zero pixels")));
    }
    Ok(img.resize_to_fill(384, 384, FilterType::Triangle).to_rgb8().into_raw())
}

/// Turns one image's bytes into the fixed-shape normalized tensor: decode and
/// resample the image, then lay the samples out channel-first and normalize
/// them. Every tensor this returns has shape [3, 384, 384]; bytes that do not
/// resample are rejected with the client-caused error their signature earns,
/// before any tensor work; only the tensor stage can fail as a processing
/// failure.
pub fn preprocess(image_bytes: &[u8], device: &candle_core::Device) -> (r: Result<
    candle_core::Tensor,
    CaptionError,
>)
    ensures
        r is Ok ==> dims_of(r->Ok_0) =~= seq![3usize, 384usize, 384usize],
        r is Ok ==> resampled(image_bytes@) is Some,
        resampled(image_bytes@) is None ==> r is Err && !(r->Err_0 is ProcessingFailure) && (
        r->Err_0 is UnsupportedFormat <==> unrecognized_signature(image_bytes@)),
        r is Err && !(r->Err_0 is ProcessingFailure) ==> (r->Err_0 is UnsupportedFormat
            <==> unrecognized_signature(image_bytes@)),
        unrecognized_signature(image_bytes@) ==> r is Err && r->Err_0 is UnsupportedFormat,
{
    let pixels = match process_image(image_bytes) {
        Ok(p) => p,
        Err(e) => {
            return Err(e);
        },
    };
    match create_tensor(&pixels, device) {
        Ok(t) => Ok(t),
        Err(e) => Err(processing_failure(&e)),
    }
}

} // verus!
