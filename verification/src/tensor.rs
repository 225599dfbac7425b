//! The compute library's tensor type, declared for use throughout the core,
//! and the trusted tensor operations the pipeline is built from. A tensor's
//! numeric contents stay opaque; what the contracts track is its shape,
//! through the `dims_of` name.
use vstd::prelude::*;
use candle_core::{DType, Tensor};
use crate::errors::CaptionError;

verus! {

#[verifier::external_type_specification]
#[verifier::external_body]
pub struct ExTensor(candle_core::Tensor);

#[verifier::external_type_specification]
#[verifier::external_body]
pub struct ExDevice(candle_core::Device);

#[verifier::external_type_specification]
#[verifier::external_body]
pub struct ExCandleError(candle_core::Error);

/// The shape of a tensor: the dimension sizes that the compute library
/// reports for it, outermost first.
pub uninterp spec fn dims_of(t: candle_core::Tensor) -> Seq<usize>;

/// Relies on candle_core::Error's message rendering, for diagnostics only.
#[verifier::external_body]
pub fn candle_error_message(e: &candle_core::Error) -> (r: String) {
    format!("{e}")
}

/// Relies on candle_core::Tensor::from_raw_buffer and Tensor::permute: a
/// 384*384*3 byte buffer in row-major height * width * channel order becomes
/// a tensor of shape [384, 384, 3], and permuting with (2, 0, 1) moves the
/// channel axis first, giving shape [3, 384, 384]; the result is then cast to
/// 32-bit float. The buffer must fill the shape exactly: from_raw_buffer
/// reads the whole 384*384*3 extent of it.
#[verifier::external_body]
fn rgb_to_chw_tensor(pixels: &Vec<u8>, device: &candle_core::Device) -> (r: Result<
    candle_core::Tensor,
    candle_core::Error,
>)
    requires
        pixels@.len() == 442368,
    ensures
        r is Ok ==> dims_of(r->Ok_0) =~= seq![3usize, 384usize, 384usize],
{
    let data = Tensor::from_raw_buffer(pixels.as_slice(), DType::U8, &[384, 384, 3], device)?;
    data.permute((2, 0, 1))?.to_dtype(DType::F32)
}

/// Relies on candle's broadcast arithmetic: scales the samples from byte
/// range to the unit interval, then subtracts the fixed per-channel means and
/// divides by the fixed per-channel standard deviations that the pretrained
/// model expects (means {0.48145466, 0.4578275, 0.40821073} and deviations
/// {0.26862954, 0.2613026, 0.2757771}, held here as integers scaled by 1e8;
/// they must not be altered independently of the model). Broadcasting a
/// [3, 1, 1] operand over a [3, 384, 384] tensor keeps the latter's shape;
/// candle broadcasts both operands, so the shape claim needs the input's
/// shape fixed.
#[verifier::external_body]
fn normalize_chw_tensor(data: &candle_core::Tensor, device: &candle_core::Device) -> (r: Result<
    candle_core::Tensor,
    candle_core::Error,
>)
    requires
        dims_of(*data) =~= seq![3usize, 384usize, 384usize],
    ensures
        r is Ok ==> dims_of(r->Ok_0) =~= dims_of(*data),
{
    let scale = Tensor::new(&[100_000_000u32], device)?.to_dtype(DType::F32)?;
    let byte_max = Tensor::new(&[255u32], device)?.to_dtype(DType::F32)?;
    let mean = Tensor::new(&[48_145_466u32, 45_782_750, 40_821_073], device)?
        .to_dtype(DType::F32)?.broadcast_div(&scale)?.reshape((3, 1, 1))?;
    let std_dev = Tensor::new(&[26_862_954u32, 26_130_260, 27_577_710], device)?
        .to_dtype(DType::F32)?.broadcast_div(&scale)?.reshape((3, 1, 1))?;
    data.broadcast_div(&byte_max)?.broadcast_sub(&mean)?.broadcast_div(&std_dev)
}

/// Creates the normalized tensor of one preprocessed image: the 384*384*3
/// byte buffer is laid out channel-first as a [3, 384, 384] tensor of 32-bit
/// floats, each value ((sample / 255) - channel_mean) / channel_std.
pub fn create_tensor(pixels: &Vec<u8>, device: &candle_core::Device) -> (r: Result<
    candle_core::Tensor,
    candle_core::Error,
>)
    requires
        pixels@.len() == 442368,
    ensures
        r is Ok ==> dims_of(r->Ok_0) =~= seq![3usize, 384usize, 384usize],
{
    let data = match rgb_to_chw_tensor(pixels, device) {
        Ok(t) => t,
        Err(e) => {
            return Err(e);
        },
    };
    normalize_chw_tensor(&data, device)
}

/// Relies on candle_core::Tensor::new over a u32 slice: builds the
/// one-dimensional tensor of the given token ids.
#[verifier::external_body]
pub(crate) fn tokens_to_tensor(tokens: &Vec<u32>, device: &candle_core::Device) -> (r: Result<
    candle_core::Tensor,
    candle_core::Error,
>)
    ensures
        r is Ok ==> dims_of(r->Ok_0) =~= seq![tokens@.len() as usize],
{
    candle_core::Tensor::new(tokens.as_slice(), device)
}

/// Relies on candle_core::Tensor::unsqueeze(0): inserts a leading dimension
/// of size one.
#[verifier::external_body]
pub(crate) fn unsqueeze_batch(t: &candle_core::Tensor) -> (r: Result<
    candle_core::Tensor,
    candle_core::Error,
>)
    ensures
        r is Ok ==> dims_of(r->Ok_0) =~= seq![1usize] + dims_of(*t),
{
    t.unsqueeze(0)
}

/// Relies on candle_core::Tensor::squeeze(0): removes the leading dimension
/// when it has size one, returns the tensor unchanged otherwise, and fails
/// on a tensor of rank zero.
#[verifier::external_body]
pub(crate) fn squeeze_batch(t: &candle_core::Tensor) -> (r: Result<
    candle_core::Tensor,
    candle_core::Error,
>)
    ensures
        r is Ok ==> dims_of(*t).len() > 0 && dims_of(r->Ok_0) =~= (if dims_of(*t)[0] == 1 {
            dims_of(*t).drop_first()
        } else {
            dims_of(*t)
        }),
{
    t.squeeze(0)
}

/// Relies on candle_core::Tensor::dim(0): the size of the leading dimension;
/// fails on a tensor of rank zero.
#[verifier::external_body]
pub(crate) fn leading_dim(t: &candle_core::Tensor) -> (r: Result<usize, candle_core::Error>)
    ensures
        r is Ok ==> dims_of(*t).len() > 0 && r->Ok_0 == dims_of(*t)[0],
{
    t.dim(0)
}

/// Relies on candle_core::Tensor::get: the sub-tensor at the given index of
/// the leading dimension; a rank-zero tensor comes back unchanged.
#[verifier::external_body]
pub(crate) fn get_index(t: &candle_core::Tensor, i: usize) -> (r: Result<
    candle_core::Tensor,
    candle_core::Error,
>) {
    t.get(i)
}

/// Turns a tensor-arithmetic failure into this request's processing error.
pub(crate) fn processing_failure(e: &candle_core::Error) -> (r: CaptionError)
    ensures
        r is ProcessingFailure,
{
    CaptionError::ProcessingFailure(candle_error_message(e))
}

} // verus!
