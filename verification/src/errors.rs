//! Error taxonomy of the captioning core.
//!
//! `CaptionError` classifies failures of the image-to-caption pipeline:
//! client-caused payload problems (`UnsupportedFormat`, `DecodeError`) and
//! server-side processing failures (`ProcessingFailure`). `RpcError` is the
//! response-level error of the serving layer.
use vstd::prelude::*;

verus! {

/// Failure of one caption request inside the pipeline.
#[derive(Debug)]
pub enum CaptionError {
    /// The image bytes' signature matches no known container format.
    UnsupportedFormat(String),
    /// The signature was recognized but the payload is structurally invalid.
    DecodeError(String),
    /// Tensor or model arithmetic failed for this request only.
    ProcessingFailure(String),
}

impl CaptionError {
    /// The diagnostic message carried by the error.
    pub fn message(&self) -> (r: &String)
        ensures
            r@ == self.spec_message(),
    {
        match self {
            CaptionError::UnsupportedFormat(m) => m,
            CaptionError::DecodeError(m) => m,
            CaptionError::ProcessingFailure(m) => m,
        }
    }

    pub open spec fn spec_message(&self) -> Seq<char> {
        match self {
            CaptionError::UnsupportedFormat(m) => m@,
            CaptionError::DecodeError(m) => m@,
            CaptionError::ProcessingFailure(m) => m@,
        }
    }
}

/// Response-level error category of the serving layer, with its message.
#[derive(Debug)]
pub enum RpcError {
    /// Client-caused: empty image or unrecognized model code.
    InvalidArgument(String),
    /// The admission gate is closed and grants no permit.
    ResourceExhausted(String),
    /// Any downstream failure of this one request.
    Internal(String),
}

impl RpcError {
    /// The diagnostic message carried by the error.
    pub fn message(&self) -> (r: &String)
        ensures
            r@ == self.spec_message(),
    {
        match self {
            RpcError::InvalidArgument(m) => m,
            RpcError::ResourceExhausted(m) => m,
            RpcError::Internal(m) => m,
        }
    }

    pub open spec fn spec_message(&self) -> Seq<char> {
        match self {
            RpcError::InvalidArgument(m) => m@,
            RpcError::ResourceExhausted(m) => m@,
            RpcError::Internal(m) => m@,
        }
    }
}

} // verus!
