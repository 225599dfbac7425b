//! Core of an image-captioning service: deterministic image preprocessing,
//! an autoregressive caption-generation engine over cached encoder/decoder
//! models, an incremental token-to-text streaming decoder, and the
//! admission-controlled request-serving decisions.

pub mod device;
pub mod engine;
pub mod errors;
pub mod gate;
pub mod model_loader;
pub mod preprocess;
pub mod service;
pub mod tensor;
pub mod token_stream;
