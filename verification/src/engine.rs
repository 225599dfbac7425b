//! The caption-generation engine: a registry of the two loaded model
//! variants, shared read-only across requests, and the autoregressive greedy
//! decode loop. Decoding mutates a model's internal cache, so each generation
//! clones its variant from the registry and works on the private clone — the
//! registry entry itself is never mutated.
use vstd::prelude::*;
use candle_core::Module;
use candle_transformers::models::blip;
use candle_transformers::models::quantized_blip;
use candle_transformers::generation::{LogitsProcessor, Sampling};
use crate::errors::CaptionError;
use crate::preprocess::{preprocess, resampled, unrecognized_signature};
use crate::service::ModelType;
use crate::tensor::{
    dims_of, get_index, leading_dim, processing_failure, squeeze_batch, tokens_to_tensor,
    unsqueeze_batch,
};
use crate::token_stream::{decode_tokens, decode_failure, decoded, string_from_chars, copy_window};

verus! {

#[verifier::external_type_specification]
#[verifier::external_body]
pub struct ExBlip(blip::BlipForConditionalGeneration);

#[verifier::external_type_specification]
#[verifier::external_body]
pub struct ExQuantizedBlip(quantized_blip::BlipForConditionalGeneration);

/// Token id a generated sequence begins with.
pub const BOS_TOKEN_ID: u32 = 30522;

/// Separator token id whose selection ends a generated sequence; it is never
/// part of the sequence itself.
pub const SEP_TOKEN_ID: u32 = 102;

/// Hard cap on decode steps for one caption: generation always halts within
/// this many steps, and reaching the cap simply truncates the caption.
pub const MAX_GENERATION_STEPS: usize = 1000;

/// Relies on blip's vision model forward pass: encodes the batched image
/// tensor to its embedding, a rank-3 tensor (batch, sequence, hidden) that
/// keeps the input's batch dimension.
#[verifier::external_body]
fn blip_vision_forward(m: &blip::BlipForConditionalGeneration, xs: &candle_core::Tensor) -> (r:
    Result<candle_core::Tensor, candle_core::Error>)
    ensures
        r is Ok ==> dims_of(*xs).len() > 0 && dims_of(r->Ok_0).len() == 3 && dims_of(r->Ok_0)[0]
            == dims_of(*xs)[0],
{
    m.vision_model().forward(xs)
}

/// Relies on quantized blip's vision model forward pass; shaped as the
/// full-precision one.
#[verifier::external_body]
fn quantized_vision_forward(
    m: &quantized_blip::BlipForConditionalGeneration,
    xs: &candle_core::Tensor,
) -> (r: Result<candle_core::Tensor, candle_core::Error>)
    ensures
        r is Ok ==> dims_of(*xs).len() > 0 && dims_of(r->Ok_0).len() == 3 && dims_of(r->Ok_0)[0]
            == dims_of(*xs)[0],
{
    m.vision_model().forward(xs)
}

/// Relies on blip's text decoder forward pass: one decode step over the given
/// input ids and image embedding; the decoder's internal cache carries the
/// earlier context. The logits come back rank 3 (batch, sequence, vocabulary)
/// with the input ids' batch dimension.
#[verifier::external_body]
fn blip_text_forward(
    m: &mut blip::BlipForConditionalGeneration,
    xs: &candle_core::Tensor,
    img_xs: &candle_core::Tensor,
) -> (r: Result<candle_core::Tensor, candle_core::Error>)
    ensures
        r is Ok ==> dims_of(*xs).len() > 0 && dims_of(r->Ok_0).len() == 3 && dims_of(r->Ok_0)[0]
            == dims_of(*xs)[0],
{
    m.text_decoder().forward(xs, img_xs)
}

/// Relies on quantized blip's text decoder forward pass; shaped as the
/// full-precision one.
#[verifier::external_body]
fn quantized_text_forward(
    m: &mut quantized_blip::BlipForConditionalGeneration,
    xs: &candle_core::Tensor,
    img_xs: &candle_core::Tensor,
) -> (r: Result<candle_core::Tensor, candle_core::Error>)
    ensures
        r is Ok ==> dims_of(*xs).len() > 0 && dims_of(r->Ok_0).len() == 3 && dims_of(r->Ok_0)[0]
            == dims_of(*xs)[0],
{
    m.text_decoder().forward(xs, img_xs)
}

/// Relies on blip's reset_kv_cache: clears the decoder's cached context.
#[verifier::external_body]
fn blip_reset_cache(m: &mut blip::BlipForConditionalGeneration) {
    m.reset_kv_cache()
}

/// Relies on quantized blip's reset_kv_cache.
#[verifier::external_body]
fn quantized_reset_cache(m: &mut quantized_blip::BlipForConditionalGeneration) {
    m.reset_kv_cache()
}

/// Relies on blip's derived Clone: duplicates the model, cache included.
#[verifier::external_body]
fn blip_clone(m: &blip::BlipForConditionalGeneration) -> (r: blip::BlipForConditionalGeneration) {
    m.clone()
}

/// Relies on quantized blip's derived Clone.
#[verifier::external_body]
fn quantized_clone(m: &quantized_blip::BlipForConditionalGeneration) -> (r:
    quantized_blip::BlipForConditionalGeneration) {
    m.clone()
}

/// Relies on candle's LogitsProcessor with arg-max sampling: the index of the
/// largest logit, selected deterministically (the seed is irrelevant under
/// arg-max).
#[verifier::external_body]
fn sample_argmax(logits: &candle_core::Tensor) -> (r: Result<u32, candle_core::Error>) {
    LogitsProcessor::from_sampling(1337, Sampling::ArgMax).sample(logits)
}

/// One loaded captioning model: the full-precision or the quantized
/// implementation, behind one operation surface. Dispatch is a data-driven
/// branch over the tag.
pub enum ModelVariant {
    Blip(blip::BlipForConditionalGeneration),
    QuantizedBlip(quantized_blip::BlipForConditionalGeneration),
}

impl ModelVariant {
    /// Vision-encode: forward pass of the variant's vision model over the
    /// batched image tensor; the embedding is rank 3 and keeps the batch
    /// dimension.
    pub fn forward(&self, xs: &candle_core::Tensor) -> (r: Result<
        candle_core::Tensor,
        candle_core::Error,
    >)
        ensures
            r is Ok ==> dims_of(*xs).len() > 0 && dims_of(r->Ok_0).len() == 3 && dims_of(
                r->Ok_0,
            )[0] == dims_of(*xs)[0],
    {
        match self {
            ModelVariant::Blip(m) => blip_vision_forward(m, xs),
            ModelVariant::QuantizedBlip(m) => quantized_vision_forward(m, xs),
        }
    }

    /// Decode-step: forward pass of the variant's text decoder; mutates the
    /// variant's internal cache and nothing else — the variant stays the same
    /// implementation. The logits are rank 3 with the input ids' batch
    /// dimension.
    pub fn text_decoder_forward(
        &mut self,
        xs: &candle_core::Tensor,
        img_xs: &candle_core::Tensor,
    ) -> (r: Result<candle_core::Tensor, candle_core::Error>)
        ensures
            *final(self) is Blip <==> *old(self) is Blip,
            r is Ok ==> dims_of(*xs).len() > 0 && dims_of(r->Ok_0).len() == 3 && dims_of(
                r->Ok_0,
            )[0] == dims_of(*xs)[0],
    {
        match self {
            ModelVariant::Blip(m) => blip_text_forward(m, xs, img_xs),
            ModelVariant::QuantizedBlip(m) => quantized_text_forward(m, xs, img_xs),
        }
    }

    /// Clears the variant's cached decode context; the variant stays the
    /// same implementation.
    pub fn reset_kv_cache(&mut self)
        ensures
            *final(self) is Blip <==> *old(self) is Blip,
    {
        match self {
            ModelVariant::Blip(m) => blip_reset_cache(m),
            ModelVariant::QuantizedBlip(m) => quantized_reset_cache(m),
        }
    }

    /// A private copy of the variant, for one generation's exclusive use; the
    /// copy is of the same implementation as the original.
    pub fn duplicate(&self) -> (r: ModelVariant)
        ensures
            r is Blip <==> self is Blip,
    {
        match self {
            ModelVariant::Blip(m) => ModelVariant::Blip(blip_clone(m)),
            ModelVariant::QuantizedBlip(m) => ModelVariant::QuantizedBlip(quantized_clone(m)),
        }
    }
}

/// The token-selection policy of the decode loop. Fixed: deterministic
/// arg-max; no randomness enters generation.
pub enum SamplingPolicy {
    ArgMax,
}

/// A sequence of generated token ids as the decode loop builds it: it begins
/// with the beginning-of-sequence id, never contains the separator id, and is
/// bounded by the step cap.
pub open spec fn valid_caption_tokens(toks: Seq<u32>) -> bool {
    &&& toks.len() >= 1
    &&& toks.len() <= 1 + MAX_GENERATION_STEPS
    &&& toks[0] == BOS_TOKEN_ID
    &&& forall|i: int| 0 <= i < toks.len() ==> toks[i] != SEP_TOKEN_ID
}

/// Processes images into captions: holds the read-only registry of both model
/// variants, the device, the tokenizer, and the sampling policy. Shared
/// across all concurrent requests without synchronization — nothing here is
/// mutated after construction.
pub struct ImageProcessor {
    blip: ModelVariant,
    quantized_blip: ModelVariant,
    device: candle_core::Device,
    tokenizer: tokenizers::Tokenizer,
    sampling: SamplingPolicy,
}

impl ImageProcessor {
    pub closed spec fn spec_tokenizer(&self) -> tokenizers::Tokenizer {
        self.tokenizer
    }

    /// Registry completeness: each selectable model type is backed by the
    /// matching implementation. Established at construction, never mutated.
    pub closed spec fn registry_complete(&self) -> bool {
        self.blip is Blip && self.quantized_blip is QuantizedBlip
    }

    /// Builds the processor from both loaded model variants, the tokenizer
    /// and the device. Taking both variants is what makes the registry
    /// complete by construction: a missing variant fails at startup, in the
    /// loading layer, never here.
    pub fn new(
        blip_model: blip::BlipForConditionalGeneration,
        quantized_model: quantized_blip::BlipForConditionalGeneration,
        tokenizer: tokenizers::Tokenizer,
        device: candle_core::Device,
    ) -> (r: ImageProcessor)
        ensures
            r.registry_complete(),
            r.spec_tokenizer() == tokenizer,
    {
        ImageProcessor {
            blip: ModelVariant::Blip(blip_model),
            quantized_blip: ModelVariant::QuantizedBlip(quantized_model),
            device,
            tokenizer,
            sampling: SamplingPolicy::ArgMax,
        }
    }

    /// The registry lookup: total over `ModelType` by construction.
    fn variant_for(&self, model: ModelType) -> (r: &ModelVariant)
        ensures
            model is Blip ==> *r == self.blip,
            model is BlipQuantized ==> *r == self.quantized_blip,
    {
        match model {
            ModelType::Blip => &self.blip,
            ModelType::BlipQuantized => &self.quantized_blip,
        }
    }

    /// Turns an image into a caption: preprocess the bytes to the normalized
    /// tensor, add the leading batch dimension, vision-encode it with the
    /// selected variant, and run the decode loop. Any caption returned is the
    /// tokenizer's rendering of a generated token sequence that begins with
    /// the beginning-of-sequence id, excludes the separator id, and halted
    /// within the step cap. Bytes that do not decode to an image earn their
    /// client-caused error before any tensor or model work is attempted.
    pub fn process_image(&self, model: ModelType, image: &[u8]) -> (r: Result<
        String,
        CaptionError,
    >)
        ensures
            r is Ok ==> exists|toks: Seq<u32>|
                #[trigger] valid_caption_tokens(toks) && r->Ok_0@ == decoded(
                    self.spec_tokenizer(),
                    toks,
                ),
            resampled(image@) is None ==> r is Err && !(r->Err_0 is ProcessingFailure) && (
            r->Err_0 is UnsupportedFormat <==> unrecognized_signature(image@)),
            unrecognized_signature(image@) ==> r is Err && r->Err_0 is UnsupportedFormat,
    {
        let tensor = match preprocess(image, &self.device) {
            Ok(t) => t,
            Err(e) => {
                return Err(e);
            },
        };
        let batched = match unsqueeze_batch(&tensor) {
            Ok(t) => t,
            Err(e) => {
                return Err(processing_failure(&e));
            },
        };
        let embeddings = match self.variant_for(model).forward(&batched) {
            Ok(t) => t,
            Err(e) => {
                return Err(processing_failure(&e));
            },
        };
        self.generate_text(model, &embeddings)
    }

    /// The autoregressive decode loop. The session state — the growing token
    /// sequence and a private clone of the cache-bearing variant — lives for
    /// this one call. Step 0 feeds the whole sequence (length 1); every later
    /// step feeds only the newest token, the clone's cache carrying the
    /// earlier context. The arg-max token is appended unless it is the
    /// separator, which stops the loop; the loop always halts within the step
    /// cap (truncation is not an error). The caption is the tokenizer's
    /// rendering of the final sequence.
    fn generate_text(&self, model: ModelType, image_embeds: &candle_core::Tensor) -> (r: Result<
        String,
        CaptionError,
    >)
        ensures
            r is Ok ==> exists|toks: Seq<u32>|
                #[trigger] valid_caption_tokens(toks) && r->Ok_0@ == decoded(
                    self.spec_tokenizer(),
                    toks,
                ),
    {
        let mut session_model = self.variant_for(model).duplicate();
        let mut token_ids: Vec<u32> = Vec::new();
        token_ids.push(BOS_TOKEN_ID);

        let mut index: usize = 0;
        while index < MAX_GENERATION_STEPS
            invariant
                1 <= token_ids@.len() <= 1 + index,
                index <= MAX_GENERATION_STEPS,
                token_ids@[0] == BOS_TOKEN_ID,
                forall|i: int| 0 <= i < token_ids@.len() ==> token_ids@[i] != SEP_TOKEN_ID,
            decreases MAX_GENERATION_STEPS - index,
        {
            let context_size: usize = if index > 0 {
                1
            } else {
                token_ids.len()
            };
            let start_pos: usize = token_ids.len() - context_size;
            let window = copy_window(&token_ids, start_pos, token_ids.len());
            let input_ids = match tokens_to_tensor(&window, &self.device) {
                Ok(t) => t,
                Err(e) => {
                    return Err(processing_failure(&e));
                },
            };
            let input_ids = match unsqueeze_batch(&input_ids) {
                Ok(t) => t,
                Err(e) => {
                    return Err(processing_failure(&e));
                },
            };
            let step_logits = match session_model.text_decoder_forward(&input_ids, image_embeds) {
                Ok(t) => t,
                Err(e) => {
                    return Err(processing_failure(&e));
                },
            };
            let step_logits = match squeeze_batch(&step_logits) {
                Ok(t) => t,
                Err(e) => {
                    return Err(processing_failure(&e));
                },
            };
            let steps = match leading_dim(&step_logits) {
                Ok(d) => d,
                Err(e) => {
                    return Err(processing_failure(&e));
                },
            };
            if steps == 0 {
                return Err(CaptionError::ProcessingFailure("empty logits".to_owned()));
            }
            let last_logits = match get_index(&step_logits, steps - 1) {
                Ok(t) => t,
                Err(e) => {
                    return Err(processing_failure(&e));
                },
            };
            let token = match self.sampling {
                SamplingPolicy::ArgMax => match sample_argmax(&last_logits) {
                    Ok(t) => t,
                    Err(e) => {
                        return Err(processing_failure(&e));
                    },
                },
            };
            if token == SEP_TOKEN_ID {
                break ;
            }
            token_ids.push(token);
            index = index + 1;
        }

        let chars = match decode_tokens(&self.tokenizer, &token_ids) {
            Ok(cs) => cs,
            Err(m) => {
                return Err(decode_failure(m));
            },
        };
        let caption = string_from_chars(&chars);
        proof {
            assert(valid_caption_tokens(token_ids@));
        }
        Ok(caption)
    }
}

} // verus!
