//! Request-serving decisions: request validation, the admission decision made
//! before any work is spawned, and the mapping from a worker's outcome to the
//! response of the originating request.
//!
//! The serving layer around these decisions is asynchronous; everything it
//! decides — which requests are rejected, when a permit is taken, what each
//! worker outcome turns into — is the pure logic here.
use vstd::prelude::*;
use vstd::string::StringExecFns;
use crate::errors::RpcError;
use crate::gate::AdmissionGate;

verus! {

/// One captioning request: a model selector code and the raw image bytes.
#[derive(Debug)]
pub struct ImgProcRequest {
    pub model: i32,
    pub image: Vec<u8>,
}

/// The reply to one captioning request.
#[derive(Debug)]
pub struct ImgProcResponse {
    pub description: String,
}

/// The model variants a request may select.
#[derive(Clone, Copy, PartialEq, Eq, Structural, Debug)]
pub enum ModelType {
    Blip,
    BlipQuantized,
}

impl ModelType {
    /// The wire encoding of the model selector: code 0 selects the
    /// full-precision variant, code 1 the quantized one; every other code is
    /// out of range.
    pub open spec fn spec_from_code(code: i32) -> Option<ModelType> {
        if code == 0 {
            Some(ModelType::Blip)
        } else if code == 1 {
            Some(ModelType::BlipQuantized)
        } else {
            None
        }
    }

    pub fn try_from_code(code: i32) -> (r: Option<ModelType>)
        ensures
            r == ModelType::spec_from_code(code),
    {
        if code == 0 {
            Some(ModelType::Blip)
        } else if code == 1 {
            Some(ModelType::BlipQuantized)
        } else {
            None
        }
    }
}

/// A request is well-formed when its image is non-empty and its model code is
/// in range.
pub open spec fn valid_request(req: ImgProcRequest) -> bool {
    req.image@.len() > 0 && ModelType::spec_from_code(req.model) is Some
}

/// Checks that a request is well-formed: the image must be non-empty and the
/// model code must name a known variant. Returns the resolved variant, or the
/// `InvalidArgument` that rejects the request.
pub fn validate_request(req: &ImgProcRequest) -> (r: Result<ModelType, RpcError>)
    ensures
        r is Ok <==> valid_request(*req),
        r is Ok ==> Some(r->Ok_0) == ModelType::spec_from_code(req.model),
        r is Err ==> r->Err_0 is InvalidArgument,
        req.image@.len() == 0 ==> (r matches Err(RpcError::InvalidArgument(m)) && m@
            == "Empty vector of bytes"@),
        req.image@.len() > 0 && ModelType::spec_from_code(req.model) is None ==> (r matches Err(
            RpcError::InvalidArgument(m),
        ) && m@ == "Invalid model type"@),
{
    if req.image.len() == 0 {
        return Err(RpcError::InvalidArgument("Empty vector of bytes".to_owned()));
    }
    match ModelType::try_from_code(req.model) {
        Some(m) => Ok(m),
        None => Err(RpcError::InvalidArgument("Invalid model type".to_owned())),
    }
}

/// What the serving loop does with one inbound request.
pub enum AdmissionDecision {
    /// The request is malformed; it is answered at once and touches neither
    /// the admission gate nor the engine.
    Reject(RpcError),
    /// The request is well-formed but the admission gate is saturated: the caller must
    /// suspend until a permit is free, then ask again.
    Wait,
    /// A permit was taken; inference work for this variant may start.
    Start(ModelType),
}

/// The admission decision for one inbound request: validate first, and only
/// for a well-formed request ask the admission gate for a permit. A malformed request
/// is rejected before the admission gate is touched; a well-formed one takes its permit
/// before any work is spawned, which is what makes the admission gate a backpressure
/// mechanism.
pub fn admit_request(gate: &mut AdmissionGate, req: &ImgProcRequest) -> (r: AdmissionDecision)
    requires
        old(gate).wf(),
    ensures
        final(gate).wf(),
        final(gate).spec_capacity() == old(gate).spec_capacity(),
        !valid_request(*req) ==> (r matches AdmissionDecision::Reject(e) && e is InvalidArgument
            && final(gate).spec_in_use() == old(gate).spec_in_use()),
        valid_request(*req) && old(gate).saturated() ==> r is Wait && final(gate).spec_in_use()
            == old(gate).spec_in_use(),
        valid_request(*req) && !old(gate).saturated() ==> (r matches AdmissionDecision::Start(m)
            && Some(m) == ModelType::spec_from_code(req.model) && final(gate).spec_in_use() == old(
            gate,
        ).spec_in_use() + 1),
{
    let model = match validate_request(req) {
        Ok(m) => m,
        Err(e) => {
            return AdmissionDecision::Reject(e);
        },
    };
    if gate.try_acquire() {
        AdmissionDecision::Start(model)
    } else {
        AdmissionDecision::Wait
    }
}

/// How one unit of inference work ended.
pub enum WorkerOutcome {
    /// The caption that generation produced.
    Completed(String),
    /// A domain processing error, with its message.
    Failed(String),
    /// The worker itself crashed; the message describes the crash.
    Crashed(String),
}

/// Turns a worker outcome into the response of its originating request:
/// success becomes the caption reply; a domain error and a worker crash each
/// become an `Internal` error carrying the underlying message.
pub fn outcome_response(outcome: WorkerOutcome) -> (r: Result<ImgProcResponse, RpcError>)
    ensures
        outcome matches WorkerOutcome::Completed(d) ==> (r matches Ok(resp) && resp.description@
            == d@),
        outcome matches WorkerOutcome::Failed(m) ==> (r matches Err(RpcError::Internal(s)) && s@
            == "Error processing image: "@ + m@),
        outcome matches WorkerOutcome::Crashed(m) ==> (r matches Err(RpcError::Internal(s)) && s@
            == "Error executing blocking task: "@ + m@),
{
    match outcome {
        WorkerOutcome::Completed(d) => Ok(ImgProcResponse { description: d }),
        WorkerOutcome::Failed(m) => {
            let mut s = "Error processing image: ".to_owned();
            s.append(m.as_str());
            Err(RpcError::Internal(s))
        },
        WorkerOutcome::Crashed(m) => {
            let mut s = "Error executing blocking task: ".to_owned();
            s.append(m.as_str());
            Err(RpcError::Internal(s))
        },
    }
}

/// The validation verdict of every item of an inbound stream, in order: each
/// inbound item gets exactly one verdict, so each yields exactly one outbound
/// response.
pub open spec fn batch_verdicts(reqs: Seq<ImgProcRequest>) -> Seq<bool> {
    reqs.map_values(|r: ImgProcRequest| valid_request(r))
}

/// How many items of the stream are rejected at validation.
pub open spec fn count_rejected(reqs: Seq<ImgProcRequest>) -> nat
    decreases reqs.len(),
{
    if reqs.len() == 0 {
        0
    } else {
        count_rejected(reqs.drop_last()) + if !valid_request(reqs.last()) {
            1nat
        } else {
            0nat
        }
    }
}

/// A stream of well-formed requests has no rejected item.
pub proof fn lemma_count_rejected_all_valid(reqs: Seq<ImgProcRequest>)
    requires
        forall|i: int| 0 <= i < reqs.len() ==> valid_request(#[trigger] reqs[i]),
    ensures
        count_rejected(reqs) == 0,
    decreases reqs.len(),
{
    if reqs.len() > 0 {
        lemma_count_rejected_all_valid(reqs.drop_last());
    }
}

/// Per-item isolation of the batch path: a single malformed item among
/// otherwise well-formed requests is the one and only item rejected at
/// validation; every other item is admitted, each item gets exactly one
/// verdict, and the verdict of an item depends on that item alone — the
/// malformed one does not end the stream for its siblings.
pub proof fn lemma_batch_per_item_isolation(reqs: Seq<ImgProcRequest>, k: int)
    requires
        0 <= k < reqs.len(),
        !valid_request(reqs[k]),
        forall|i: int| 0 <= i < reqs.len() && i != k ==> valid_request(#[trigger] reqs[i]),
    ensures
        batch_verdicts(reqs).len() == reqs.len(),
        !batch_verdicts(reqs)[k],
        forall|i: int| 0 <= i < reqs.len() && i != k ==> batch_verdicts(reqs)[i],
        count_rejected(reqs) == 1,
    decreases reqs.len(),
{
    if k == reqs.len() - 1 {
        lemma_count_rejected_all_valid(reqs.drop_last());
    } else {
        lemma_batch_per_item_isolation(reqs.drop_last(), k);
    }
}

} // verus!
