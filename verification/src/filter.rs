//! The synchronous filter pipeline: envelopes, the blocking round trip, and
//! the write-back of the host side's answer.
//!
//! The native client lets the embedding code rewrite a request before it is
//! sent, or a response after it is received.  The rewriting logic runs on the
//! host runtime, so each filter call crosses the boundary as a blocking round
//! trip over the [`CorrelationBridge`](crate::bridge::CorrelationBridge): the
//! value travels out in an [`Envelope`] with exactly one side populated, and
//! the answer comes back as a whole value that replaces every field of the
//! native record.  When the host side fails, or answers with the wrong side,
//! the native record is left exactly as it was and the call fails with a
//! descriptive error instead.

use vstd::prelude::*;

use crate::bridge::CorrelationBridge;

verus! {

/// The request record as the host runtime sees it during a request-side
/// filter call.
#[derive(Clone, Debug, PartialEq)]
pub struct NacosConfigReq {
    /// Data id.
    pub data_id: String,
    /// Group.
    pub group: String,
    /// Namespace / tenant.
    pub namespace: String,
    /// Content.
    pub content: String,
    /// Encrypted data key of the content.
    pub encrypted_data_key: String,
}

/// The response record as the host runtime sees it during a response-side
/// filter call.
#[derive(Clone, Debug, PartialEq)]
pub struct NacosConfigResp {
    /// Data id.
    pub data_id: String,
    /// Group.
    pub group: String,
    /// Namespace / tenant.
    pub namespace: String,
    /// Content.
    pub content: String,
    /// Encrypted data key of the content.
    pub encrypted_data_key: String,
}

/// The binding's own copy of the native request record a request-side filter
/// call rewrites.
#[derive(Clone, Debug, PartialEq)]
pub struct FilterRequest {
    /// Data id.
    pub data_id: String,
    /// Group.
    pub group: String,
    /// Namespace / tenant.
    pub namespace: String,
    /// Content.
    pub content: String,
    /// Encrypted data key of the content.
    pub encrypted_data_key: String,
}

/// The binding's own copy of the native response record a response-side
/// filter call rewrites.
#[derive(Clone, Debug, PartialEq)]
pub struct FilterResponse {
    /// Data id.
    pub data_id: String,
    /// Group.
    pub group: String,
    /// Namespace / tenant.
    pub namespace: String,
    /// Content.
    pub content: String,
    /// Encrypted data key of the content.
    pub encrypted_data_key: String,
}

/// The boundary shape of a native request record: the same fields, verbatim.
pub open spec fn external_of_request(r: FilterRequest) -> NacosConfigReq {
    NacosConfigReq {
        data_id: r.data_id,
        group: r.group,
        namespace: r.namespace,
        content: r.content,
        encrypted_data_key: r.encrypted_data_key,
    }
}

/// The native shape of a request record answered by the host side.
pub open spec fn request_of_external(e: NacosConfigReq) -> FilterRequest {
    FilterRequest {
        data_id: e.data_id,
        group: e.group,
        namespace: e.namespace,
        content: e.content,
        encrypted_data_key: e.encrypted_data_key,
    }
}

/// The boundary shape of a native response record: the same fields, verbatim.
pub open spec fn external_of_response(r: FilterResponse) -> NacosConfigResp {
    NacosConfigResp {
        data_id: r.data_id,
        group: r.group,
        namespace: r.namespace,
        content: r.content,
        encrypted_data_key: r.encrypted_data_key,
    }
}

/// The native shape of a response record answered by the host side.
pub open spec fn response_of_external(e: NacosConfigResp) -> FilterResponse {
    FilterResponse {
        data_id: e.data_id,
        group: e.group,
        namespace: e.namespace,
        content: e.content,
        encrypted_data_key: e.encrypted_data_key,
    }
}

/// The pair passed across the boundary for a filter call.  A well-formed
/// envelope carries a request or a response, never both and never neither.
#[derive(Clone, Debug, PartialEq)]
pub struct Envelope {
    /// The request side, populated for a request-side filter call.
    pub request: Option<NacosConfigReq>,
    /// The response side, populated for a response-side filter call.
    pub response: Option<NacosConfigResp>,
}

impl Envelope {
    /// Exactly one side is populated.
    pub open spec fn wf(&self) -> bool {
        self.request is Some <==> self.response is None
    }
}

/// The envelope of a request-side filter call.
pub open spec fn envelope_of_request(e: NacosConfigReq) -> Envelope {
    Envelope { request: Some(e), response: None }
}

/// The envelope of a response-side filter call.
pub open spec fn envelope_of_response(e: NacosConfigResp) -> Envelope {
    Envelope { request: None, response: Some(e) }
}

/// Wraps a request for its trip across the boundary; only the request side
/// is populated.
pub fn request_envelope(request: NacosConfigReq) -> (e: Envelope)
    ensures
        e == envelope_of_request(request),
        e.wf(),
{
    Envelope { request: Some(request), response: None }
}

/// Wraps a response for its trip across the boundary; only the response side
/// is populated.
pub fn response_envelope(response: NacosConfigResp) -> (e: Envelope)
    ensures
        e == envelope_of_response(response),
        e.wf(),
{
    Envelope { request: None, response: Some(response) }
}

/// Why a filter round trip failed.
#[derive(Clone, Copy, Debug, PartialEq, Eq, Structural)]
pub enum FilterError {
    /// The host-side filter failed or its runtime never answered.
    CallbackFailed,
    /// The host side answered, but without the side this call sent out.
    SideMissing,
}

impl FilterError {
    /// A human-readable description for the error surfaced to the native
    /// caller.
    pub fn message(&self) -> (m: &'static str)
        ensures
            *self is CallbackFailed ==> m@ == "the host-side filter failed before producing a result"@,
            *self is SideMissing ==> m@ == "the host-side filter answered with the wrong envelope side"@,
    {
        match self {
            FilterError::CallbackFailed => "the host-side filter failed before producing a result",
            FilterError::SideMissing => "the host-side filter answered with the wrong envelope side",
        }
    }
}

/// The host side answered the call with an envelope of the expected request
/// side and no other.
pub open spec fn is_request_answer(outcome: Option<Envelope>) -> bool {
    match outcome {
        Some(env) => env.request is Some && env.response is None,
        None => false,
    }
}

/// The request the host side answered with.
pub open spec fn request_answer(outcome: Option<Envelope>) -> NacosConfigReq {
    outcome->0.request->0
}

/// The host side answered the call with an envelope of the expected response
/// side and no other.
pub open spec fn is_response_answer(outcome: Option<Envelope>) -> bool {
    match outcome {
        Some(env) => env.response is Some && env.request is None,
        None => false,
    }
}

/// The response the host side answered with.
pub open spec fn response_answer(outcome: Option<Envelope>) -> NacosConfigResp {
    outcome->0.response->0
}

/// Issues a request-side filter call: the request crosses the boundary in a
/// request-only envelope under a fresh correlation id.
pub fn begin_request_filter(
    bridge: &mut CorrelationBridge<Envelope>,
    request: FilterRequest,
) -> (id: u64)
    requires
        old(bridge).wf(),
        old(bridge).next_id() < u64::MAX,
    ensures
        final(bridge).wf(),
        id == old(bridge).next_id(),
        final(bridge).pending() == old(bridge).pending().push(
            (id, envelope_of_request(external_of_request(request))),
        ),
        final(bridge).completed() == old(bridge).completed(),
        final(bridge).next_id() == id + 1,
{
    let external = NacosConfigReq {
        data_id: request.data_id,
        group: request.group,
        namespace: request.namespace,
        content: request.content,
        encrypted_data_key: request.encrypted_data_key,
    };
    let envelope = request_envelope(external);
    bridge.begin_call(envelope)
}

/// Issues a response-side filter call: the response crosses the boundary in
/// a response-only envelope under a fresh correlation id.
pub fn begin_response_filter(
    bridge: &mut CorrelationBridge<Envelope>,
    response: FilterResponse,
) -> (id: u64)
    requires
        old(bridge).wf(),
        old(bridge).next_id() < u64::MAX,
    ensures
        final(bridge).wf(),
        id == old(bridge).next_id(),
        final(bridge).pending() == old(bridge).pending().push(
            (id, envelope_of_response(external_of_response(response))),
        ),
        final(bridge).completed() == old(bridge).completed(),
        final(bridge).next_id() == id + 1,
{
    let external = NacosConfigResp {
        data_id: response.data_id,
        group: response.group,
        namespace: response.namespace,
        content: response.content,
        encrypted_data_key: response.encrypted_data_key,
    };
    let envelope = response_envelope(external);
    bridge.begin_call(envelope)
}

/// Writes the host side's answer back into the native request record.  A
/// request-only answer replaces every field — a full replace, not a merge.
/// No answer, or an answer without a request side, leaves the record exactly
/// as it was and fails with a descriptive error, so a failed filter never
/// corrupts the value the client goes on with.
pub fn apply_request_outcome(
    request: &mut FilterRequest,
    outcome: Option<Envelope>,
) -> (r: Result<(), FilterError>)
    ensures
        is_request_answer(outcome)
            ==> r is Ok && *final(request) == request_of_external(request_answer(outcome)),
        outcome is None
            ==> r == Err::<(), FilterError>(FilterError::CallbackFailed)
                && *final(request) == *old(request),
        outcome matches Some(env) && (env.request is None || env.response is Some)
            ==> r == Err::<(), FilterError>(FilterError::SideMissing)
                && *final(request) == *old(request),
{
    match outcome {
        None => Err(FilterError::CallbackFailed),
        Some(envelope) => {
            if envelope.response.is_some() {
                Err(FilterError::SideMissing)
            } else {
                match envelope.request {
                    None => Err(FilterError::SideMissing),
                    Some(answer) => {
                        *request = FilterRequest {
                            data_id: answer.data_id,
                            group: answer.group,
                            namespace: answer.namespace,
                            content: answer.content,
                            encrypted_data_key: answer.encrypted_data_key,
                        };
                        Ok(())
                    },
                }
            }
        },
    }
}

/// Writes the host side's answer back into the native response record, under
/// the same full-replace and keep-on-failure rules as the request side.
pub fn apply_response_outcome(
    response: &mut FilterResponse,
    outcome: Option<Envelope>,
) -> (r: Result<(), FilterError>)
    ensures
        is_response_answer(outcome)
            ==> r is Ok && *final(response) == response_of_external(response_answer(outcome)),
        outcome is None
            ==> r == Err::<(), FilterError>(FilterError::CallbackFailed)
                && *final(response) == *old(response),
        outcome matches Some(env) && (env.response is None || env.request is Some)
            ==> r == Err::<(), FilterError>(FilterError::SideMissing)
                && *final(response) == *old(response),
{
    match outcome {
        None => Err(FilterError::CallbackFailed),
        Some(envelope) => {
            if envelope.request.is_some() {
                Err(FilterError::SideMissing)
            } else {
                match envelope.response {
                    None => Err(FilterError::SideMissing),
                    Some(answer) => {
                        *response = FilterResponse {
                            data_id: answer.data_id,
                            group: answer.group,
                            namespace: answer.namespace,
                            content: answer.content,
                            encrypted_data_key: answer.encrypted_data_key,
                        };
                        Ok(())
                    },
                }
            }
        },
    }
}

} // verus!
