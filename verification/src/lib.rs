//! Verified core of a cross-runtime binding around a configuration and
//! service-discovery client.
//!
//! The binding sits between a multi-threaded native client and a host runtime
//! with a single cooperative scheduler.  Everything the binding decides or
//! computes on its own — defaulting of client options, the two-way shims
//! between native records and the flat shapes handed across the boundary, the
//! envelope discipline of the filter pipeline, and the queue/correlation
//! bookkeeping of the callback bridge — lives here with a contract.  The
//! network client itself and the host-runtime plumbing stay outside.

use vstd::prelude::*;

mod bridge;
mod config;
mod filter;
mod naming;
mod options;

pub use bridge::CorrelationBridge;
pub use bridge::DispatchQueue;
pub use bridge::contains_id;
pub use bridge::distinct_ids;
pub use bridge::ids_below;
pub use bridge::lemma_exclusive_correlation;
pub use bridge::lemma_no_cross_talk;
pub use bridge::payload_for;
pub use config::ConfigRecord;
pub use config::NacosConfigResponse;
pub use config::config_content;
pub use config::external_of_record;
pub use config::notify_config_changed;
pub use config::record_to_external;
pub use filter::Envelope;
pub use filter::FilterError;
pub use filter::FilterRequest;
pub use filter::FilterResponse;
pub use filter::NacosConfigReq;
pub use filter::NacosConfigResp;
pub use filter::apply_request_outcome;
pub use filter::apply_response_outcome;
pub use filter::begin_request_filter;
pub use filter::begin_response_filter;
pub use filter::envelope_of_request;
pub use filter::envelope_of_response;
pub use filter::external_of_request;
pub use filter::external_of_response;
pub use filter::is_request_answer;
pub use filter::is_response_answer;
pub use filter::request_answer;
pub use filter::response_answer;
pub use filter::request_envelope;
pub use filter::request_of_external;
pub use filter::response_envelope;
pub use filter::response_of_external;
pub use naming::DEFAULT_WEIGHT_BITS;
pub use naming::NacosServiceInstance;
pub use naming::NacosServiceInstanceView;
pub use naming::ResolvedInstanceQuery;
pub use naming::ServiceInstance;
pub use naming::ServiceInstanceView;
pub use naming::external_of_native;
pub use naming::instance_to_external;
pub use naming::instance_to_native;
pub use naming::instances_to_external;
pub use naming::instances_to_native;
pub use naming::is_complete;
pub use naming::is_empty_event;
pub use naming::is_external_batch_of;
pub use naming::naming_event_batch;
pub use naming::lemma_external_round_trip;
pub use naming::native_of_external;
pub use naming::notify_instances_changed;
pub use naming::resolve_instance_query;
pub use options::ClientOptions;
pub use options::ResolvedClientOptions;
pub use options::default_app_name;
pub use options::resolve_client_options;

verus! {

/// Adds two numbers.
pub fn sum(a: i32, b: i32) -> (r: i32)
    requires
        i32::MIN <= a + b <= i32::MAX,
    ensures
        r == a + b,
{
    a + b
}

} // verus!
