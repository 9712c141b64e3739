//! Configuration records and the shims that carry them across the boundary.
//!
//! The native client hands the binding a configuration record on every fetch
//! and on every change notification.  [`ConfigRecord`] is the binding's flat,
//! fully-owned copy of that record; [`NacosConfigResponse`] is the shape the
//! host runtime sees.  Crossing the boundary is a field-for-field copy with
//! no defaulting in either direction.

use vstd::prelude::*;

use crate::bridge::DispatchQueue;

verus! {

/// The binding's own copy of a configuration record as the native client
/// reports it.  Every field is owned here; nothing aliases the client's
/// internal copy.
#[derive(Clone, Debug)]
pub struct ConfigRecord {
    /// Namespace / tenant.
    pub namespace: String,
    /// Data id.
    pub data_id: String,
    /// Group.
    pub group: String,
    /// Content.
    pub content: String,
    /// Content type, e.g. json, properties, xml, html, text, yaml.
    pub content_type: String,
    /// Content digest.
    pub md5: String,
}

/// The flat configuration record handed to the host runtime.
#[derive(Clone, Debug)]
pub struct NacosConfigResponse {
    /// Namespace / tenant.
    pub namespace: String,
    /// Data id.
    pub data_id: String,
    /// Group.
    pub group: String,
    /// Content.
    pub content: String,
    /// Content type, e.g. json, properties, xml, html, text, yaml.
    pub content_type: String,
    /// Content digest.
    pub md5: String,
}

/// The boundary shape of a native configuration record: the same six fields,
/// copied verbatim.
pub open spec fn external_of_record(record: ConfigRecord) -> NacosConfigResponse {
    NacosConfigResponse {
        namespace: record.namespace,
        data_id: record.data_id,
        group: record.group,
        content: record.content,
        content_type: record.content_type,
        md5: record.md5,
    }
}

/// Carries a native configuration record across the boundary, field for
/// field, with no defaulting.
pub fn record_to_external(record: ConfigRecord) -> (r: NacosConfigResponse)
    ensures
        r == external_of_record(record),
{
    NacosConfigResponse {
        namespace: record.namespace,
        data_id: record.data_id,
        group: record.group,
        content: record.content,
        content_type: record.content_type,
        md5: record.md5,
    }
}

/// The content a plain `get` returns out of a full configuration record.
pub fn config_content(response: NacosConfigResponse) -> (content: String)
    ensures
        content == response.content,
{
    response.content
}

/// A configuration change arrived from the native client: its record is
/// converted and queued for the registered listener, behind everything
/// queued before it.  The notifying thread does no delivery of its own.
pub fn notify_config_changed(
    queue: &mut DispatchQueue<NacosConfigResponse>,
    record: ConfigRecord,
)
    ensures
        final(queue)@ == old(queue)@.push(external_of_record(record)),
{
    let response = record_to_external(record);
    queue.dispatch(response);
}

} // verus!
