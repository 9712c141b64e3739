//! Service instance records and the shims that carry them across the
//! boundary.
//!
//! A service instance crosses the boundary in two shapes: the native shape
//! the client works with, where every field is definite, and the external
//! shape the host runtime sees, where most fields are optional.  Going from
//! external to native, absent optional fields get their documented defaults;
//! going back, every field is present and copied verbatim, so a record whose
//! optional fields are all present round-trips unchanged.
//!
//! The weight travels as the bit pattern of a 64-bit IEEE 754 number; the
//! binding never computes with it, it only carries and defaults it.

use vstd::prelude::*;

use crate::bridge::DispatchQueue;

verus! {

/// Bit pattern of the default weight, a 64-bit IEEE 754 one.
pub const DEFAULT_WEIGHT_BITS: u64 = 0x3FF0_0000_0000_0000;

/// The flat service instance record handed across the boundary.  Optional
/// fields left absent receive defaults on the way to the native shape.
#[derive(Clone, Debug, PartialEq)]
pub struct NacosServiceInstance {
    /// Instance id.
    pub instance_id: Option<String>,
    /// Ip.
    pub ip: String,
    /// Port.
    pub port: i32,
    /// Weight as IEEE 754 bits; defaults to the bits of one.
    pub weight: Option<u64>,
    /// Healthy or not; defaults to true.
    pub healthy: Option<bool>,
    /// Enabled or not; defaults to true.
    pub enabled: Option<bool>,
    /// Ephemeral or not; defaults to true.
    pub ephemeral: Option<bool>,
    /// Cluster name.
    pub cluster_name: Option<String>,
    /// Service name.
    pub service_name: Option<String>,
    /// Metadata entries; default to none at all.
    pub metadata: Option<Vec<(String, String)>>,
}

/// The binding's own copy of a service instance in the shape the native
/// client works with: every defaulted field is definite.
#[derive(Clone, Debug, PartialEq)]
pub struct ServiceInstance {
    /// Instance id.
    pub instance_id: Option<String>,
    /// Ip.
    pub ip: String,
    /// Port.
    pub port: i32,
    /// Weight as IEEE 754 bits.
    pub weight: u64,
    /// Healthy or not.
    pub healthy: bool,
    /// Enabled or not.
    pub enabled: bool,
    /// Ephemeral or not.
    pub ephemeral: bool,
    /// Cluster name.
    pub cluster_name: Option<String>,
    /// Service name.
    pub service_name: Option<String>,
    /// Metadata entries.
    pub metadata: Vec<(String, String)>,
}

/// Mathematical shape of an external instance record.
#[verifier::ext_equal]
pub struct NacosServiceInstanceView {
    pub instance_id: Option<Seq<char>>,
    pub ip: Seq<char>,
    pub port: i32,
    pub weight: Option<u64>,
    pub healthy: Option<bool>,
    pub enabled: Option<bool>,
    pub ephemeral: Option<bool>,
    pub cluster_name: Option<Seq<char>>,
    pub service_name: Option<Seq<char>>,
    pub metadata: Option<Seq<(Seq<char>, Seq<char>)>>,
}

/// Mathematical shape of a native instance record.
#[verifier::ext_equal]
pub struct ServiceInstanceView {
    pub instance_id: Option<Seq<char>>,
    pub ip: Seq<char>,
    pub port: i32,
    pub weight: u64,
    pub healthy: bool,
    pub enabled: bool,
    pub ephemeral: bool,
    pub cluster_name: Option<Seq<char>>,
    pub service_name: Option<Seq<char>>,
    pub metadata: Seq<(Seq<char>, Seq<char>)>,
}

impl View for NacosServiceInstance {
    type V = NacosServiceInstanceView;

    open spec fn view(&self) -> NacosServiceInstanceView {
        NacosServiceInstanceView {
            instance_id: self.instance_id.deep_view(),
            ip: self.ip.deep_view(),
            port: self.port,
            weight: self.weight,
            healthy: self.healthy,
            enabled: self.enabled,
            ephemeral: self.ephemeral,
            cluster_name: self.cluster_name.deep_view(),
            service_name: self.service_name.deep_view(),
            metadata: self.metadata.deep_view(),
        }
    }
}

impl View for ServiceInstance {
    type V = ServiceInstanceView;

    open spec fn view(&self) -> ServiceInstanceView {
        ServiceInstanceView {
            instance_id: self.instance_id.deep_view(),
            ip: self.ip.deep_view(),
            port: self.port,
            weight: self.weight,
            healthy: self.healthy,
            enabled: self.enabled,
            ephemeral: self.ephemeral,
            cluster_name: self.cluster_name.deep_view(),
            service_name: self.service_name.deep_view(),
            metadata: self.metadata.deep_view(),
        }
    }
}

/// The native shape of an external record: absent optional fields become the
/// default weight of one, true health, enabled and ephemeral flags, and an
/// empty metadata map; everything else is copied verbatim.
pub open spec fn native_of_external(v: NacosServiceInstanceView) -> ServiceInstanceView {
    ServiceInstanceView {
        instance_id: v.instance_id,
        ip: v.ip,
        port: v.port,
        weight: match v.weight {
            Some(w) => w,
            None => DEFAULT_WEIGHT_BITS,
        },
        healthy: match v.healthy {
            Some(h) => h,
            None => true,
        },
        enabled: match v.enabled {
            Some(e) => e,
            None => true,
        },
        ephemeral: match v.ephemeral {
            Some(e) => e,
            None => true,
        },
        cluster_name: v.cluster_name,
        service_name: v.service_name,
        metadata: match v.metadata {
            Some(m) => m,
            None => Seq::empty(),
        },
    }
}

/// The external shape of a native record: every optional field is present
/// and copied verbatim; no defaulting in this direction.
pub open spec fn external_of_native(v: ServiceInstanceView) -> NacosServiceInstanceView {
    NacosServiceInstanceView {
        instance_id: v.instance_id,
        ip: v.ip,
        port: v.port,
        weight: Some(v.weight),
        healthy: Some(v.healthy),
        enabled: Some(v.enabled),
        ephemeral: Some(v.ephemeral),
        cluster_name: v.cluster_name,
        service_name: v.service_name,
        metadata: Some(v.metadata),
    }
}

/// Every default-eligible field of the external record is present.
pub open spec fn is_complete(v: NacosServiceInstanceView) -> bool {
    &&& v.weight is Some
    &&& v.healthy is Some
    &&& v.enabled is Some
    &&& v.ephemeral is Some
    &&& v.metadata is Some
}

/// An external record whose optional fields are all present round-trips
/// through the native shape to an identical record.
pub proof fn lemma_external_round_trip(v: NacosServiceInstanceView)
    requires
        is_complete(v),
    ensures
        external_of_native(native_of_external(v)) == v,
{
    assert(external_of_native(native_of_external(v)) =~= v);
}

/// Carries an external record to the native shape, applying exactly the
/// documented defaults to the fields left absent.
pub fn instance_to_native(instance: NacosServiceInstance) -> (r: ServiceInstance)
    ensures
        r@ == native_of_external(instance@),
{
    let metadata = match instance.metadata {
        Some(m) => m,
        None => Vec::new(),
    };
    let r = ServiceInstance {
        instance_id: instance.instance_id,
        ip: instance.ip,
        port: instance.port,
        weight: match instance.weight {
            Some(w) => w,
            None => DEFAULT_WEIGHT_BITS,
        },
        healthy: match instance.healthy {
            Some(h) => h,
            None => true,
        },
        enabled: match instance.enabled {
            Some(e) => e,
            None => true,
        },
        ephemeral: match instance.ephemeral {
            Some(e) => e,
            None => true,
        },
        cluster_name: instance.cluster_name,
        service_name: instance.service_name,
        metadata,
    };
    proof {
        assert(r@.metadata =~= native_of_external(instance@).metadata);
        assert(r@ =~= native_of_external(instance@));
    }
    r
}

/// Carries a native record back across the boundary with every optional
/// field present and copied verbatim.
pub fn instance_to_external(instance: ServiceInstance) -> (r: NacosServiceInstance)
    ensures
        r@ == external_of_native(instance@),
{
    let r = NacosServiceInstance {
        instance_id: instance.instance_id,
        ip: instance.ip,
        port: instance.port,
        weight: Some(instance.weight),
        healthy: Some(instance.healthy),
        enabled: Some(instance.enabled),
        ephemeral: Some(instance.ephemeral),
        cluster_name: instance.cluster_name,
        service_name: instance.service_name,
        metadata: Some(instance.metadata),
    };
    proof {
        assert(r@ =~= external_of_native(instance@));
    }
    r
}

/// Carries a whole batch of external records to the native shape, in order,
/// each with its defaults applied.
pub fn instances_to_native(instances: Vec<NacosServiceInstance>) -> (r: Vec<ServiceInstance>)
    ensures
        r@.len() == instances@.len(),
        forall|i: int| 0 <= i < r@.len()
            ==> (#[trigger] r@[i])@ == native_of_external(instances@[i]@),
{
    let ghost orig = instances@;
    let mut rest = instances;
    let mut r: Vec<ServiceInstance> = Vec::new();
    while rest.len() > 0
        invariant
            r@.len() + rest@.len() == orig.len(),
            forall|i: int| 0 <= i < rest@.len() ==> #[trigger] rest@[i] == orig[r@.len() + i],
            forall|i: int| 0 <= i < r@.len()
                ==> (#[trigger] r@[i])@ == native_of_external(orig[i]@),
        decreases rest@.len(),
    {
        let next = rest.remove(0);
        let native = instance_to_native(next);
        r.push(native);
    }
    r
}

/// Carries a whole batch of native records back across the boundary, in
/// order, each field-complete.
pub fn instances_to_external(instances: Vec<ServiceInstance>) -> (r: Vec<NacosServiceInstance>)
    ensures
        r@.len() == instances@.len(),
        forall|i: int| 0 <= i < r@.len()
            ==> (#[trigger] r@[i])@ == external_of_native(instances@[i]@),
{
    let ghost orig = instances@;
    let mut rest = instances;
    let mut r: Vec<NacosServiceInstance> = Vec::new();
    while rest.len() > 0
        invariant
            r@.len() + rest@.len() == orig.len(),
            forall|i: int| 0 <= i < rest@.len() ==> #[trigger] rest@[i] == orig[r@.len() + i],
            forall|i: int| 0 <= i < r@.len()
                ==> (#[trigger] r@[i])@ == external_of_native(orig[i]@),
        decreases rest@.len(),
    {
        let next = rest.remove(0);
        let external = instance_to_external(next);
        r.push(external);
    }
    r
}

/// An instance query with the defaults applied: an absent cluster filter
/// means no filter, and both the subscribe flag and the healthy filter
/// default to true.
#[derive(Clone, Debug)]
pub struct ResolvedInstanceQuery {
    /// Cluster filter; empty when none was given.
    pub clusters: Vec<String>,
    /// Whether the query also subscribes; true when not given.
    pub subscribe: bool,
    /// Whether only healthy instances are asked for; true when not given.
    pub healthy: bool,
}

/// Applies the query defaults: an absent cluster filter becomes the empty
/// filter, an absent subscribe flag true, an absent healthy filter true.
pub fn resolve_instance_query(
    clusters: Option<Vec<String>>,
    subscribe: Option<bool>,
    healthy: Option<bool>,
) -> (r: ResolvedInstanceQuery)
    ensures
        clusters matches Some(c) ==> r.clusters == c,
        clusters is None ==> r.clusters@.len() == 0,
        subscribe matches Some(s) ==> r.subscribe == s,
        subscribe is None ==> r.subscribe,
        healthy matches Some(h) ==> r.healthy == h,
        healthy is None ==> r.healthy,
{
    ResolvedInstanceQuery {
        clusters: match clusters {
            Some(c) => c,
            None => Vec::new(),
        },
        subscribe: match subscribe {
            Some(s) => s,
            None => true,
        },
        healthy: match healthy {
            Some(h) => h,
            None => true,
        },
    }
}

/// The batch handed to a subscriber matches the native batch element for
/// element.
pub open spec fn is_external_batch_of(
    batch: Vec<NacosServiceInstance>,
    natives: Vec<ServiceInstance>,
) -> bool {
    &&& batch@.len() == natives@.len()
    &&& forall|i: int| 0 <= i < batch@.len()
        ==> (#[trigger] batch@[i])@ == external_of_native(natives@[i]@)
}

/// An event payload with no instances at all, which the dispatcher drops.
pub open spec fn is_empty_event(instances: Option<Vec<ServiceInstance>>) -> bool {
    match instances {
        None => true,
        Some(v) => v@.len() == 0,
    }
}

/// Decides what an instance-change event carries across the boundary: an
/// event with no instances at all is dropped — a defined filter, not an
/// error — and any other event becomes the converted batch, in order.
pub fn naming_event_batch(
    instances: Option<Vec<ServiceInstance>>,
) -> (r: Option<Vec<NacosServiceInstance>>)
    ensures
        is_empty_event(instances) <==> r is None,
        !is_empty_event(instances) ==> is_external_batch_of(r->0, instances->0),
{
    match instances {
        None => None,
        Some(natives) => {
            if natives.len() == 0 {
                None
            } else {
                Some(instances_to_external(natives))
            }
        },
    }
}

/// An instance-change event arrived from the native client.  An event with
/// no instances at all is dropped without touching the queue — a defined
/// filter, not an error.  Any other event has its batch converted and queued
/// behind everything queued before it; the notifying thread does no delivery
/// of its own.
pub fn notify_instances_changed(
    queue: &mut DispatchQueue<Vec<NacosServiceInstance>>,
    instances: Option<Vec<ServiceInstance>>,
)
    ensures
        is_empty_event(instances) ==> final(queue)@ == old(queue)@,
        !is_empty_event(instances) ==> final(queue)@.len() == old(queue)@.len() + 1
            && final(queue)@.drop_last() == old(queue)@
            && is_external_batch_of(final(queue)@.last(), instances->0),
{
    match instances {
        None => {},
        Some(natives) => {
            if natives.len() > 0 {
                let batch = instances_to_external(natives);
                queue.dispatch(batch);
                proof {
                    assert(queue@.drop_last() =~= old(queue)@);
                }
            }
        },
    }
}

} // verus!
