//! Tests of the data transfer shims: the external/native instance
//! conversions with their defaults, the configuration record shim, and the
//! option and query defaulting rules.

use nacos_bridge::ClientOptions;
use nacos_bridge::ConfigRecord;
use nacos_bridge::DEFAULT_WEIGHT_BITS;
use nacos_bridge::NacosServiceInstance;
use nacos_bridge::ServiceInstance;
use nacos_bridge::config_content;
use nacos_bridge::instance_to_external;
use nacos_bridge::instance_to_native;
use nacos_bridge::instances_to_native;
use nacos_bridge::record_to_external;
use nacos_bridge::resolve_client_options;
use nacos_bridge::resolve_instance_query;

fn full_instance() -> NacosServiceInstance {
    NacosServiceInstance {
        instance_id: Some("instance-007".to_string()),
        ip: "10.0.0.7".to_string(),
        port: 8848,
        weight: Some(2.5f64.to_bits()),
        healthy: Some(false),
        enabled: Some(false),
        ephemeral: Some(false),
        cluster_name: Some("CLUSTER-A".to_string()),
        service_name: Some("orders".to_string()),
        metadata: Some(vec![
            ("zone".to_string(), "eu-1".to_string()),
            ("rack".to_string(), "r42".to_string()),
        ]),
    }
}

fn bare_instance() -> NacosServiceInstance {
    NacosServiceInstance {
        instance_id: None,
        ip: "10.0.0.9".to_string(),
        port: 9999,
        weight: None,
        healthy: None,
        enabled: None,
        ephemeral: None,
        cluster_name: None,
        service_name: None,
        metadata: None,
    }
}

#[test]
fn instance_round_trip_when_all_fields_present() {
    let original = full_instance();
    let native = instance_to_native(full_instance());
    let back = instance_to_external(native);
    assert_eq!(back, original);
}

#[test]
fn instance_defaults_applied_when_fields_absent() {
    let native = instance_to_native(bare_instance());
    assert_eq!(native.weight, DEFAULT_WEIGHT_BITS);
    assert!(native.healthy);
    assert!(native.enabled);
    assert!(native.ephemeral);
    assert_eq!(native.metadata, Vec::new());
    assert_eq!(native.instance_id, None);
    assert_eq!(native.ip, "10.0.0.9".to_string());
    assert_eq!(native.port, 9999);
}

#[test]
fn default_weight_bits_are_one() {
    assert_eq!(DEFAULT_WEIGHT_BITS, 1.0f64.to_bits());
    assert_eq!(f64::from_bits(DEFAULT_WEIGHT_BITS), 1.0);
}

#[test]
fn present_fields_copied_verbatim_to_native() {
    let native = instance_to_native(full_instance());
    assert_eq!(native.instance_id, Some("instance-007".to_string()));
    assert_eq!(native.ip, "10.0.0.7".to_string());
    assert_eq!(native.port, 8848);
    assert_eq!(native.weight, 2.5f64.to_bits());
    assert!(!native.healthy);
    assert!(!native.enabled);
    assert!(!native.ephemeral);
    assert_eq!(native.cluster_name, Some("CLUSTER-A".to_string()));
    assert_eq!(native.service_name, Some("orders".to_string()));
    assert_eq!(
        native.metadata,
        vec![
            ("zone".to_string(), "eu-1".to_string()),
            ("rack".to_string(), "r42".to_string()),
        ]
    );
}

#[test]
fn native_to_external_fills_every_option() {
    let native = ServiceInstance {
        instance_id: None,
        ip: "192.168.1.1".to_string(),
        port: 80,
        weight: 3.5f64.to_bits(),
        healthy: true,
        enabled: false,
        ephemeral: true,
        cluster_name: None,
        service_name: Some("carts".to_string()),
        metadata: vec![("k".to_string(), "v".to_string())],
    };
    let external = instance_to_external(native);
    assert_eq!(external.weight, Some(3.5f64.to_bits()));
    assert_eq!(external.healthy, Some(true));
    assert_eq!(external.enabled, Some(false));
    assert_eq!(external.ephemeral, Some(true));
    assert_eq!(
        external.metadata,
        Some(vec![("k".to_string(), "v".to_string())])
    );
    assert_eq!(external.instance_id, None);
    assert_eq!(external.service_name, Some("carts".to_string()));
}

#[test]
fn batch_conversion_keeps_order_and_defaults() {
    let batch = vec![bare_instance(), full_instance()];
    let natives = instances_to_native(batch);
    assert_eq!(natives.len(), 2);
    assert_eq!(natives[0].ip, "10.0.0.9".to_string());
    assert_eq!(natives[0].weight, DEFAULT_WEIGHT_BITS);
    assert_eq!(natives[1].ip, "10.0.0.7".to_string());
    assert_eq!(natives[1].weight, 2.5f64.to_bits());
}

#[test]
fn config_record_crosses_field_for_field() {
    let record = ConfigRecord {
        namespace: "public".to_string(),
        data_id: "app.json".to_string(),
        group: "DEFAULT_GROUP".to_string(),
        content: "{\"a\":1}".to_string(),
        content_type: "json".to_string(),
        md5: "d41d8cd98f00b204e9800998ecf8427e".to_string(),
    };
    let external = record_to_external(record);
    assert_eq!(external.namespace, "public".to_string());
    assert_eq!(external.data_id, "app.json".to_string());
    assert_eq!(external.group, "DEFAULT_GROUP".to_string());
    assert_eq!(external.content, "{\"a\":1}".to_string());
    assert_eq!(external.content_type, "json".to_string());
    assert_eq!(external.md5, "d41d8cd98f00b204e9800998ecf8427e".to_string());
    assert_eq!(config_content(external), "{\"a\":1}".to_string());
}

fn bare_options() -> ClientOptions {
    ClientOptions {
        server_addr: "127.0.0.1:8848".to_string(),
        namespace: "public".to_string(),
        app_name: None,
        username: None,
        password: None,
        access_key: None,
        access_secret: None,
        signature_region_id: None,
        naming_push_empty_protection: None,
        naming_load_cache_at_start: None,
    }
}

#[test]
fn option_defaults_applied() {
    let resolved = resolve_client_options(bare_options());
    assert_eq!(resolved.server_addr, "127.0.0.1:8848".to_string());
    assert_eq!(resolved.namespace, "public".to_string());
    assert_eq!(resolved.app_name, "unknown".to_string());
    assert!(!resolved.auth_enabled);
    assert!(resolved.naming_push_empty_protection);
    assert!(!resolved.naming_load_cache_at_start);
}

#[test]
fn auth_enabled_only_with_both_credentials() {
    let mut options = bare_options();
    options.username = Some("nacos".to_string());
    let resolved = resolve_client_options(options);
    assert!(!resolved.auth_enabled);

    let mut options = bare_options();
    options.username = Some("nacos".to_string());
    options.password = Some("nacos".to_string());
    options.app_name = Some("shop".to_string());
    options.naming_push_empty_protection = Some(false);
    options.naming_load_cache_at_start = Some(true);
    let resolved = resolve_client_options(options);
    assert!(resolved.auth_enabled);
    assert_eq!(resolved.app_name, "shop".to_string());
    assert_eq!(resolved.username, Some("nacos".to_string()));
    assert_eq!(resolved.password, Some("nacos".to_string()));
    assert!(!resolved.naming_push_empty_protection);
    assert!(resolved.naming_load_cache_at_start);
}

#[test]
fn query_defaults_applied() {
    let query = resolve_instance_query(None, None, None);
    assert!(query.clusters.is_empty());
    assert!(query.subscribe);
    assert!(query.healthy);

    let query = resolve_instance_query(
        Some(vec!["CLUSTER-A".to_string()]),
        Some(false),
        Some(false),
    );
    assert_eq!(query.clusters, vec!["CLUSTER-A".to_string()]);
    assert!(!query.subscribe);
    assert!(!query.healthy);
}
