use molecular_config::config::{
    Bulkhead, CircuitBreaker, ConfigBuilder, LogLevel, Logger, Registry, RetryPolicy, Serializer,
    Tracking, Transit, Transporter,
};
use molecular_config::network::{ipv4_text, usable_ipv4_list, IpAddress};

fn is_uuid_text(s: &str) -> bool {
    let b = s.as_bytes();
    b.len() == 36
        && b[14] == b'4'
        && b.iter().enumerate().all(|(i, ch)| {
            if i == 8 || i == 13 || i == 18 || i == 23 {
                *ch == b'-'
            } else {
                ch.is_ascii_digit() || (b'a'..=b'f').contains(ch)
            }
        })
}

#[test]
fn builder_defaults() {
    let b = ConfigBuilder::new();
    assert_eq!(b.namespace, "");
    assert!(is_uuid_text(&b.node_id));
    assert_eq!(b.logger, Logger::Console);
    assert_eq!(b.log_level, LogLevel::Info);
    let Transporter::Nats(addr) = &b.transporter;
    assert_eq!(addr, "nats://localhost:4222");
    assert_eq!(b.request_timeout, 0);
    assert_eq!(b.dependency_internal, 1000);
    assert_eq!(b.max_call_level, 0);
    assert_eq!(b.heartbeat_interval, 5);
    assert_eq!(b.heartbeat_timeout, 15);
    assert!(!b.context_params_cloning);
    assert!(!b.disable_balancer);
    assert_eq!(b.registry, Registry::Local);
    assert_eq!(b.serializer, Serializer::JSON);
    assert!(b.meta_data.is_empty());
    assert_eq!(
        b.retry_policy,
        RetryPolicy { enabled: false, retries: 5, delay: 100, max_delay: 2000, factor: 2 }
    );
    assert_eq!(b.tracking, Tracking { enabled: false, shutdown_timeout: 10000 });
    assert_eq!(
        b.circuit_breaker,
        CircuitBreaker {
            enabled: false,
            threshold_permille: 500,
            min_request_count: 20,
            window_time: 60,
            half_open_time: 10000,
        }
    );
    assert_eq!(b.bulkhead, Bulkhead { enabled: false, concurrency: 3, max_queue_size: 10 });
    let t = Transit::default();
    assert_eq!(t.max_queue_size, 50000);
    assert_eq!(t.max_chunk_size, 256);
    assert!(!t.disable_reconnect);
    assert!(!t.disable_version_check);
    assert!(t.packet_log_filter.is_empty());
    assert_eq!(b.transit.max_queue_size, 50000);
}

#[test]
fn node_ids_are_random() {
    let a = ConfigBuilder::new();
    let b = ConfigBuilder::new();
    assert!(!a.node_id.is_empty());
    assert_ne!(a.node_id, b.node_id);
}

#[test]
fn no_usable_interfaces_gives_empty_list() {
    let c = ConfigBuilder::new().build("host".to_string(), &vec![]);
    assert!(c.ip_list.is_empty());
    assert_eq!(c.hostname, "host");
    assert!(is_uuid_text(&c.instance_id));
    let only_unusable = vec![IpAddress::V4(127, 0, 0, 1), IpAddress::V6(1)];
    let c = ConfigBuilder::new().build("h".to_string(), &only_unusable);
    assert!(c.ip_list.is_empty());
}

#[test]
fn build_keeps_overrides() {
    let mut b = ConfigBuilder::new();
    b.namespace = "prod".to_string();
    b.node_id = "node-7".to_string();
    b.heartbeat_interval = 9;
    b.meta_data.insert("region".to_string(), "eu".to_string());
    b.transporter = Transporter::nats("nats://broker:4222");
    let c = b.build_with("box".to_string(), "inst-1".to_string(), &vec![IpAddress::V4(10, 0, 0, 5)]);
    assert_eq!(c.namespace, "prod");
    assert_eq!(c.node_id, "node-7");
    assert_eq!(c.heartbeat_interval, 9);
    assert_eq!(c.meta_data.get("region").map(|s| s.as_str()), Some("eu"));
    let Transporter::Nats(addr) = &c.transporter;
    assert_eq!(addr, "nats://broker:4222");
    assert_eq!(c.hostname, "box");
    assert_eq!(c.instance_id, "inst-1");
    assert_eq!(c.ip_list, vec!["10.0.0.5".to_string()]);
}

#[test]
fn instance_ids_differ_per_build() {
    let a = ConfigBuilder::new().build("h".to_string(), &vec![]);
    let b = ConfigBuilder::new().build("h".to_string(), &vec![]);
    assert_ne!(a.instance_id, b.instance_id);
}

#[test]
fn ipv4_filter_keeps_order_and_drops_loopback() {
    let addrs = vec![
        IpAddress::V4(192, 168, 1, 10),
        IpAddress::V4(127, 0, 0, 1),
        IpAddress::V6(0x2001_0db8_0000_0000_0000_0000_0000_0001),
        IpAddress::V4(127, 1, 2, 3),
        IpAddress::V4(0, 255, 9, 100),
    ];
    assert_eq!(
        usable_ipv4_list(&addrs),
        vec!["192.168.1.10".to_string(), "0.255.9.100".to_string()]
    );
    assert!(usable_ipv4_list(&vec![]).is_empty());
}

#[test]
fn ipv4_text_is_dotted_decimal() {
    assert_eq!(ipv4_text(0, 0, 0, 0), "0.0.0.0");
    assert_eq!(ipv4_text(255, 255, 255, 255), "255.255.255.255");
    assert_eq!(ipv4_text(10, 9, 100, 99), "10.9.100.99");
}
