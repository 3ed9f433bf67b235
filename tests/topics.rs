use molecular_config::channel::name;
use molecular_config::config::{Channel, Config, ConfigBuilder};

fn config_for(namespace: &str, node_id: &str) -> Config {
    let mut b = ConfigBuilder::new();
    b.namespace = namespace.to_string();
    b.node_id = node_id.to_string();
    b.build_with("host".to_string(), "instance".to_string(), &vec![])
}

#[test]
fn default_namespace_topics() {
    let cfg = config_for("", "node-42");
    assert_eq!(Channel::Event.channel_to_string(&cfg), "MOL.EVENT.node-42");
    assert_eq!(Channel::Discover.channel_to_string(&cfg), "MOL.DISCOVER");
    assert_eq!(name::event(&cfg), "MOL.EVENT.node-42");
    assert_eq!(name::discover(&cfg), "MOL.DISCOVER");
}

#[test]
fn named_namespace_topics() {
    let cfg = config_for("prod", "node-7");
    assert_eq!(Channel::Heartbeat.channel_to_string(&cfg), "MOL-prod.HEARTBEAT");
    assert_eq!(Channel::Response.channel_to_string(&cfg), "MOL-prod.RES.node-7");
    assert_eq!(name::heartbeat(&cfg), "MOL-prod.HEARTBEAT");
    assert_eq!(name::response(&cfg), "MOL-prod.RES.node-7");
}

#[test]
fn every_role_topic() {
    let cfg = config_for("ns", "n1");
    let expected = [
        (Channel::Event, "MOL-ns.EVENT.n1"),
        (Channel::Request, "MOL-ns.REQ.n1"),
        (Channel::Response, "MOL-ns.RES.n1"),
        (Channel::Discover, "MOL-ns.DISCOVER"),
        (Channel::DiscoverTargeted, "MOL-ns.DISCOVER.n1"),
        (Channel::Info, "MOL-ns.INFO"),
        (Channel::InfoTargeted, "MOL-ns.INFO.n1"),
        (Channel::Heartbeat, "MOL-ns.HEARTBEAT"),
        (Channel::Ping, "MOL-ns.PING"),
        (Channel::PongPrefix, "MOL-ns.PONG"),
        (Channel::Pong, "MOL-ns.PONG.n1"),
        (Channel::PingTargeted, "MOL-ns.PING.n1"),
        (Channel::Disconnect, "MOL-ns.DISCONNECT"),
    ];
    for (c, t) in expected.iter() {
        assert_eq!(c.channel_to_string(&cfg), *t);
    }
    assert_eq!(name::request(&cfg), "MOL-ns.REQ.n1");
    assert_eq!(name::discover_targeted(&cfg), "MOL-ns.DISCOVER.n1");
    assert_eq!(name::info(&cfg), "MOL-ns.INFO");
    assert_eq!(name::info_targeted(&cfg), "MOL-ns.INFO.n1");
    assert_eq!(name::ping(&cfg), "MOL-ns.PING");
    assert_eq!(name::ping_targeted(&cfg), "MOL-ns.PING.n1");
    assert_eq!(name::pong(&cfg), "MOL-ns.PONG.n1");
    assert_eq!(name::disconnect(&cfg), "MOL-ns.DISCONNECT");
}

#[test]
fn topics_share_prefix() {
    let plain = config_for("", "a");
    let named = config_for("blue", "a");
    for c in Channel::all() {
        assert!(c.channel_to_string(&plain).starts_with("MOL."));
        assert!(c.channel_to_string(&named).starts_with("MOL-blue."));
    }
}

#[test]
fn derivation_is_repeatable() {
    let cfg = config_for("x", "node-1");
    for c in Channel::all() {
        assert_eq!(c.channel_to_string(&cfg), c.channel_to_string(&cfg));
    }
}

#[test]
fn node_scope_of_topics() {
    let cfg = config_for("", "node-9");
    let scoped = [
        Channel::Event,
        Channel::Request,
        Channel::Response,
        Channel::DiscoverTargeted,
        Channel::InfoTargeted,
        Channel::PingTargeted,
        Channel::Pong,
    ];
    for c in Channel::all() {
        let t = c.channel_to_string(&cfg);
        if scoped.contains(&c) {
            assert!(t.ends_with(".node-9"));
        } else {
            assert!(!t.contains("node-9"));
        }
    }
}

#[test]
fn pong_extends_pong_prefix() {
    let cfg = config_for("q", "me");
    let pong = Channel::Pong.channel_to_string(&cfg);
    let prefix = Channel::PongPrefix.channel_to_string(&cfg);
    assert_ne!(pong, prefix);
    assert_eq!(pong, format!("{}.{}", prefix, "me"));
}

#[test]
fn table_holds_every_role() {
    let cfg = config_for("prod", "node-7");
    let table = Channel::build_hashmap(&cfg);
    let all = Channel::all();
    assert_eq!(all.len(), 13);
    for (i, c) in all.iter().enumerate() {
        assert_eq!(c.index(), i);
        assert_eq!(Channel::from_index(i), *c);
        assert_eq!(*table.get(*c), c.channel_to_string(&cfg));
    }
    assert_eq!(table.get(Channel::Heartbeat), "MOL-prod.HEARTBEAT");
}
