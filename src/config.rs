use std::collections::HashMap;
use crate::network::{is_usable, lemma_no_usable_addresses, usable_ipv4_list, usable_ipv4_texts, IpAddress};
use vstd::prelude::*;
use vstd::string::*;

verus! {

/// The logical roles a node publishes or subscribes on.
#[derive(Debug, PartialEq, Eq, Structural, Hash, Clone, Copy)]
pub enum Channel {
    Event,
    Request,
    Response,
    Discover,
    DiscoverTargeted,
    Info,
    InfoTargeted,
    Heartbeat,
    Ping,
    PongPrefix,
    Pong,
    PingTargeted,
    Disconnect,
}

/// Number of channel roles.
pub const CHANNEL_COUNT: usize = 13;

/// Position of a role in declaration order.
pub open spec fn channel_index(c: Channel) -> nat {
    match c {
        Channel::Event => 0,
        Channel::Request => 1,
        Channel::Response => 2,
        Channel::Discover => 3,
        Channel::DiscoverTargeted => 4,
        Channel::Info => 5,
        Channel::InfoTargeted => 6,
        Channel::Heartbeat => 7,
        Channel::Ping => 8,
        Channel::PongPrefix => 9,
        Channel::Pong => 10,
        Channel::PingTargeted => 11,
        Channel::Disconnect => 12,
    }
}

/// The role at a position in declaration order.
pub open spec fn channel_at(i: nat) -> Channel {
    if i == 0 {
        Channel::Event
    } else if i == 1 {
        Channel::Request
    } else if i == 2 {
        Channel::Response
    } else if i == 3 {
        Channel::Discover
    } else if i == 4 {
        Channel::DiscoverTargeted
    } else if i == 5 {
        Channel::Info
    } else if i == 6 {
        Channel::InfoTargeted
    } else if i == 7 {
        Channel::Heartbeat
    } else if i == 8 {
        Channel::Ping
    } else if i == 9 {
        Channel::PongPrefix
    } else if i == 10 {
        Channel::Pong
    } else if i == 11 {
        Channel::PingTargeted
    } else {
        Channel::Disconnect
    }
}

/// The upper-case word naming a role inside a topic.
pub open spec fn role_word(c: Channel) -> Seq<char> {
    match c {
        Channel::Event => seq!['E', 'V', 'E', 'N', 'T'],
        Channel::Request => seq!['R', 'E', 'Q'],
        Channel::Response => seq!['R', 'E', 'S'],
        Channel::Discover | Channel::DiscoverTargeted => seq!['D', 'I', 'S', 'C', 'O', 'V', 'E', 'R'],
        Channel::Info | Channel::InfoTargeted => seq!['I', 'N', 'F', 'O'],
        Channel::Heartbeat => seq!['H', 'E', 'A', 'R', 'T', 'B', 'E', 'A', 'T'],
        Channel::Ping | Channel::PingTargeted => seq!['P', 'I', 'N', 'G'],
        Channel::Pong | Channel::PongPrefix => seq!['P', 'O', 'N', 'G'],
        Channel::Disconnect => seq!['D', 'I', 'S', 'C', 'O', 'N', 'N', 'E', 'C', 'T'],
    }
}

/// Roles whose topic is addressed to one node and ends with its identifier.
pub open spec fn is_node_scoped(c: Channel) -> bool {
    match c {
        Channel::Event | Channel::Request | Channel::Response | Channel::DiscoverTargeted
        | Channel::InfoTargeted | Channel::PingTargeted | Channel::Pong => true,
        _ => false,
    }
}

/// `MOL` for the default namespace, `MOL-<namespace>` otherwise.
pub open spec fn mol_prefix(namespace: Seq<char>) -> Seq<char> {
    if namespace.len() == 0 {
        seq!['M', 'O', 'L']
    } else {
        seq!['M', 'O', 'L', '-'] + namespace
    }
}

/// The topic of a role: `<prefix>.<ROLE>`, followed by `.<node_id>` for node-scoped roles.
pub open spec fn topic(c: Channel, namespace: Seq<char>, node_id: Seq<char>) -> Seq<char> {
    let base = mol_prefix(namespace) + seq!['.'] + role_word(c);
    if is_node_scoped(c) {
        base + seq!['.'] + node_id
    } else {
        base
    }
}

/// The topic of a role for a configuration.
pub open spec fn config_topic(c: Channel, config: &Config) -> Seq<char> {
    topic(c, config.namespace@, config.node_id@)
}

/// Where log output goes.
#[derive(Debug, PartialEq, Eq, Structural, Clone, Copy)]
pub enum Logger {
    Console,
}

/// Severity threshold of the node's log output.
#[derive(Debug, PartialEq, Eq, Structural, Clone, Copy)]
pub enum LogLevel {
    Error,
    Warn,
    Info,
    Debug,
    Trace,
}

/// The transport the node attaches to.
#[derive(Debug)]
pub enum Transporter {
    Nats(String),
}

impl Transporter {
    /// A NATS transport at the given address.
    pub fn nats(nats_address: &str) -> (r: Self)
        ensures
            r matches Transporter::Nats(a) && a@ == nats_address@,
    {
        Transporter::Nats(String::from_str(nats_address))
    }
}

/// The wire codec.
#[derive(Debug, PartialEq, Eq, Structural, Clone, Copy)]
pub enum Serializer {
    JSON,
}

/// The service registry.
#[derive(Debug, PartialEq, Eq, Structural, Clone, Copy)]
pub enum Registry {
    Local,
}

/// Retries of failed requests; delays in milliseconds.
#[derive(Debug, PartialEq, Eq, Structural, Clone, Copy)]
pub struct RetryPolicy {
    pub enabled: bool,
    pub retries: u32,
    pub delay: u32,
    pub max_delay: u32,
    pub factor: u32,
}

/// Tracking of running requests at shutdown; timeout in milliseconds.
#[derive(Debug, PartialEq, Eq, Structural, Clone, Copy)]
pub struct Tracking {
    pub enabled: bool,
    pub shutdown_timeout: u32,
}

/// Circuit breaker parameters. The failure-rate threshold is held in
/// thousandths (500 is a rate of 0.5); window in seconds, half-open time in
/// milliseconds.
#[derive(Debug, PartialEq, Eq, Structural, Clone, Copy)]
pub struct CircuitBreaker {
    pub enabled: bool,
    pub threshold_permille: u32,
    pub min_request_count: u32,
    pub window_time: u32,
    pub half_open_time: u32,
}

/// Limits on concurrent requests.
#[derive(Debug, PartialEq, Eq, Structural, Clone, Copy)]
pub struct Bulkhead {
    pub enabled: bool,
    pub concurrency: u32,
    pub max_queue_size: u32,
}

/// Transit layer parameters.
#[derive(Debug)]
pub struct Transit {
    pub max_queue_size: u32,
    pub max_chunk_size: u32,
    pub disable_reconnect: bool,
    pub disable_version_check: bool,
    pub packet_log_filter: Vec<String>,
}

/// The resolved, immutable configuration of a node.
#[derive(Debug)]
pub struct Config {
    pub namespace: String,
    pub node_id: String,
    pub logger: Logger,
    pub log_level: LogLevel,
    pub transporter: Transporter,
    pub request_timeout: i32,
    pub retry_policy: RetryPolicy,
    pub context_params_cloning: bool,
    pub dependency_internal: u32,
    pub max_call_level: u32,
    pub heartbeat_interval: u32,
    pub heartbeat_timeout: u32,
    pub tracking: Tracking,
    pub disable_balancer: bool,
    pub registry: Registry,
    pub circuit_breaker: CircuitBreaker,
    pub bulkhead: Bulkhead,
    pub transit: Transit,
    pub serializer: Serializer,
    pub meta_data: HashMap<String, String>,
    pub ip_list: Vec<String>,
    pub hostname: String,
    pub instance_id: String,
}

/// The shared topic prefix of a configuration.
fn mol(config: &Config) -> (r: String)
    ensures
        r@ == mol_prefix(config.namespace@),
{
    if config.namespace.as_str().is_empty() {
        proof {
            reveal_strlit("MOL");
        }
        String::from_str("MOL")
    } else {
        proof {
            reveal_strlit("MOL-");
        }
        String::from_str("MOL-").concat(config.namespace.as_str())
    }
}

impl Channel {
    /// The topic of this role for a configuration.
    pub fn channel_to_string(&self, config: &Config) -> (r: String)
        ensures
            r@ == config_topic(*self, config),
    {
        let mut s = mol(config);
        let word: &str = match self {
            Channel::Event => {
                proof { reveal_strlit(".EVENT"); }
                ".EVENT"
            },
            Channel::Request => {
                proof { reveal_strlit(".REQ"); }
                ".REQ"
            },
            Channel::Response => {
                proof { reveal_strlit(".RES"); }
                ".RES"
            },
            Channel::Discover | Channel::DiscoverTargeted => {
                proof { reveal_strlit(".DISCOVER"); }
                ".DISCOVER"
            },
            Channel::Info | Channel::InfoTargeted => {
                proof { reveal_strlit(".INFO"); }
                ".INFO"
            },
            Channel::Heartbeat => {
                proof { reveal_strlit(".HEARTBEAT"); }
                ".HEARTBEAT"
            },
            Channel::Ping | Channel::PingTargeted => {
                proof { reveal_strlit(".PING"); }
                ".PING"
            },
            Channel::Pong | Channel::PongPrefix => {
                proof { reveal_strlit(".PONG"); }
                ".PONG"
            },
            Channel::Disconnect => {
                proof { reveal_strlit(".DISCONNECT"); }
                ".DISCONNECT"
            },
        };
        s.append(word);
        assert(word@ == seq!['.'] + role_word(*self));
        assert(s@ =~= mol_prefix(config.namespace@) + seq!['.'] + role_word(*self));
        match self {
            Channel::Event | Channel::Request | Channel::Response | Channel::DiscoverTargeted
            | Channel::InfoTargeted | Channel::PingTargeted | Channel::Pong => {
                proof { reveal_strlit("."); }
                s.append(".");
                s.append(config.node_id.as_str());
                assert(s@ =~= config_topic(*self, config));
            },
            _ => {},
        }
        s
    }
}

impl Channel {
    /// Position of this role in declaration order.
    pub fn index(&self) -> (r: usize)
        ensures
            r == channel_index(*self),
    {
        match self {
            Channel::Event => 0,
            Channel::Request => 1,
            Channel::Response => 2,
            Channel::Discover => 3,
            Channel::DiscoverTargeted => 4,
            Channel::Info => 5,
            Channel::InfoTargeted => 6,
            Channel::Heartbeat => 7,
            Channel::Ping => 8,
            Channel::PongPrefix => 9,
            Channel::Pong => 10,
            Channel::PingTargeted => 11,
            Channel::Disconnect => 12,
        }
    }

    /// The role at a position in declaration order.
    pub fn from_index(i: usize) -> (r: Channel)
        requires
            i < CHANNEL_COUNT,
        ensures
            r == channel_at(i as nat),
            channel_index(r) == i,
    {
        if i == 0 {
            Channel::Event
        } else if i == 1 {
            Channel::Request
        } else if i == 2 {
            Channel::Response
        } else if i == 3 {
            Channel::Discover
        } else if i == 4 {
            Channel::DiscoverTargeted
        } else if i == 5 {
            Channel::Info
        } else if i == 6 {
            Channel::InfoTargeted
        } else if i == 7 {
            Channel::Heartbeat
        } else if i == 8 {
            Channel::Ping
        } else if i == 9 {
            Channel::PongPrefix
        } else if i == 10 {
            Channel::Pong
        } else if i == 11 {
            Channel::PingTargeted
        } else {
            Channel::Disconnect
        }
    }

    /// Every role, in declaration order.
    pub fn all() -> (r: Vec<Channel>)
        ensures
            r@.len() == CHANNEL_COUNT,
            forall|i: int| 0 <= i < CHANNEL_COUNT ==> #[trigger] r@[i] == channel_at(i as nat),
            forall|c: Channel| r@[channel_index(c) as int] == c,
    {
        let mut r: Vec<Channel> = Vec::new();
        let mut i: usize = 0;
        while i < CHANNEL_COUNT
            invariant
                i <= CHANNEL_COUNT,
                r@.len() == i,
                forall|j: int| 0 <= j < i ==> #[trigger] r@[j] == channel_at(j as nat),
            decreases CHANNEL_COUNT - i,
        {
            r.push(Channel::from_index(i));
            i = i + 1;
        }
        assert forall|c: Channel| r@[channel_index(c) as int] == c by {
            assert(r@[channel_index(c) as int] == channel_at(channel_index(c)));
        }
        r
    }

    /// The topic of every role for a configuration, derived once.
    pub fn build_hashmap(config: &Config) -> (r: ChannelTopicTable)
        ensures
            forall|c: Channel| #[trigger] r.topic_of(c) == config_topic(c, config),
    {
        let mut topics: Vec<String> = Vec::new();
        let mut i: usize = 0;
        while i < CHANNEL_COUNT
            invariant
                i <= CHANNEL_COUNT,
                topics@.len() == i,
                forall|j: int| 0 <= j < i ==> #[trigger] topics@[j]@ == config_topic(channel_at(j as nat), config),
            decreases CHANNEL_COUNT - i,
        {
            let c = Channel::from_index(i);
            topics.push(c.channel_to_string(config));
            i = i + 1;
        }
        let r = ChannelTopicTable { topics };
        assert forall|c: Channel| #[trigger] r.topic_of(c) == config_topic(c, config) by {
            assert(channel_at(channel_index(c)) == c);
            assert(topics@[channel_index(c) as int]@ == config_topic(channel_at(channel_index(c)), config));
        }
        r
    }
}

/// The topic of every role for one configuration.
#[derive(Debug)]
pub struct ChannelTopicTable {
    topics: Vec<String>,
}

impl ChannelTopicTable {
    #[verifier::type_invariant]
    spec fn well_formed(&self) -> bool {
        self.topics@.len() == CHANNEL_COUNT
    }

    /// The topic held for a role.
    pub closed spec fn topic_of(&self, c: Channel) -> Seq<char> {
        self.topics@[channel_index(c) as int]@
    }

    /// The topic held for a role.
    pub fn get(&self, c: Channel) -> (r: &String)
        ensures
            r@ == self.topic_of(c),
    {
        proof {
            use_type_invariant(self);
        }
        &self.topics[c.index()]
    }
}

/// Lower-case hexadecimal digit.
pub open spec fn is_lower_hex(ch: char) -> bool {
    ('0' <= ch && ch <= '9') || ('a' <= ch && ch <= 'f')
}

/// Text of a random (version 4) UUID: 36 characters, `-` at positions 8, 13,
/// 18 and 23, `4` at position 14, lower-case hexadecimal digits elsewhere.
pub open spec fn is_uuid_v4_text(s: Seq<char>) -> bool {
    &&& s.len() == 36
    &&& s[14] == '4'
    &&& forall|i: int|
        0 <= i < 36 ==> if i == 8 || i == 13 || i == 18 || i == 23 {
            #[trigger] s[i] == '-'
        } else {
            is_lower_hex(s[i])
        }
}

/// Relies on `uuid::Uuid::new_v4`, which draws a random version-4 UUID, and on
/// its `Display`, which writes the lower-case hyphenated form.
#[verifier::external_body]
fn random_uuid_text() -> (r: String)
    ensures
        is_uuid_v4_text(r@),
{
    uuid::Uuid::new_v4().to_string()
}

impl Default for RetryPolicy {
    fn default() -> (r: Self)
        ensures
            r == (RetryPolicy { enabled: false, retries: 5, delay: 100, max_delay: 2000, factor: 2 }),
    {
        RetryPolicy { enabled: false, retries: 5, delay: 100, max_delay: 2000, factor: 2 }
    }
}

impl Default for Tracking {
    fn default() -> (r: Self)
        ensures
            r == (Tracking { enabled: false, shutdown_timeout: 10000 }),
    {
        Tracking { enabled: false, shutdown_timeout: 10000 }
    }
}

impl Default for CircuitBreaker {
    fn default() -> (r: Self)
        ensures
            r == (CircuitBreaker {
                enabled: false,
                threshold_permille: 500,
                min_request_count: 20,
                window_time: 60,
                half_open_time: 10000,
            }),
    {
        CircuitBreaker {
            enabled: false,
            threshold_permille: 500,
            min_request_count: 20,
            window_time: 60,
            half_open_time: 10000,
        }
    }
}

impl Default for Bulkhead {
    fn default() -> (r: Self)
        ensures
            r == (Bulkhead { enabled: false, concurrency: 3, max_queue_size: 10 }),
    {
        Bulkhead { enabled: false, concurrency: 3, max_queue_size: 10 }
    }
}

impl Default for Transit {
    fn default() -> (r: Self)
        ensures
            r.max_queue_size == 50000,
            r.max_chunk_size == 256,
            !r.disable_reconnect,
            !r.disable_version_check,
            r.packet_log_filter@.len() == 0,
    {
        Transit {
            max_queue_size: 50000,
            max_chunk_size: 256,
            disable_reconnect: false,
            disable_version_check: false,
            packet_log_filter: Vec::new(),
        }
    }
}

/// User overrides of a configuration; every field starts at its default.
#[derive(Debug)]
pub struct ConfigBuilder {
    pub namespace: String,
    pub node_id: String,
    pub logger: Logger,
    pub log_level: LogLevel,
    pub transporter: Transporter,
    pub request_timeout: i32,
    pub retry_policy: RetryPolicy,
    pub context_params_cloning: bool,
    pub dependency_internal: u32,
    pub max_call_level: u32,
    pub heartbeat_interval: u32,
    pub heartbeat_timeout: u32,
    pub tracking: Tracking,
    pub disable_balancer: bool,
    pub registry: Registry,
    pub circuit_breaker: CircuitBreaker,
    pub bulkhead: Bulkhead,
    pub transit: Transit,
    pub serializer: Serializer,
    pub meta_data: HashMap<String, String>,
}

/// The address of the default transport.
pub open spec fn default_nats_address() -> Seq<char> {
    "nats://localhost:4222"@
}

/// Every field of `b` holds its default, the node identifier a random UUID.
pub open spec fn is_default_builder(b: ConfigBuilder) -> bool {
    &&& b.namespace@.len() == 0
    &&& is_uuid_v4_text(b.node_id@)
    &&& b.logger == Logger::Console
    &&& b.log_level == LogLevel::Info
    &&& (b.transporter matches Transporter::Nats(a) && a@ == default_nats_address())
    &&& b.request_timeout == 0
    &&& b.retry_policy == (RetryPolicy { enabled: false, retries: 5, delay: 100, max_delay: 2000, factor: 2 })
    &&& !b.context_params_cloning
    &&& b.dependency_internal == 1000
    &&& b.max_call_level == 0
    &&& b.heartbeat_interval == 5
    &&& b.heartbeat_timeout == 15
    &&& b.tracking == (Tracking { enabled: false, shutdown_timeout: 10000 })
    &&& !b.disable_balancer
    &&& b.registry == Registry::Local
    &&& b.circuit_breaker == (CircuitBreaker {
        enabled: false,
        threshold_permille: 500,
        min_request_count: 20,
        window_time: 60,
        half_open_time: 10000,
    })
    &&& b.bulkhead == (Bulkhead { enabled: false, concurrency: 3, max_queue_size: 10 })
    &&& b.transit.max_queue_size == 50000
    &&& b.transit.max_chunk_size == 256
    &&& !b.transit.disable_reconnect
    &&& !b.transit.disable_version_check
    &&& b.transit.packet_log_filter@.len() == 0
    &&& b.serializer == Serializer::JSON
    &&& b.meta_data@ == Map::<String, String>::empty()
}

/// `c` carries every setting of `b` unchanged.
pub open spec fn keeps_settings(c: Config, b: ConfigBuilder) -> bool {
    &&& c.namespace == b.namespace
    &&& c.node_id == b.node_id
    &&& c.logger == b.logger
    &&& c.log_level == b.log_level
    &&& c.transporter == b.transporter
    &&& c.request_timeout == b.request_timeout
    &&& c.retry_policy == b.retry_policy
    &&& c.context_params_cloning == b.context_params_cloning
    &&& c.dependency_internal == b.dependency_internal
    &&& c.max_call_level == b.max_call_level
    &&& c.heartbeat_interval == b.heartbeat_interval
    &&& c.heartbeat_timeout == b.heartbeat_timeout
    &&& c.tracking == b.tracking
    &&& c.disable_balancer == b.disable_balancer
    &&& c.registry == b.registry
    &&& c.circuit_breaker == b.circuit_breaker
    &&& c.bulkhead == b.bulkhead
    &&& c.transit == b.transit
    &&& c.serializer == b.serializer
    &&& c.meta_data == b.meta_data
}

/// The address list of `c` is the text of each usable address of `interfaces`.
pub open spec fn lists_usable(c: Config, interfaces: Seq<IpAddress>) -> bool {
    &&& c.ip_list@.len() == usable_ipv4_texts(interfaces).len()
    &&& forall|i: int|
        0 <= i < c.ip_list@.len() ==> #[trigger] c.ip_list@[i]@ == usable_ipv4_texts(interfaces)[i]
}

impl Default for ConfigBuilder {
    fn default() -> (r: Self)
        ensures
            is_default_builder(r),
    {
        proof {
            reveal_strlit("");
            reveal_strlit("nats://localhost:4222");
        }
        ConfigBuilder {
            namespace: String::from_str(""),
            node_id: random_uuid_text(),
            logger: Logger::Console,
            log_level: LogLevel::Info,
            transporter: Transporter::nats("nats://localhost:4222"),
            request_timeout: 0,
            retry_policy: RetryPolicy::default(),
            context_params_cloning: false,
            dependency_internal: 1000,
            max_call_level: 0,
            heartbeat_interval: 5,
            heartbeat_timeout: 15,
            tracking: Tracking::default(),
            disable_balancer: false,
            registry: Registry::Local,
            circuit_breaker: CircuitBreaker::default(),
            bulkhead: Bulkhead::default(),
            transit: Transit::default(),
            serializer: Serializer::JSON,
            meta_data: HashMap::new(),
        }
    }
}

impl ConfigBuilder {
    /// A builder with every field at its default.
    pub fn new() -> (r: Self)
        ensures
            is_default_builder(r),
    {
        Self::default()
    }

    /// The configuration for this builder's settings, with the given host
    /// name and instance identifier, and the IPv4, non-loopback addresses
    /// among `interfaces` as its address list (empty when there are none).
    pub fn build_with(self, hostname: String, instance_id: String, interfaces: &Vec<IpAddress>) -> (r: Config)
        ensures
            keeps_settings(r, self),
            r.hostname == hostname,
            r.instance_id == instance_id,
            lists_usable(r, interfaces@),
    {
        let ip_list = usable_ipv4_list(interfaces);
        Config {
            namespace: self.namespace,
            node_id: self.node_id,
            logger: self.logger,
            log_level: self.log_level,
            transporter: self.transporter,
            request_timeout: self.request_timeout,
            retry_policy: self.retry_policy,
            context_params_cloning: self.context_params_cloning,
            dependency_internal: self.dependency_internal,
            max_call_level: self.max_call_level,
            heartbeat_interval: self.heartbeat_interval,
            heartbeat_timeout: self.heartbeat_timeout,
            tracking: self.tracking,
            disable_balancer: self.disable_balancer,
            registry: self.registry,
            circuit_breaker: self.circuit_breaker,
            bulkhead: self.bulkhead,
            transit: self.transit,
            serializer: self.serializer,
            meta_data: self.meta_data,
            ip_list,
            hostname,
            instance_id,
        }
    }

    /// The configuration for this builder's settings, with a fresh random
    /// instance identifier; see `build_with`.
    pub fn build(self, hostname: String, interfaces: &Vec<IpAddress>) -> (r: Config)
        ensures
            keeps_settings(r, self),
            r.hostname == hostname,
            is_uuid_v4_text(r.instance_id@),
            lists_usable(r, interfaces@),
    {
        let instance_id = random_uuid_text();
        self.build_with(hostname, instance_id, interfaces)
    }
}

#[verifier::external_type_specification]
#[verifier::external_body]
pub struct ExJsonError(serde_json::Error);

/// A value could not be encoded with the selected codec; never worth retrying.
#[derive(Debug)]
pub enum SerializeError {
    JSON(serde_json::Error),
}

/// Bytes did not decode with the selected codec; never worth retrying.
#[derive(Debug)]
pub enum DeserializeError {
    JSON(serde_json::Error),
}

/// A configuration built from interfaces none of which has an IPv4,
/// non-loopback address has an empty address list.
pub proof fn lemma_empty_ip_list(c: Config, interfaces: Seq<IpAddress>)
    requires
        lists_usable(c, interfaces),
        forall|i: int| 0 <= i < interfaces.len() ==> !is_usable(#[trigger] interfaces[i]),
    ensures
        c.ip_list@.len() == 0,
{
    lemma_no_usable_addresses(interfaces);
}

} // verus!
