use crate::config::{config_topic, Channel, Config};
use vstd::prelude::*;

verus! {

/// The topic of the `Event` role.
pub fn event(config: &Config) -> (r: String)
    ensures
        r@ == config_topic(Channel::Event, config),
{
    Channel::Event.channel_to_string(config)
}

/// The topic of the `Request` role.
pub fn request(config: &Config) -> (r: String)
    ensures
        r@ == config_topic(Channel::Request, config),
{
    Channel::Request.channel_to_string(config)
}

/// The topic of the `Response` role.
pub fn response(config: &Config) -> (r: String)
    ensures
        r@ == config_topic(Channel::Response, config),
{
    Channel::Response.channel_to_string(config)
}

/// The topic of the `Discover` role.
pub fn discover(config: &Config) -> (r: String)
    ensures
        r@ == config_topic(Channel::Discover, config),
{
    Channel::Discover.channel_to_string(config)
}

/// The topic of the `DiscoverTargeted` role.
pub fn discover_targeted(config: &Config) -> (r: String)
    ensures
        r@ == config_topic(Channel::DiscoverTargeted, config),
{
    Channel::DiscoverTargeted.channel_to_string(config)
}

/// The topic of the `Info` role.
pub fn info(config: &Config) -> (r: String)
    ensures
        r@ == config_topic(Channel::Info, config),
{
    Channel::Info.channel_to_string(config)
}

/// The topic of the `InfoTargeted` role.
pub fn info_targeted(config: &Config) -> (r: String)
    ensures
        r@ == config_topic(Channel::InfoTargeted, config),
{
    Channel::InfoTargeted.channel_to_string(config)
}

/// The topic of the `Heartbeat` role.
pub fn heartbeat(config: &Config) -> (r: String)
    ensures
        r@ == config_topic(Channel::Heartbeat, config),
{
    Channel::Heartbeat.channel_to_string(config)
}

/// The topic of the `Ping` role.
pub fn ping(config: &Config) -> (r: String)
    ensures
        r@ == config_topic(Channel::Ping, config),
{
    Channel::Ping.channel_to_string(config)
}

/// The topic of the `PingTargeted` role.
pub fn ping_targeted(config: &Config) -> (r: String)
    ensures
        r@ == config_topic(Channel::PingTargeted, config),
{
    Channel::PingTargeted.channel_to_string(config)
}

/// The topic of the `Pong` role.
pub fn pong(config: &Config) -> (r: String)
    ensures
        r@ == config_topic(Channel::Pong, config),
{
    Channel::Pong.channel_to_string(config)
}

/// The topic of the `Disconnect` role.
pub fn disconnect(config: &Config) -> (r: String)
    ensures
        r@ == config_topic(Channel::Disconnect, config),
{
    Channel::Disconnect.channel_to_string(config)
}

} // verus!
