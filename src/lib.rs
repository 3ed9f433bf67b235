pub mod channel;
pub mod config;
pub mod network;
