pub mod client;
pub mod codec;
pub mod connection;
pub mod dispatch;
pub mod identity;
pub mod keepalive;
pub mod roster;
pub mod settings;
pub mod tasks;
