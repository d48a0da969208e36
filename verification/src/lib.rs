//! Peer-to-peer connectivity core: identifiers, peer bookkeeping, frame codecs
//! and the decisions of the daemon's network and control layers.

pub mod buffer;
pub mod identifier;
pub mod codec;
pub mod channel_codec;
pub mod address;
pub mod peer;
pub mod table;
pub mod protocol;
pub mod network;
pub mod unix;
pub mod discovery;
pub mod connection;
pub mod identity;
pub mod config;
pub mod io;
