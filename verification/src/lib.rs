//! Decision core of a rendezvous server: the peer registry, the identity and
//! ban policy, the resilience rules of the persistence layer and the relay
//! rotation, each as verified functions over plain values.

pub mod abuse;
pub mod breaker;
pub mod clock;
pub mod database;
pub mod http_api;
pub mod ident;
pub mod idmap;
pub mod net;
pub mod peer;
pub mod relay;
pub mod rendezvous_server;
pub mod text;
