//! Verified core logic of the Ibeji digital twin samples: endpoint matching,
//! retry decisions, service discovery decisions, topic naming, simulated
//! vehicle signals, subscription and instance bookkeeping, and the request
//! handlers' decisions.

pub mod collections;
pub mod command;
pub mod constants;
pub mod consumer_config;
pub mod discovery;
pub mod retry;
pub mod seat_massager;
pub mod simulation;
pub mod status;
pub mod streaming;
pub mod streaming_consumer_config;
pub mod subscription;
pub mod text;
pub mod topic;
pub mod tutorial;
pub mod uri;
pub mod utils;
pub mod digital_twin_graph;
pub mod graph;
pub mod graph_walk;
pub mod json;
pub mod managed_subscribe;
pub mod messages;
pub mod misc;
pub mod mixed;
pub mod property;
pub mod provider_config;
pub mod registration;
pub mod registry;

pub use registry::is_subset;
