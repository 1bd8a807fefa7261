//! Control-plane client model for an external media-processing subprocess.
//!
//! The crate models the inter-process channel protocol (framing, request
//! correlation, notification fan-out) and the cascading resource-ownership
//! graph shared by a worker session and the routers, transports, producers
//! and consumers living under it. All decision logic is verified; byte
//! streams, process handling and task scheduling are left to the embedding
//! application.

pub mod channel;
pub mod data_consumer;
pub mod data_producer;
pub mod data_structures;
pub mod frame;
pub mod graph;
pub mod ids;
pub mod json;
pub mod messages;
pub mod registry;
pub mod rtp_parameters;
pub mod sctp_parameters;
pub mod supported_rtp_capabilities;
pub mod text;
pub mod worker;
