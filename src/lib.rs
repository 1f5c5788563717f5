//! Verified core of a high-frequency switch telemetry pipeline: netlink
//! reassembly, IPFIX template and record decoding, SAI counter naming, the
//! coalescing counter-store writer and the periodic reporter.

pub mod bytes;
pub mod netlink;
pub mod ipfix;
pub mod stats;
pub mod text;
pub mod registry;
pub mod messages;
pub mod decoder;
pub mod sai_buffer;
pub mod sai_port;
pub mod sai_queue;
pub mod sai_types;
pub mod writer;
pub mod session;
pub mod order;
pub mod reporter;
pub mod config;
pub mod ingress;
