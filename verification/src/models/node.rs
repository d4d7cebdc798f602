//! Node models.
//!
//! The node create/modify/response schemas carry a floating-point usage
//! coefficient and therefore live with the asynchronous shell; the models
//! here are the ones the verified core can hold.

use vstd::prelude::*;

verus! {

/// The panel's node settings: minimum supported node version and the TLS
/// certificate.
#[derive(Clone, Debug)]
pub struct NodeSettings {
    pub min_node_version: String,
    pub certificate: String,
}

/// A node's connection state.
#[derive(Clone, Copy, PartialEq, Eq, Structural, Debug)]
pub enum NodeStatus {
    Connected,
    Connecting,
    Error,
    Disabled,
}

/// Usage figures for one node.
#[derive(Clone, Debug)]
pub struct NodeUsageResponse {
    pub node_id: Option<u64>,
    pub node_name: String,
    pub uplink: u64,
    pub downlink: u64,
}

/// Usage figures for all nodes.
#[derive(Clone, Debug)]
pub struct NodesUsageResponse {
    pub usages: Vec<NodeUsageResponse>,
}

} // verus!
