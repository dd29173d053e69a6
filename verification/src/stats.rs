//! Observability snapshot of the cluster.
//!
//! A point-in-time, read-only view assembled from plain counters: consensus
//! status, per-peer health counters from the consensus engine, per-node RPC
//! channel counters, and the task executor's counts. The host reads the raw
//! counters from its handles, hands them here, and serializes the snapshot
//! for its status endpoint; nothing in the snapshot is cached beyond the
//! moment of the query.

use vstd::prelude::*;
use crate::executor::ExecutorStats;

verus! {

/// Health counters of one consensus peer, as the engine reports them.
#[derive(Debug, PartialEq, Eq, Clone, Copy)]
pub struct PeerStats {
    pub node_id: u64,
    pub active_tasks: u64,
    pub grpc_fails: u64,
}

/// Activity counters of the RPC client kept for one remote node.
#[derive(Debug, PartialEq, Eq, Clone, Copy)]
pub struct NodeClientStats {
    pub node_id: u64,
    pub channel_tasks: u64,
    pub active_tasks: u64,
}

/// The full observability snapshot.
#[derive(Debug, PartialEq, Eq)]
pub struct ClusterSnapshot {
    /// Whether the consensus group reported itself started; `None` when the
    /// status query failed.
    pub raft_started: Option<bool>,
    /// One entry per consensus peer.
    pub raft_peers: Vec<PeerStats>,
    /// One entry per remote RPC client.
    pub grpc_nodes: Vec<NodeClientStats>,
    /// How many client states the routing table holds.
    pub client_states: usize,
    /// The task executor's counters.
    pub task_exec: ExecutorStats,
}

impl ClusterSnapshot {
    /// Assemble a snapshot from the counters read at one query.
    pub fn assemble(
        raft_started: Option<bool>,
        raft_peers: Vec<PeerStats>,
        grpc_nodes: Vec<NodeClientStats>,
        client_states: usize,
        task_exec: ExecutorStats,
    ) -> (s: Self)
        ensures
            s.raft_started == raft_started,
            s.raft_peers == raft_peers,
            s.grpc_nodes == grpc_nodes,
            s.client_states == client_states,
            s.task_exec == task_exec,
    {
        ClusterSnapshot { raft_started, raft_peers, grpc_nodes, client_states, task_exec }
    }
}

} // verus!
