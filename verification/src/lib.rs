//! Clustering core for a distributed pub/sub broker.
//!
//! This library holds the decision logic that turns a set of independently
//! running broker processes into one consensus group: validating the
//! configured peer set and choosing a leader-or-follower role at bootstrap,
//! retrying address resolution and point-to-point RPC with bounded attempt
//! budgets, gating startup on the group reporting itself started, enforcing
//! the fail-fast supervision policy for the consensus run loop, and
//! admission-controlling cross-node background work through a bounded task
//! executor.
//!
//! All network, thread and process activity lives outside this crate; the
//! host feeds each component the outcome of every external step and carries
//! out the action the component decides on.

pub mod bootstrap;
pub mod executor;
pub mod gate;
pub mod messenger;
pub mod resolver;
pub mod stats;
pub mod supervisor;
