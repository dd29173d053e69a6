use cluster_raft::executor::ExecutorStats;
use cluster_raft::stats::{ClusterSnapshot, NodeClientStats, PeerStats};
use cluster_raft::supervisor::{
    scheduler_config, supervisor_verdict, RunTermination, EXIT_FLUSH_DELAY_MS, EXIT_STATUS,
    SUPERVISOR_WORKER_STACK_BYTES, SUPERVISOR_WORKER_THREADS,
};

#[test]
fn dedicated_scheduler_shape() {
    assert_eq!(SUPERVISOR_WORKER_THREADS, 8);
    assert_eq!(SUPERVISOR_WORKER_STACK_BYTES, 4 * 1024 * 1024);
    let c = scheduler_config();
    assert_eq!(c.worker_threads, 8);
    assert_eq!(c.worker_stack_bytes, 4 * 1024 * 1024);
}

#[test]
fn every_run_loop_termination_is_fatal() {
    for termination in [
        RunTermination::RanToEnd,
        RunTermination::EngineFailed,
        RunTermination::SchedulerFailed,
    ] {
        let action = supervisor_verdict(termination);
        assert_ne!(action.exit_status, 0);
        assert_eq!(action.exit_status, EXIT_STATUS);
        assert_eq!(action.flush_delay_ms, EXIT_FLUSH_DELAY_MS);
        assert_eq!(action.flush_delay_ms, 500);
    }
}

#[test]
fn snapshot_assembles_the_counters_it_is_given() {
    let peers = vec![
        PeerStats { node_id: 2, active_tasks: 1, grpc_fails: 0 },
        PeerStats { node_id: 3, active_tasks: 0, grpc_fails: 4 },
    ];
    let nodes = vec![NodeClientStats { node_id: 2, channel_tasks: 5, active_tasks: 1 }];
    let exec = ExecutorStats { waiting_count: 3, active_count: 2, completed_count: 11 };
    let snapshot = ClusterSnapshot::assemble(Some(true), peers.clone(), nodes.clone(), 9, exec);
    assert_eq!(snapshot.raft_started, Some(true));
    assert_eq!(snapshot.raft_peers, peers);
    assert_eq!(snapshot.grpc_nodes, nodes);
    assert_eq!(snapshot.client_states, 9);
    assert_eq!(snapshot.task_exec, exec);
}
