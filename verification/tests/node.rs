use std::sync::Arc;
use std::time::Duration;
use std::time::Instant;

use timpani_n::config::Config;
use timpani_n::context::InitReply;
use timpani_n::context::InitRequest;
use timpani_n::context::SyncStartTime;
use timpani_n::error::TimpaniError;
use timpani_n::error::TimpaniResult;
use timpani_n::node::run_app;
use timpani_n::node::Action;
use timpani_n::node::Event;
use timpani_n::node::Node;
use timpani_n::node::Phase;
use timpani_n::proto::NodeSchedResponse;
use timpani_n::proto::ScheduledTask;
use timpani_n::proto::SyncResponse;
use timpani_n::task::TaskReply;
use timpani_n::task::TaskRequest;

fn config(port: u16, enable_sync: bool, max_retries: u32) -> Config {
    Config {
        addr: "127.0.0.1".to_string(),
        port,
        node_id: "test-node".to_string(),
        enable_sync,
        max_retries,
        ..Default::default()
    }
}

fn workload(workload_id: &str, hyperperiod_us: u64, tasks: Vec<ScheduledTask>) -> Event {
    Event::Schedule {
        reply: Ok(NodeSchedResponse {
            workload_id: workload_id.to_string(),
            hyperperiod_us,
            tasks,
        }),
        received_at: Instant::now(),
    }
}

fn no_workload(error: TimpaniError) -> Event {
    Event::Schedule { reply: Err(error), received_at: Instant::now() }
}

fn task(name: &str) -> ScheduledTask {
    ScheduledTask {
        name: name.to_string(),
        sched_policy: 0,
        sched_priority: 0,
        period_us: 10_000,
        release_time_us: 0,
        runtime_us: 1_000,
        deadline_us: 10_000,
        cpu_affinity: 0,
        max_dmiss: 0,
        assigned_node: String::new(),
    }
}

/// A node that is initialized and told to connect.
fn connecting(config: Config) -> (Node, Action) {
    let (node, action) = run_app(config, 7);
    assert!(matches!(action, Action::InstallSignals));
    let (node, action) = node.step(Event::SignalsInstalled(Ok(())));
    assert!(matches!(action, Action::Init(InitRequest::Calibrate)));
    node.step(Event::Init(InitReply::Calibrated(Ok(123))))
}

/// A node that is connected and told to fetch the schedule.
fn fetching(config: Config) -> Node {
    let (node, action) = connecting(config);
    assert!(matches!(action, Action::Connect { .. }));
    let (node, action) = node.step(Event::Connected(Ok(())));
    assert!(matches!(action, Action::FetchSchedule { node_id } if node_id == "test-node"));
    node
}

/// Sets one task up, with the thread 40 and `pidfd`.
fn set_up(node: Node, pidfd: i32) -> (Node, Action) {
    let (node, action) = node.step(Event::Task(TaskReply::Located(Ok(40))));
    assert!(matches!(action, Action::Task(TaskRequest::Schedule(_))));
    let (node, action) = node.step(Event::Task(TaskReply::Scheduled(Ok(()))));
    assert!(matches!(action, Action::Task(TaskRequest::Open { pid: 40 })));
    node.step(Event::Task(TaskReply::Opened(Ok(pidfd))))
}

/// A node that runs a workload with one task, whose pidfd is 5, and was told to poll.
fn polling(config: Config) -> Node {
    let (node, _) = fetching(config).step(workload("wl", 1_000, vec![task("a")]));
    let (node, action) = set_up(node, 5);
    assert!(matches!(action, Action::AwaitTick));
    let (node, action) = node.step(Event::Tick);
    assert!(matches!(action, Action::FetchSchedule { node_id } if node_id == "test-node"));
    node
}

fn exits_with(action: &Action, expected: TimpaniResult<()>, closed: Vec<i32>) -> bool {
    matches!(action, Action::Exit { result, pidfds } if *result == expected && *pidfds == closed)
}

#[test]
fn test_run_app_without_sync() {
    let node = fetching(config(50200, false, 3));
    let (node, action) = node.step(workload("test-workload-001", 1_000_000, vec![]));
    assert!(matches!(action, Action::AwaitTick));
    assert!(matches!(node.phase, Phase::Watching));
    assert!(node.ctx.runtime.sync_start.is_none());
}

#[test]
fn test_run_app_with_sync() {
    let node = fetching(config(50201, true, 3));
    let (node, action) = node.step(workload("test-workload-001", 1_000_000, vec![]));
    assert!(matches!(action, Action::Sync { node_id } if node_id == "test-node"));
    let (node, action) = node.step(Event::Synced(Ok(SyncResponse {
        ack: true,
        start_time_sec: 1234567890,
        start_time_nsec: 123456789,
    })));
    assert!(matches!(action, Action::AwaitTick));
    assert_eq!(
        node.ctx.runtime.sync_start,
        Some(SyncStartTime { sec: 1234567890, nsec: 123456789 })
    );
}

#[test]
fn test_run_app_sync_fails() {
    let node = fetching(config(50202, true, 1));
    let (node, _) = node.step(workload("test-workload-001", 1_000_000, vec![]));
    let (_, action) = node.step(Event::Synced(Ok(SyncResponse {
        ack: false,
        start_time_sec: 1234567890,
        start_time_nsec: 123456789,
    })));
    assert!(exits_with(&action, Err(TimpaniError::Network), vec![]));
}

#[test]
fn test_run_app_workload_not_ready_retries() {
    let mut node = fetching(config(50203, false, 2));
    for _ in 0..2 {
        let (waiting, action) = node.step(no_workload(TimpaniError::NotReady));
        assert!(matches!(action, Action::Wait));
        let (again, action) = waiting.step(Event::Waited);
        assert!(matches!(action, Action::FetchSchedule { .. }));
        node = again;
    }
    let (_, action) = node.step(no_workload(TimpaniError::NotReady));
    assert!(exits_with(&action, Err(TimpaniError::Network), vec![]));
}

#[test]
fn test_run_app_connection_fails() {
    let (node, action) = connecting(config(50299, false, 0));
    assert!(matches!(
        action,
        Action::Connect { endpoint, max_retries: 0 } if endpoint == "http://127.0.0.1:50299"
    ));
    let (_, action) = node.step(Event::Connected(Err(TimpaniError::Network)));
    assert!(exits_with(&action, Err(TimpaniError::Network), vec![]));
}

#[test]
fn test_run_app_workload_id_replaced() {
    let node = fetching(config(50300, false, 3));
    let (node, _) = node.step(workload("workload-v1", 1_000_000, vec![]));
    let (node, _) = node.step(Event::Tick);
    let (node, action) = node.step(workload("workload-v2", 1_000_000, vec![]));
    assert!(matches!(action, Action::Release { pidfds, replaced: true } if pidfds.is_empty()));
    let (node, action) = node.step(Event::Released);
    assert!(
        matches!(action, Action::AwaitTick),
        "run_app must keep running after a workload replacement with an empty task list"
    );
    assert_eq!(node.ctx.runtime.sched_info.as_ref().unwrap().workload_id, "workload-v2");
}

#[test]
fn test_run_app_workload_params_updated() {
    let node = fetching(config(50301, false, 3));
    let (node, _) = node.step(workload("workload-stable", 1_000_000, vec![]));
    let (node, _) = node.step(Event::Tick);
    let (node, action) = node.step(workload("workload-stable", 2_000_000, vec![]));
    assert!(matches!(action, Action::Release { replaced: false, .. }));
    let (node, action) = node.step(Event::Released);
    assert!(
        matches!(action, Action::AwaitTick),
        "run_app must keep running after an in-place hyperperiod update"
    );
    assert_eq!(node.ctx.runtime.sched_info.as_ref().unwrap().hyperperiod_us, 2_000_000);
}

#[test]
fn test_run_app_polling_notready_keeps_running() {
    let node = fetching(config(50302, false, 3));
    let (node, _) = node.step(workload("workload-gone", 1_000_000, vec![]));
    let (node, _) = node.step(Event::Tick);
    let (node, action) = node.step(no_workload(TimpaniError::NotReady));
    assert!(
        matches!(action, Action::AwaitTick),
        "NOT_FOUND during poll must not terminate run_app"
    );
    assert_eq!(node.ctx.runtime.sched_info.as_ref().unwrap().workload_id, "workload-gone");
}

#[test]
fn test_run_app_init_task_list_fails_on_update() {
    let node = fetching(config(50303, false, 3));
    let (node, _) = node.step(workload("workload-v1", 1_000_000, vec![]));
    let (node, _) = node.step(Event::Tick);
    let (node, _) = node.step(workload("workload-v2", 1_000_000, vec![task("__no_such_proc__")]));
    let (node, action) = node.step(Event::Released);
    assert!(matches!(
        action,
        Action::Task(TaskRequest::Locate { name }) if name == "__no_such_proc__"
    ));
    let (_, action) = node.step(Event::Task(TaskReply::Located(Err(TimpaniError::Io))));
    assert!(
        exits_with(&action, Err(TimpaniError::Io), vec![]),
        "init_task_list failure during a workload update must propagate as TimpaniError::Io"
    );
}

#[test]
fn signal_handlers_that_cannot_be_installed_end_the_node() {
    let (node, _) = run_app(config(1, false, 0), 7);
    let (node, action) = node.step(Event::SignalsInstalled(Err(TimpaniError::Signal)));
    assert!(exits_with(&action, Err(TimpaniError::Signal), vec![]));
    assert!(matches!(node.phase, Phase::Stopped));
}

#[test]
fn an_initialization_that_fails_ends_the_node() {
    let (node, _) = run_app(Config { cpu: 3, prio: 20, ..config(1, false, 0) }, 7);
    let (node, action) = node.step(Event::SignalsInstalled(Ok(())));
    assert!(matches!(action, Action::Init(InitRequest::Pin { pid: 7, cpu: 3 })));
    let (node, action) = node.step(Event::Init(InitReply::Pinned(Ok(()))));
    assert!(matches!(action, Action::Init(InitRequest::Schedule(_))));
    let (_, action) =
        node.step(Event::Init(InitReply::Scheduled(Err(TimpaniError::Permission))));
    assert!(exits_with(&action, Err(TimpaniError::Permission), vec![]));
}

#[test]
fn the_measured_offset_is_kept() {
    let node = fetching(config(1, false, 0));
    assert_eq!(node.ctx.runtime.ktime_offset, 123);
}

#[test]
fn without_retries_the_first_vain_fetch_ends_the_node() {
    let (_, action) = fetching(config(1, false, 0)).step(no_workload(TimpaniError::NotReady));
    assert!(exits_with(&action, Err(TimpaniError::Network), vec![]));
}

#[test]
fn another_error_of_the_first_fetch_ends_the_node_at_once() {
    let (_, action) = fetching(config(1, false, 9)).step(no_workload(TimpaniError::Io));
    assert!(exits_with(&action, Err(TimpaniError::Io), vec![]));
}

#[test]
fn a_signal_while_waiting_for_a_workload_ends_the_node() {
    let (node, _) = fetching(config(1, false, 9)).step(no_workload(TimpaniError::NotReady));
    let (_, action) = node.step(Event::Cancelled);
    assert!(exits_with(&action, Err(TimpaniError::Signal), vec![]));
}

#[test]
fn a_task_that_fails_at_the_start_ends_the_node() {
    let node = fetching(config(1, false, 0));
    let (node, _) = node.step(workload("wl", 1_000, vec![task("a"), task("b")]));
    let (node, _) = set_up(node, 5);
    let (_, action) = node.step(Event::Task(TaskReply::Located(Err(TimpaniError::Io))));
    assert!(exits_with(&action, Err(TimpaniError::Io), vec![5]));
}

#[test]
fn a_refused_barrier_closes_the_pidfds() {
    let node = fetching(config(1, true, 0));
    let (node, _) = node.step(workload("wl", 1_000, vec![task("a"), task("b")]));
    let (node, _) = set_up(node, 5);
    let (node, _) = set_up(node, 6);
    let (_, action) = node.step(Event::Synced(Ok(SyncResponse {
        ack: false,
        start_time_sec: 0,
        start_time_nsec: 0,
    })));
    assert!(exits_with(&action, Err(TimpaniError::Network), vec![5, 6]));
}

#[test]
fn a_barrier_that_fails_passes_its_error_on() {
    let (node, _) = fetching(config(1, true, 0)).step(workload("wl", 1_000, vec![]));
    let (_, action) = node.step(Event::Synced(Err(TimpaniError::Io)));
    assert!(exits_with(&action, Err(TimpaniError::Io), vec![]));
}

#[test]
fn a_running_node_has_an_entry_for_each_task() {
    let node = fetching(config(50051, false, 0));
    let (node, _) = node.step(workload("wl", 1_000, vec![task("a"), task("b")]));
    let (node, _) = set_up(node, 5);
    let (node, action) = set_up(node, 6);
    assert!(matches!(action, Action::AwaitTick));
    let sched = node.ctx.runtime.sched_info.as_ref().unwrap();
    assert_eq!(node.ctx.runtime.tt_list.len(), sched.task_count());
    for (trigger, info) in node.ctx.runtime.tt_list.iter().zip(&sched.tasks) {
        assert_eq!(trigger.info, *info);
    }
    assert_eq!(
        node.ctx.comm.node_client.as_ref().unwrap().endpoint,
        "http://127.0.0.1:50051"
    );
}

#[test]
fn a_failed_fetch_keeps_everything() {
    for error in [TimpaniError::NotReady, TimpaniError::Network, TimpaniError::Io] {
        let node = polling(config(1, false, 0));
        let fetched = node.ctx.runtime.sched_info.as_ref().unwrap().received_at;
        let (node, action) = node.step(no_workload(error));
        assert!(matches!(action, Action::AwaitTick));
        assert_eq!(node.ctx.runtime.tt_list[0].pidfd, 5);
        assert_eq!(node.ctx.runtime.sched_info.as_ref().unwrap().received_at, fetched);
    }
}

#[test]
fn the_same_content_only_advances_the_time() {
    let node = polling(config(1, false, 0));
    let later = Instant::now() + Duration::from_secs(2);
    let (node, action) = node.step(Event::Schedule {
        reply: Ok(NodeSchedResponse {
            workload_id: "wl".to_string(),
            hyperperiod_us: 1_000,
            tasks: vec![task("a")],
        }),
        received_at: later,
    });
    assert!(matches!(action, Action::AwaitTick));
    assert_eq!(node.ctx.runtime.sched_info.as_ref().unwrap().received_at, later);
    assert_eq!(node.ctx.runtime.tt_list[0].pidfd, 5);
}

#[test]
fn another_content_replaces_the_tasks() {
    let node = polling(config(1, false, 0));
    let (node, action) = node.step(workload("wl", 1_000, vec![task("b"), task("c")]));
    assert!(
        matches!(action, Action::Release { pidfds, replaced: false } if pidfds == vec![5])
    );
    let (node, action) = node.step(Event::Released);
    assert!(matches!(action, Action::Task(TaskRequest::Locate { name }) if name == "b"));
    let (node, _) = set_up(node, 8);
    let (node, action) = set_up(node, 9);
    assert!(matches!(action, Action::AwaitTick));
    let held: Vec<i32> = node.ctx.runtime.tt_list.iter().map(|t| t.pidfd).collect();
    assert_eq!(held, vec![8, 9]);
    assert_eq!(node.ctx.runtime.sched_info.as_ref().unwrap().tasks[1].name, "c");
}

#[test]
fn a_replacement_that_fails_closes_only_the_new_pidfds() {
    let node = polling(config(1, false, 0));
    let (node, _) = node.step(workload("other", 1_000, vec![task("b"), task("c")]));
    let (node, _) = node.step(Event::Released);
    let (node, _) = set_up(node, 8);
    let (_, action) = node.step(Event::Task(TaskReply::Located(Err(TimpaniError::Io))));
    assert!(exits_with(&action, Err(TimpaniError::Io), vec![8]));
}

#[test]
fn a_signal_ends_a_running_node_well() {
    let (node, _) = polling(config(1, false, 0)).step(no_workload(TimpaniError::NotReady));
    let (node, action) = node.step(Event::Cancelled);
    assert!(exits_with(&action, Ok(()), vec![5]));
    assert!(node.ctx.runtime.tt_list.is_empty());
    let (node, action) = node.step(Event::Tick);
    assert!(matches!(action, Action::Unexpected));
    assert!(matches!(node.phase, Phase::Stopped));
}

#[test]
fn an_event_out_of_turn_changes_nothing() {
    let node = polling(config(1, false, 0));
    let (node, action) = node.step(Event::Waited);
    assert!(matches!(action, Action::Unexpected));
    assert!(matches!(node.phase, Phase::Polling));
    assert_eq!(node.ctx.runtime.tt_list[0].pidfd, 5);
    let building = fetching(config(1, false, 0)).step(workload("wl", 1, vec![task("a")])).0;
    let (building, action) = building.step(Event::Task(TaskReply::Opened(Ok(3))));
    assert!(matches!(action, Action::Unexpected));
    assert!(matches!(building.phase, Phase::Building { .. }));
    let (_, action) = set_up(building, 5);
    assert!(matches!(action, Action::AwaitTick));
}

#[test]
fn a_policy_that_is_unknown_ends_the_node() {
    let odd = ScheduledTask { sched_policy: 6, ..task("a") };
    let (node, _) = fetching(config(1, false, 0)).step(workload("wl", 1, vec![odd]));
    let (_, action) = node.step(Event::Task(TaskReply::Located(Ok(40))));
    assert!(exits_with(&action, Err(TimpaniError::InvalidArgs), vec![]));
}

#[test]
fn the_configuration_and_the_process_stay_the_same() {
    let (node, _) = polling(config(50051, false, 4)).step(workload("other", 9, vec![]));
    let (node, _) = node.step(Event::Released);
    let (node, _) = node.step(Event::Cancelled);
    assert_eq!(node.pid, 7);
    assert_eq!(node.ctx.config.port, 50051);
    assert_eq!(node.ctx.config.node_id, "test-node");
    assert_eq!(node.ctx.config.max_retries, 4);
    assert!(!node.ctx.runtime.shutdown_requested);
}

#[test]
fn the_entries_of_a_running_node_share_no_state() {
    let node = fetching(config(1, false, 0));
    let (node, _) = node.step(workload("wl", 1_000, vec![task("a"), task("b")]));
    let (node, _) = set_up(node, 5);
    let (node, _) = set_up(node, 6);
    let list = &node.ctx.runtime.tt_list;
    assert!(!Arc::ptr_eq(&list[0].bpf_state, &list[1].bpf_state));
}
