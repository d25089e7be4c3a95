use std::sync::atomic::Ordering;
use std::sync::Arc;
use std::time::Instant;

use timpani_n::error::TimpaniError;
use timpani_n::error::TimpaniResult;
use timpani_n::sched::get_pid_by_name;
use timpani_n::sched::get_process_name_by_pid;
use timpani_n::sched::set_affinity_cpumask;
use timpani_n::sched::SchedRequest;
use timpani_n::sched::ThreadEntry;
use timpani_n::sched::ThreadList;
use timpani_n::schedule::SchedInfo;
use timpani_n::schedule::TaskInfo;
use timpani_n::task::init_task_list;
use timpani_n::task::teardown_task_list;
use timpani_n::task::BpfState;
use timpani_n::task::TaskReply;
use timpani_n::task::TaskRequest;
use timpani_n::task::TaskStep;
use timpani_n::task::TimeTrigger;

fn scan_threads() -> Option<Vec<Option<ThreadList>>> {
    let processes = procfs::process::all_processes().ok()?;
    Some(
        processes
            .map(|process| {
                let tasks = process.ok()?.tasks().ok()?;
                Some(
                    tasks
                        .map(|task| {
                            task.ok().map(|task| ThreadEntry {
                                tid: task.tid,
                                comm: task.stat().ok().map(|stat| stat.comm),
                            })
                        })
                        .collect(),
                )
            })
            .collect(),
    )
}

/// Sets the tasks up on this machine, with a policy that is accepted and pidfds counted
/// from 100.
fn run_init(sched: SchedInfo) -> TimpaniResult<Vec<TimeTrigger>> {
    let mut next_pidfd = 100;
    let (mut init, mut step) = init_task_list(sched);
    loop {
        let reply = match step {
            TaskStep::Ask(TaskRequest::Locate { name }) => {
                TaskReply::Located(get_pid_by_name(&name, scan_threads().as_ref()))
            }
            TaskStep::Ask(TaskRequest::Pin { pid, cpumask }) => {
                TaskReply::Pinned(set_affinity_cpumask(pid, cpumask))
            }
            TaskStep::Ask(TaskRequest::Schedule(_)) => TaskReply::Scheduled(Ok(())),
            TaskStep::Ask(TaskRequest::Open { .. }) => {
                next_pidfd += 1;
                TaskReply::Opened(Ok(next_pidfd - 1))
            }
            TaskStep::Done => return Ok(init.triggers),
            TaskStep::Failed { error, .. } => return Err(error),
            TaskStep::Unexpected => panic!("every reply is one that was asked for"),
        };
        let (next, came_to) = init.step(reply);
        init = next;
        step = came_to;
    }
}

fn task(name: &str, cpu_affinity: u64, sched_policy: u32, sched_priority: u32) -> TaskInfo {
    TaskInfo {
        name: name.to_string(),
        sched_policy,
        sched_priority,
        period_us: 10_000,
        release_time_us: 0,
        runtime_us: 1_000,
        deadline_us: 10_000,
        cpu_affinity,
        max_dmiss: 0,
    }
}

fn self_task_info(cpu_affinity: u64, sched_policy: u32, sched_priority: u32) -> TaskInfo {
    let comm = procfs::process::Process::new(nix::unistd::getpid().as_raw())
        .and_then(|p| p.stat())
        .map(|s| s.comm)
        .ok();
    let name = get_process_name_by_pid(comm).expect("must be able to read own comm name");
    task(&name, cpu_affinity, sched_policy, sched_priority)
}

fn make_sched(tasks: Vec<TaskInfo>) -> SchedInfo {
    SchedInfo {
        workload_id: "test-wl".to_string(),
        hyperperiod_us: 100_000,
        tasks,
        received_at: Instant::now(),
    }
}

#[test]
fn bpf_state_initializes_to_zero() {
    let s = BpfState::new();
    assert_eq!(s.sigwait_ts.load(Ordering::Relaxed), 0);
    assert!(!s.sigwait_enter.load(Ordering::Relaxed));
}

#[test]
fn bpf_state_default_equals_new() {
    let a = BpfState::default();
    let b = BpfState::new();
    assert_eq!(
        a.sigwait_ts.load(Ordering::Relaxed),
        b.sigwait_ts.load(Ordering::Relaxed)
    );
    assert_eq!(
        a.sigwait_enter.load(Ordering::Relaxed),
        b.sigwait_enter.load(Ordering::Relaxed)
    );
}

#[test]
fn teardown_empty_list_does_not_panic() {
    teardown_task_list(vec![]);
}

#[test]
fn init_task_list_empty_sched_info_returns_empty_vec() {
    let sched_info = SchedInfo {
        workload_id: "test-wl".to_string(),
        hyperperiod_us: 100_000,
        tasks: vec![],
        received_at: Instant::now(),
    };
    let result = run_init(sched_info).expect("empty task list must succeed");
    assert!(result.is_empty());
}

#[test]
fn init_task_list_unknown_process_returns_error() {
    let sched_info = SchedInfo {
        workload_id: "test-wl".to_string(),
        hyperperiod_us: 100_000,
        tasks: vec![TaskInfo {
            name: "__no_such_process__".to_string(),
            sched_policy: 0,
            sched_priority: 0,
            period_us: 10_000,
            release_time_us: 0,
            runtime_us: 1_000,
            deadline_us: 10_000,
            cpu_affinity: 0,
            max_dmiss: 0,
        }],
        received_at: Instant::now(),
    };
    let result = run_init(sched_info);
    assert!(result.is_err(), "unknown process must return an error");
}

#[test]
fn init_task_list_with_self_zero_affinity_succeeds() {
    let sched_info = make_sched(vec![self_task_info(0, 0, 0)]);
    let tt = run_init(sched_info).expect("must succeed for the current process");
    assert!(!tt.is_empty(), "TimeTrigger list must be non-empty");
    assert!(tt[0].pid > 0, "returned PID must be positive");
}

#[test]
fn init_task_list_zero_affinity_does_not_change_affinity() {
    let sched_info = make_sched(vec![self_task_info(0, 0, 0)]);
    assert!(
        run_init(sched_info).is_ok(),
        "cpu_affinity=0 must not invoke set_affinity_cpumask (which rejects mask=0)"
    );
}

#[test]
fn init_task_list_with_self_applies_affinity() {
    let self_pid = nix::unistd::getpid();
    let original = nix::sched::sched_getaffinity(self_pid).ok();

    let sched_info = make_sched(vec![self_task_info(0x1, 0, 0)]);
    if let Ok(tt) = run_init(sched_info) {
        let tid = nix::unistd::Pid::from_raw(tt[0].pid);
        if let Ok(mask) = nix::sched::sched_getaffinity(tid) {
            assert!(
                matches!(mask.is_set(0), Ok(true)),
                "CPU 0 must be set after init with cpu_affinity=0x1"
            );
            let num_cpus =
                nix::unistd::sysconf(nix::unistd::SysconfVar::_NPROCESSORS_ONLN).unwrap().unwrap();
            for i in 1..(num_cpus as usize).min(64) {
                assert!(
                    matches!(mask.is_set(i), Ok(false)),
                    "CPU {i} must not be set when cpu_affinity=0x1"
                );
            }
        }
    }

    if let Some(ref orig) = original {
        let _ = nix::sched::sched_setaffinity(self_pid, orig);
    }
}

#[test]
fn init_task_list_invalid_policy_returns_error() {
    let sched_info = make_sched(vec![self_task_info(0, 99, 0)]);
    assert!(
        matches!(run_init(sched_info), Err(TimpaniError::InvalidArgs)),
        "sched_policy=99 must produce TimpaniError::InvalidArgs"
    );
}

#[test]
fn bpf_state_arc_write_visible_across_clone() {
    let state = Arc::new(BpfState::new());
    let clone = Arc::clone(&state);
    state.sigwait_ts.store(99_999, Ordering::SeqCst);
    state.sigwait_enter.store(true, Ordering::SeqCst);
    assert_eq!(clone.sigwait_ts.load(Ordering::SeqCst), 99_999);
    assert!(clone.sigwait_enter.load(Ordering::SeqCst));
}

#[test]
fn the_four_steps_of_a_task_come_in_order() {
    let (init, step) = init_task_list(make_sched(vec![task("a", 0x6, 1, 50)]));
    assert!(matches!(step, TaskStep::Ask(TaskRequest::Locate { name }) if name == "a"));
    let (init, step) = init.step(TaskReply::Located(Ok(42)));
    assert!(matches!(step, TaskStep::Ask(TaskRequest::Pin { pid: 42, cpumask: 0x6 })));
    let (init, step) = init.step(TaskReply::Pinned(Ok(())));
    let expected = SchedRequest { pid: 42, policy: 1, priority: 50 };
    assert!(matches!(step, TaskStep::Ask(TaskRequest::Schedule(r)) if r == expected));
    let (init, step) = init.step(TaskReply::Scheduled(Ok(())));
    assert!(matches!(step, TaskStep::Ask(TaskRequest::Open { pid: 42 })));
    let (init, step) = init.step(TaskReply::Opened(Ok(9)));
    assert!(matches!(step, TaskStep::Done));
    assert_eq!(init.triggers.len(), 1);
    let trigger = &init.triggers[0];
    assert_eq!(trigger.info, task("a", 0x6, 1, 50));
    assert_eq!((trigger.pid, trigger.pidfd, trigger.sigwait_ts_prev), (42, 9, 0));
    assert!(trigger.prev_timer.is_none());
    assert_eq!(trigger.bpf_state.sigwait_ts.load(Ordering::Relaxed), 0);
    assert_eq!(teardown_task_list(init.triggers), vec![9]);
}

#[test]
fn a_task_for_any_cpu_is_not_pinned() {
    let (init, _) = init_task_list(make_sched(vec![task("a", 0, 0, 0)]));
    let (_, step) = init.step(TaskReply::Located(Ok(42)));
    assert!(matches!(step, TaskStep::Ask(TaskRequest::Schedule(_))));
}

#[test]
fn a_policy_or_priority_out_of_range_is_never_asked_for() {
    for bad in [task("a", 0, 3, 0), task("a", 0, u32::MAX, 0), task("a", 0, 1, 100)] {
        let (init, _) = init_task_list(make_sched(vec![bad]));
        let (_, step) = init.step(TaskReply::Located(Ok(42)));
        assert!(matches!(
            step,
            TaskStep::Failed { error: TimpaniError::InvalidArgs, ref pidfds } if pidfds.is_empty()
        ));
    }
}

#[test]
fn a_failure_gives_back_the_pidfds_opened_before_it() {
    let tasks = vec![task("a", 0, 0, 0), task("b", 0, 0, 0), task("c", 0, 0, 0)];
    let (mut init, _) = init_task_list(make_sched(tasks));
    for pidfd in [5, 6] {
        init = init.step(TaskReply::Located(Ok(1))).0;
        init = init.step(TaskReply::Scheduled(Ok(()))).0;
        init = init.step(TaskReply::Opened(Ok(pidfd))).0;
    }
    let (init, step) = init.step(TaskReply::Located(Err(TimpaniError::Io)));
    assert!(matches!(
        step,
        TaskStep::Failed { error: TimpaniError::Io, ref pidfds } if *pidfds == vec![5, 6]
    ));
    assert!(init.triggers.is_empty());
}

#[test]
fn each_step_passes_its_error_on() {
    let start = || init_task_list(make_sched(vec![task("a", 1, 0, 0)])).0;
    let located = || start().step(TaskReply::Located(Ok(42))).0;
    let pinned = || located().step(TaskReply::Pinned(Ok(()))).0;
    let scheduled = || pinned().step(TaskReply::Scheduled(Ok(()))).0;
    for (init, reply, expected) in [
        (start(), TaskReply::Located(Err(TimpaniError::Io)), TimpaniError::Io),
        (located(), TaskReply::Pinned(Err(TimpaniError::Permission)), TimpaniError::Permission),
        (pinned(), TaskReply::Scheduled(Err(TimpaniError::Permission)), TimpaniError::Permission),
        (scheduled(), TaskReply::Opened(Err(TimpaniError::InvalidArgs)), TimpaniError::InvalidArgs),
    ] {
        let (_, step) = init.step(reply);
        assert!(matches!(step, TaskStep::Failed { error, .. } if error == expected));
    }
}

#[test]
fn a_reply_that_nothing_waited_for_changes_nothing() {
    let (init, _) = init_task_list(make_sched(vec![task("a", 0, 0, 0)]));
    let (init, step) = init.step(TaskReply::Opened(Ok(3)));
    assert!(matches!(step, TaskStep::Unexpected));
    assert!(init.triggers.is_empty());
    let (_, step) = init.step(TaskReply::Located(Ok(42)));
    assert!(matches!(step, TaskStep::Ask(TaskRequest::Schedule(_))));
}

#[test]
fn a_done_list_has_an_entry_for_each_task_in_order() {
    let names = ["a", "b", "c"];
    let tasks = names.iter().map(|name| task(name, 0, 2, 10)).collect();
    let (mut init, _) = init_task_list(make_sched(tasks));
    let mut last = TaskStep::Unexpected;
    for i in 0..3 {
        init = init.step(TaskReply::Located(Ok(10 + i))).0;
        init = init.step(TaskReply::Scheduled(Ok(()))).0;
        let (next, step) = init.step(TaskReply::Opened(Ok(20 + i)));
        init = next;
        last = step;
    }
    assert!(matches!(last, TaskStep::Done));
    let found: Vec<&str> = init.triggers.iter().map(|t| t.info.name.as_str()).collect();
    assert_eq!(found, names);
    assert_eq!(init.triggers.iter().map(|t| t.pid).collect::<Vec<i32>>(), vec![10, 11, 12]);
    assert_eq!(teardown_task_list(init.triggers), vec![20, 21, 22]);
}

#[test]
fn no_two_entries_share_a_state() {
    let tasks = vec![task("a", 0, 0, 0), task("b", 0, 0, 0), task("c", 0, 0, 0)];
    let (mut init, _) = init_task_list(make_sched(tasks));
    for i in 0..3 {
        init = init.step(TaskReply::Located(Ok(10 + i))).0;
        init = init.step(TaskReply::Scheduled(Ok(()))).0;
        init = init.step(TaskReply::Opened(Ok(20 + i))).0;
    }
    for i in 0..3 {
        for j in 0..i {
            assert!(!Arc::ptr_eq(&init.triggers[i].bpf_state, &init.triggers[j].bpf_state));
        }
    }
    init.triggers[0].bpf_state.sigwait_ts.store(77, Ordering::SeqCst);
    assert_eq!(init.triggers[1].bpf_state.sigwait_ts.load(Ordering::SeqCst), 0);
}
