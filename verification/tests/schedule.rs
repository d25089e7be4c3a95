use std::time::Duration;
use std::time::Instant;

use timpani_n::proto::NodeSchedResponse;
use timpani_n::proto::ScheduledTask;
use timpani_n::schedule::sched_from_proto;
use timpani_n::schedule::task_from_proto;
use timpani_n::schedule::SchedInfo;
use timpani_n::schedule::TaskInfo;

fn make_task(name: &str, period_us: u32) -> TaskInfo {
    TaskInfo {
        name: name.chars().take(16).collect(),
        sched_policy: 2,
        sched_priority: 50,
        period_us,
        release_time_us: 0,
        runtime_us: 1000,
        deadline_us: period_us,
        cpu_affinity: 0x1,
        max_dmiss: 0,
    }
}

fn make_sched(workload_id: &str, tasks: Vec<TaskInfo>) -> SchedInfo {
    SchedInfo {
        workload_id: workload_id.to_string(),
        hyperperiod_us: 100_000,
        tasks,
        received_at: Instant::now(),
    }
}

fn message(name: &str) -> ScheduledTask {
    ScheduledTask {
        name: name.to_string(),
        sched_priority: 50,
        sched_policy: 1,
        period_us: 10_000,
        release_time_us: 7,
        runtime_us: 1_000,
        deadline_us: 9_000,
        cpu_affinity: 0x8000_0000_0000_0001,
        max_dmiss: 3,
        assigned_node: "node".to_string(),
    }
}

#[test]
fn test_sched_info_equal_content_different_received_at() {
    let task = make_task("task_a", 10_000);
    let a = make_sched("wl-1", vec![task.clone()]);
    let b = SchedInfo {
        workload_id: a.workload_id.clone(),
        hyperperiod_us: a.hyperperiod_us,
        tasks: a.tasks.clone(),
        received_at: Instant::now(),
    };
    assert_eq!(a, b, "Same content => equal regardless of received_at");
    assert!(!a.content_changed(&b), "No content change expected");
}

#[test]
fn test_sched_info_content_changed_task_param() {
    let a = make_sched("wl-1", vec![make_task("task_a", 10_000)]);
    let b = make_sched("wl-1", vec![make_task("task_a", 20_000)]);
    assert_ne!(a, b);
    assert!(a.content_changed(&b), "period_us change must be detected");
    assert!(
        !a.is_full_replacement(&b),
        "Same workload_id is not a replacement"
    );
}

#[test]
fn test_sched_info_full_replacement() {
    let a = make_sched("wl-1", vec![make_task("task_a", 10_000)]);
    let b = make_sched("wl-2", vec![make_task("task_b", 10_000)]);
    assert!(a.content_changed(&b));
    assert!(
        a.is_full_replacement(&b),
        "Different workload_id is a full replacement"
    );
}

#[test]
fn test_sched_info_task_count() {
    let a = make_sched(
        "wl-1",
        vec![make_task("t1", 5_000), make_task("t2", 10_000)],
    );
    assert_eq!(a.task_count(), 2);
}

#[test]
fn equality_ignores_the_time_of_the_fetch() {
    let mut a = make_sched("wl-1", vec![make_task("t1", 5_000)]);
    let b = make_sched("wl-1", vec![make_task("t1", 5_000)]);
    a.received_at = b.received_at + Duration::from_secs(3600);
    assert!(a == b && b == a);
    assert!(!a.content_changed(&b));
}

#[test]
fn equality_is_reflexive_symmetric_and_transitive() {
    let a = make_sched("wl-1", vec![make_task("t1", 5_000)]);
    let b = make_sched("wl-1", vec![make_task("t1", 5_000)]);
    let c = make_sched("wl-1", vec![make_task("t1", 5_000)]);
    assert!(a == a);
    assert!(a == b && b == a);
    assert!(b == c && a == c);
}

#[test]
fn another_workload_is_a_change_even_with_the_same_tasks() {
    let a = make_sched("wl-1", vec![]);
    let b = make_sched("wl-2", vec![]);
    assert!(a.content_changed(&b));
    assert!(a.is_full_replacement(&b));
}

#[test]
fn every_field_of_a_task_counts() {
    let base = make_task("task_a", 10_000);
    let changed = vec![
        TaskInfo { name: "task_b".to_string(), ..base.clone() },
        TaskInfo { sched_policy: 1, ..base.clone() },
        TaskInfo { sched_priority: 51, ..base.clone() },
        TaskInfo { period_us: 1, ..base.clone() },
        TaskInfo { release_time_us: 1, ..base.clone() },
        TaskInfo { runtime_us: 1, ..base.clone() },
        TaskInfo { deadline_us: 1, ..base.clone() },
        TaskInfo { cpu_affinity: 2, ..base.clone() },
        TaskInfo { max_dmiss: 1, ..base.clone() },
    ];
    for other in changed {
        assert_ne!(base, other);
        let a = make_sched("wl-1", vec![base.clone()]);
        assert!(a.content_changed(&make_sched("wl-1", vec![other])));
    }
}

#[test]
fn hyperperiod_order_and_number_of_tasks_count() {
    let a = make_sched("wl-1", vec![make_task("t1", 1), make_task("t2", 2)]);
    let mut longer = make_sched("wl-1", vec![make_task("t1", 1), make_task("t2", 2)]);
    longer.hyperperiod_us = 100_001;
    assert!(a.content_changed(&longer));
    let swapped = make_sched("wl-1", vec![make_task("t2", 2), make_task("t1", 1)]);
    assert!(a.content_changed(&swapped));
    let fewer = make_sched("wl-1", vec![make_task("t1", 1)]);
    assert!(a.content_changed(&fewer));
    assert!(fewer.content_changed(&a));
}

#[test]
fn a_message_is_taken_over_field_by_field() {
    let task = task_from_proto(&message("control"));
    assert_eq!(task.name, "control");
    assert_eq!(task.sched_priority, 50);
    assert_eq!(task.sched_policy, 1);
    assert_eq!(task.period_us, 10_000);
    assert_eq!(task.release_time_us, 7);
    assert_eq!(task.runtime_us, 1_000);
    assert_eq!(task.deadline_us, 9_000);
    assert_eq!(task.cpu_affinity, 0x8000_0000_0000_0001);
    assert_eq!(task.max_dmiss, 3);
}

#[test]
fn negative_numbers_count_as_zero() {
    let task = task_from_proto(&ScheduledTask {
        sched_priority: -1,
        sched_policy: i32::MIN,
        period_us: -2,
        release_time_us: -3,
        runtime_us: -4,
        deadline_us: -5,
        max_dmiss: -6,
        ..message("control")
    });
    assert_eq!(task.sched_priority, 0);
    assert_eq!(task.sched_policy, 0);
    assert_eq!(task.period_us, 0);
    assert_eq!(task.release_time_us, 0);
    assert_eq!(task.runtime_us, 0);
    assert_eq!(task.deadline_us, 0);
    assert_eq!(task.max_dmiss, 0);
    let largest = task_from_proto(&ScheduledTask { period_us: i32::MAX, ..message("x") });
    assert_eq!(largest.period_us, 2_147_483_647);
}

#[test]
fn names_keep_their_first_sixteen_characters() {
    assert_eq!(task_from_proto(&message("")).name, "");
    assert_eq!(task_from_proto(&message("0123456789abcdef")).name, "0123456789abcdef");
    assert_eq!(task_from_proto(&message("0123456789abcdefg")).name, "0123456789abcdef");
    let wide = "\u{fc}\u{e9}\u{4e2d}".repeat(6);
    let expected: String = wide.chars().take(16).collect();
    assert_eq!(task_from_proto(&message(&wide)).name, expected);
}

#[test]
fn a_schedule_is_taken_over_with_its_tasks_in_order() {
    let now = Instant::now();
    let sched = sched_from_proto(
        NodeSchedResponse {
            workload_id: "wl-9".to_string(),
            hyperperiod_us: 1_000_000,
            tasks: vec![message("first"), message("second")],
        },
        now,
    );
    assert_eq!(sched.workload_id, "wl-9");
    assert_eq!(sched.hyperperiod_us, 1_000_000);
    assert_eq!(sched.received_at, now);
    assert_eq!(sched.task_count(), 2);
    assert_eq!(sched.tasks[0], task_from_proto(&message("first")));
    assert_eq!(sched.tasks[1], task_from_proto(&message("second")));
}
