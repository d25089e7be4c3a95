//! Schedules: what the scheduler assigned to this node.

use std::time::Instant;
use vstd::prelude::*;
use vstd::std_specs::cmp::PartialEqSpec;
use vstd::string::*;

use crate::proto::NodeSchedResponse;
use crate::proto::ScheduledTask;

verus! {

/// The scheduling parameters of one task.
#[derive(Debug)]
pub struct TaskInfo {
    /// The task's name. [`task_from_proto`] keeps at most 16 characters of it;
    /// the type itself has no such limit.
    pub name: String,
    /// Linux scheduling policy (0 = NORMAL, 1 = FIFO, 2 = RR).
    pub sched_policy: u32,
    /// Linux real-time priority (0 for NORMAL, 1 to 99 for FIFO and RR).
    pub sched_priority: u32,
    /// Period in microseconds.
    pub period_us: u32,
    /// Offset of the release within the hyperperiod, in microseconds.
    pub release_time_us: u32,
    /// Worst-case execution time in microseconds.
    pub runtime_us: u32,
    /// Relative deadline in microseconds.
    pub deadline_us: u32,
    /// The CPUs that the task may run on: bit N stands for CPU N, 0 for any CPU.
    pub cpu_affinity: u64,
    /// How many deadlines may be missed before a fault is reported.
    pub max_dmiss: u32,
}

/// What a [`TaskInfo`] says, with the name as a sequence of characters.
pub struct TaskView {
    pub name: Seq<char>,
    pub sched_policy: u32,
    pub sched_priority: u32,
    pub period_us: u32,
    pub release_time_us: u32,
    pub runtime_us: u32,
    pub deadline_us: u32,
    pub cpu_affinity: u64,
    pub max_dmiss: u32,
}

impl View for TaskInfo {
    type V = TaskView;

    open spec fn view(&self) -> TaskView {
        TaskView {
            name: self.name@,
            sched_policy: self.sched_policy,
            sched_priority: self.sched_priority,
            period_us: self.period_us,
            release_time_us: self.release_time_us,
            runtime_us: self.runtime_us,
            deadline_us: self.deadline_us,
            cpu_affinity: self.cpu_affinity,
            max_dmiss: self.max_dmiss,
        }
    }
}

impl Clone for TaskInfo {
    fn clone(&self) -> (copy: Self)
        ensures
            copy@ == self@,
    {
        TaskInfo {
            name: self.name.clone(),
            sched_policy: self.sched_policy,
            sched_priority: self.sched_priority,
            period_us: self.period_us,
            release_time_us: self.release_time_us,
            runtime_us: self.runtime_us,
            deadline_us: self.deadline_us,
            cpu_affinity: self.cpu_affinity,
            max_dmiss: self.max_dmiss,
        }
    }
}

impl vstd::std_specs::cmp::PartialEqSpecImpl for TaskInfo {
    open spec fn obeys_eq_spec() -> bool {
        true
    }

    open spec fn eq_spec(&self, other: &TaskInfo) -> bool {
        self@ == other@
    }
}

impl PartialEq for TaskInfo {
    fn eq(&self, other: &TaskInfo) -> (same: bool) {
        self.name == other.name && self.sched_policy == other.sched_policy && self.sched_priority
            == other.sched_priority && self.period_us == other.period_us && self.release_time_us
            == other.release_time_us && self.runtime_us == other.runtime_us && self.deadline_us
            == other.deadline_us && self.cpu_affinity == other.cpu_affinity && self.max_dmiss
            == other.max_dmiss
    }
}

/// The views of a list of tasks.
pub open spec fn task_views(tasks: Seq<TaskInfo>) -> Seq<TaskView> {
    tasks.map_values(|task: TaskInfo| task@)
}

/// Whether two lists hold equal tasks in the same order.
fn same_tasks(left: &Vec<TaskInfo>, right: &Vec<TaskInfo>) -> (same: bool)
    ensures
        same == (task_views(left@) == task_views(right@)),
{
    if left.len() != right.len() {
        assert(task_views(left@).len() != task_views(right@).len());
        return false;
    }
    for i in 0..left.len()
        invariant
            left@.len() == right@.len(),
            forall|j: int| 0 <= j < i ==> left@[j]@ == right@[j]@,
    {
        if left[i] != right[i] {
            assert(task_views(left@)[i as int] != task_views(right@)[i as int]);
            return false;
        }
    }
    assert(task_views(left@) =~= task_views(right@));
    true
}

/// A schedule as it was fetched from the scheduler.
#[derive(Debug)]
pub struct SchedInfo {
    /// The workload. A schedule of another workload replaces this one as a whole.
    pub workload_id: String,
    /// Hyperperiod in microseconds.
    pub hyperperiod_us: u64,
    /// The tasks of this node.
    pub tasks: Vec<TaskInfo>,
    /// When the schedule was last fetched. It takes no part in comparisons.
    pub received_at: Instant,
}

/// The content of a schedule: all of it but the time at which it was fetched.
pub struct SchedView {
    pub workload_id: Seq<char>,
    pub hyperperiod_us: u64,
    pub tasks: Seq<TaskView>,
}

impl View for SchedInfo {
    type V = SchedView;

    open spec fn view(&self) -> SchedView {
        SchedView {
            workload_id: self.workload_id@,
            hyperperiod_us: self.hyperperiod_us,
            tasks: task_views(self.tasks@),
        }
    }
}

impl vstd::std_specs::cmp::PartialEqSpecImpl for SchedInfo {
    open spec fn obeys_eq_spec() -> bool {
        true
    }

    open spec fn eq_spec(&self, other: &SchedInfo) -> bool {
        self@ == other@
    }
}

impl PartialEq for SchedInfo {
    /// Compares the contents; `received_at` is left out on purpose.
    fn eq(&self, other: &SchedInfo) -> (same: bool) {
        self.workload_id == other.workload_id && self.hyperperiod_us == other.hyperperiod_us
            && same_tasks(&self.tasks, &other.tasks)
    }
}

impl SchedInfo {
    /// Whether the content differs from that of `other`.
    pub fn content_changed(&self, other: &SchedInfo) -> (changed: bool)
        ensures
            changed == (self@ != other@),
    {
        self != other
    }

    /// Whether `other` belongs to another workload, as opposed to a new version of
    /// the same one.
    pub fn is_full_replacement(&self, other: &SchedInfo) -> (replaced: bool)
        ensures
            replaced == (self@.workload_id != other@.workload_id),
    {
        self.workload_id != other.workload_id
    }

    /// The number of tasks in the schedule.
    pub fn task_count(&self) -> (count: usize)
        ensures
            count == self@.tasks.len(),
    {
        self.tasks.len()
    }
}

/// A wire value as the node takes it: negative values count as 0.
pub open spec fn floor_at_zero(value: i32) -> u32 {
    if value < 0 {
        0
    } else {
        value as u32
    }
}

fn at_least_zero(value: i32) -> (floored: u32)
    ensures
        floored == floor_at_zero(value),
{
    if value < 0 {
        0
    } else {
        value as u32
    }
}

/// How many characters of a task's name the node keeps.
pub const TASK_NAME_MAX: usize = 16;

/// The first [`TASK_NAME_MAX`] characters of a name.
pub open spec fn short_name(name: Seq<char>) -> Seq<char> {
    if name.len() <= TASK_NAME_MAX {
        name
    } else {
        name.take(TASK_NAME_MAX as int)
    }
}

/// The task that a message describes.
pub open spec fn proto_task(task: ScheduledTask) -> TaskView {
    TaskView {
        name: short_name(task.name@),
        sched_policy: floor_at_zero(task.sched_policy),
        sched_priority: floor_at_zero(task.sched_priority),
        period_us: floor_at_zero(task.period_us),
        release_time_us: floor_at_zero(task.release_time_us),
        runtime_us: floor_at_zero(task.runtime_us),
        deadline_us: floor_at_zero(task.deadline_us),
        cpu_affinity: task.cpu_affinity,
        max_dmiss: floor_at_zero(task.max_dmiss),
    }
}

/// Takes a task over from a message: negative numbers become 0, the name keeps its
/// first 16 characters, and the CPU bitmask is copied as it is.
pub fn task_from_proto(t: &ScheduledTask) -> (task: TaskInfo)
    ensures
        task@ == proto_task(*t),
{
    let length: usize = t.name.as_str().unicode_len();
    let kept: usize = if length <= TASK_NAME_MAX {
        length
    } else {
        TASK_NAME_MAX
    };
    let name = t.name.as_str().substring_char(0, kept).to_owned();
    assert(name@ =~= short_name(t.name@));
    TaskInfo {
        name,
        sched_policy: at_least_zero(t.sched_policy),
        sched_priority: at_least_zero(t.sched_priority),
        period_us: at_least_zero(t.period_us),
        release_time_us: at_least_zero(t.release_time_us),
        runtime_us: at_least_zero(t.runtime_us),
        deadline_us: at_least_zero(t.deadline_us),
        cpu_affinity: t.cpu_affinity,
        max_dmiss: at_least_zero(t.max_dmiss),
    }
}

/// The schedule that a message describes.
pub open spec fn proto_schedule(response: NodeSchedResponse) -> SchedView {
    SchedView {
        workload_id: response.workload_id@,
        hyperperiod_us: response.hyperperiod_us,
        tasks: response.tasks@.map_values(|task: ScheduledTask| proto_task(task)),
    }
}

/// Takes a schedule over from a message that came in at `received_at`.
pub fn sched_from_proto(response: NodeSchedResponse, received_at: Instant) -> (sched: SchedInfo)
    ensures
        sched@ == proto_schedule(response),
        sched.received_at == received_at,
{
    let mut tasks: Vec<TaskInfo> = Vec::with_capacity(response.tasks.len());
    for i in 0..response.tasks.len()
        invariant
            tasks@.len() == i,
            forall|j: int| 0 <= j < i ==> tasks@[j]@ == proto_task(response.tasks@[j]),
    {
        tasks.push(task_from_proto(&response.tasks[i]));
    }
    assert(task_views(tasks@) =~= proto_schedule(response).tasks);
    SchedInfo {
        workload_id: response.workload_id,
        hyperperiod_us: response.hyperperiod_us,
        tasks,
        received_at,
    }
}

/// When a schedule was fetched is no part of its content: two schedules that differ
/// in `received_at` alone are equal, and compare alike with any third one.
pub proof fn law_fetch_time_is_not_content(a: SchedInfo, b: SchedInfo, other: SchedInfo)
    requires
        b == (SchedInfo { received_at: b.received_at, ..a }),
    ensures
        a.eq_spec(&b),
        a.eq_spec(&other) == b.eq_spec(&other),
        other.eq_spec(&a) == other.eq_spec(&b),
{
}

/// Equality of schedules is reflexive, symmetric and transitive.
pub proof fn law_equality_is_an_equivalence(a: SchedInfo, b: SchedInfo, c: SchedInfo)
    ensures
        a.eq_spec(&a),
        a.eq_spec(&b) ==> b.eq_spec(&a),
        a.eq_spec(&b) && b.eq_spec(&c) ==> a.eq_spec(&c),
{
}

/// A schedule of another workload always counts as changed.
pub proof fn law_replacement_is_a_change(a: SchedInfo, b: SchedInfo)
    requires
        a@.workload_id != b@.workload_id,
    ensures
        a@ != b@,
        !a.eq_spec(&b),
{
}

/// Schedules are equal exactly when the workload, the hyperperiod, the number of
/// tasks and every task, place by place, are equal.
pub proof fn law_content_is_field_by_field(a: SchedInfo, b: SchedInfo)
    ensures
        a.eq_spec(&b) <==> {
            &&& a.workload_id@ == b.workload_id@
            &&& a.hyperperiod_us == b.hyperperiod_us
            &&& a.tasks@.len() == b.tasks@.len()
            &&& forall|i: int| 0 <= i < a.tasks@.len() ==> (#[trigger] a.tasks@[i])@ == b.tasks@[i]@
        },
{
    if a.eq_spec(&b) {
        assert(a@.tasks.len() == b@.tasks.len());
        assert forall|i: int| 0 <= i < a.tasks@.len() implies (#[trigger] a.tasks@[i])@
            == b.tasks@[i]@ by {
            assert(a@.tasks[i] == b@.tasks[i]);
        }
    }
    if a.tasks@.len() == b.tasks@.len() && forall|i: int|
        0 <= i < a.tasks@.len() ==> (#[trigger] a.tasks@[i])@ == b.tasks@[i]@ {
        assert(a@.tasks =~= b@.tasks);
    }
}

/// A name taken over from a message has at most 16 characters, starts as the
/// message's name does, and is that name where it was no longer than this.
pub proof fn law_name_is_a_short_prefix(task: ScheduledTask)
    ensures
        proto_task(task).name.len() <= TASK_NAME_MAX,
        proto_task(task).name.is_prefix_of(task.name@),
        task.name@.len() <= TASK_NAME_MAX ==> proto_task(task).name == task.name@,
{
}

/// The view of a task says what the task says, field by field.
pub proof fn law_task_view_keeps_every_field(task: TaskInfo)
    ensures
        task@.name == task.name@,
        task@.sched_policy == task.sched_policy,
        task@.sched_priority == task.sched_priority,
        task@.period_us == task.period_us,
        task@.release_time_us == task.release_time_us,
        task@.runtime_us == task.runtime_us,
        task@.deadline_us == task.deadline_us,
        task@.cpu_affinity == task.cpu_affinity,
        task@.max_dmiss == task.max_dmiss,
{
}

/// The view of a schedule says what the schedule says but for the time of the fetch: the
/// workload, the hyperperiod, and each task at its place.
pub proof fn law_schedule_view_keeps_every_task(sched: SchedInfo)
    ensures
        sched@.workload_id == sched.workload_id@,
        sched@.hyperperiod_us == sched.hyperperiod_us,
        sched@.tasks.len() == sched.tasks@.len(),
        forall|i: int| 0 <= i < sched.tasks@.len() ==> #[trigger] sched@.tasks[i] == sched.tasks@[i]@,
{
}

/// Tasks are equal exactly when all their fields are.
pub proof fn law_task_equality_is_field_by_field(a: TaskInfo, b: TaskInfo)
    ensures
        a.eq_spec(&b) <==> {
            &&& a.name@ == b.name@
            &&& a.sched_policy == b.sched_policy
            &&& a.sched_priority == b.sched_priority
            &&& a.period_us == b.period_us
            &&& a.release_time_us == b.release_time_us
            &&& a.runtime_us == b.runtime_us
            &&& a.deadline_us == b.deadline_us
            &&& a.cpu_affinity == b.cpu_affinity
            &&& a.max_dmiss == b.max_dmiss
        },
{
}

/// A task taken over from a message has the message's CPU bitmask, bit by bit, and each of
/// its numbers is the message's number of that name, or 0 where that is negative.
pub proof fn law_message_numbers_are_kept(task: ScheduledTask)
    ensures
        proto_task(task).cpu_affinity == task.cpu_affinity,
        forall|i: u64|
            i < 64 ==> #[trigger] (proto_task(task).cpu_affinity >> i) & 1 == (task.cpu_affinity
                >> i) & 1,
        proto_task(task).sched_policy == if task.sched_policy < 0 {
            0
        } else {
            task.sched_policy as int
        },
        proto_task(task).sched_priority == if task.sched_priority < 0 {
            0
        } else {
            task.sched_priority as int
        },
        proto_task(task).period_us == if task.period_us < 0 {
            0
        } else {
            task.period_us as int
        },
        proto_task(task).release_time_us == if task.release_time_us < 0 {
            0
        } else {
            task.release_time_us as int
        },
        proto_task(task).runtime_us == if task.runtime_us < 0 {
            0
        } else {
            task.runtime_us as int
        },
        proto_task(task).deadline_us == if task.deadline_us < 0 {
            0
        } else {
            task.deadline_us as int
        },
        proto_task(task).max_dmiss == if task.max_dmiss < 0 {
            0
        } else {
            task.max_dmiss as int
        },
{
}

/// A name taken over from a message is cut after 16 characters, and not before: it has as
/// many characters as the message's name, up to 16, and each is the message's at its place.
pub proof fn law_name_is_cut_after_sixteen(task: ScheduledTask)
    ensures
        task.name@.len() <= 16 ==> proto_task(task).name.len() == task.name@.len(),
        task.name@.len() > 16 ==> proto_task(task).name.len() == 16,
        forall|i: int|
            0 <= i < proto_task(task).name.len() ==> #[trigger] proto_task(task).name[i]
                == task.name@[i],
{
}

/// A schedule taken over from a message has the message's workload and hyperperiod, and one
/// task for each of the message's, in order. Which node a task was assigned to leaves no
/// trace in it.
pub proof fn law_message_is_taken_over_as_a_whole(response: NodeSchedResponse)
    ensures
        proto_schedule(response).workload_id == response.workload_id@,
        proto_schedule(response).hyperperiod_us == response.hyperperiod_us,
        proto_schedule(response).tasks.len() == response.tasks@.len(),
        forall|i: int|
            0 <= i < response.tasks@.len() ==> #[trigger] proto_schedule(response).tasks[i]
                == proto_task(response.tasks@[i]),
{
}

/// Two messages lead to tasks that differ wherever the messages differ in what is kept: the
/// CPU bitmask always counts, and so does each number where neither is negative.
pub proof fn law_different_messages_differ(a: ScheduledTask, b: ScheduledTask)
    requires
        proto_task(a) == proto_task(b),
    ensures
        a.cpu_affinity == b.cpu_affinity,
        a.sched_policy >= 0 && b.sched_policy >= 0 ==> a.sched_policy == b.sched_policy,
        a.sched_priority >= 0 && b.sched_priority >= 0 ==> a.sched_priority == b.sched_priority,
        a.period_us >= 0 && b.period_us >= 0 ==> a.period_us == b.period_us,
        a.release_time_us >= 0 && b.release_time_us >= 0 ==> a.release_time_us
            == b.release_time_us,
        a.runtime_us >= 0 && b.runtime_us >= 0 ==> a.runtime_us == b.runtime_us,
        a.deadline_us >= 0 && b.deadline_us >= 0 ==> a.deadline_us == b.deadline_us,
        a.max_dmiss >= 0 && b.max_dmiss >= 0 ==> a.max_dmiss == b.max_dmiss,
        a.name@.len() <= 16 && b.name@.len() <= 16 ==> a.name@ == b.name@,
{
}

} // verus!
