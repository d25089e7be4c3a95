//! The tasks of a schedule at run time.
//!
//! A [`TimeTrigger`] holds what a scheduled task needs at run time: its parameters, its
//! process, a pidfd to signal it by, and the state shared with the kernel probes.
//!
//! The list of them is built in steps. [`init_task_list`] begins, and each step says what
//! to do next: find a process, set its affinity, set its policy, open a pidfd. The caller
//! does it and hands back the outcome, until the list is done or a task has failed.

use std::sync::atomic::AtomicBool;
use std::sync::atomic::AtomicU64;
use std::sync::Arc;
use std::time::Instant;
use vstd::prelude::*;

use crate::error::TimpaniError;
use crate::error::TimpaniResult;
use crate::sched::policy_of;
use crate::sched::sched_request;
use crate::sched::set_schedattr;
use crate::sched::SchedPolicy;
use crate::sched::SchedRequest;
use crate::schedule::SchedInfo;
use crate::schedule::SchedView;
use crate::schedule::TaskInfo;
use crate::schedule::TaskView;
use crate::sys::first_bool;
use crate::sys::first_u64;
use crate::sys::new_atomic_bool;
use crate::sys::new_atomic_u64;

verus! {

/// The state of a task that the timer and the kernel probes share.
#[derive(Debug)]
pub struct BpfState {
    /// When the task last entered `sigwaitinfo`, in nanoseconds of the monotonic clock.
    pub sigwait_ts: AtomicU64,
    /// Whether the task is inside `sigwaitinfo`.
    pub sigwait_enter: AtomicBool,
    /// The place of the task in its list. It tells the states of a list from one another.
    pub place: usize,
}

impl BpfState {
    /// The state of a task that was not seen to wait yet.
    pub fn new() -> (state: Self)
        ensures
            first_u64(state.sigwait_ts) == 0,
            first_bool(state.sigwait_enter) == false,
            state.place == 0,
    {
        BpfState::at(0)
    }

    /// The state of the task at a place of a list, which was not seen to wait yet.
    fn at(place: usize) -> (state: Self)
        ensures
            first_u64(state.sigwait_ts) == 0,
            first_bool(state.sigwait_enter) == false,
            state.place == place,
    {
        BpfState { sigwait_ts: new_atomic_u64(0), sigwait_enter: new_atomic_bool(false), place }
    }
}

impl Default for BpfState {
    fn default() -> (state: Self)
        ensures
            first_u64(state.sigwait_ts) == 0,
            first_bool(state.sigwait_enter) == false,
            state.place == 0,
    {
        BpfState::new()
    }
}

/// A scheduled task at run time.
#[derive(Debug)]
pub struct TimeTrigger {
    /// The task's parameters.
    pub info: TaskInfo,
    /// The thread that runs the task.
    pub pid: i32,
    /// A pidfd for `pid`, by which it can be signalled and not be mistaken for another.
    pub pidfd: i32,
    /// The state shared with the kernel probes.
    pub bpf_state: Arc<BpfState>,
    /// When the timer last fired for the task.
    pub prev_timer: Option<Instant>,
    /// The value of `sigwait_ts` at the previous tick of the timer.
    pub sigwait_ts_prev: u64,
}

/// What a [`TimeTrigger`] holds, with the shared state as it was made.
pub struct TriggerView {
    pub info: TaskView,
    pub pid: i32,
    pub pidfd: i32,
    pub first_sigwait_ts: u64,
    pub first_sigwait_enter: bool,
    /// The place of the task in its list, which tells the shared state from others.
    pub place: nat,
    pub prev_timer: Option<Instant>,
    pub sigwait_ts_prev: u64,
}

impl View for TimeTrigger {
    type V = TriggerView;

    open spec fn view(&self) -> TriggerView {
        TriggerView {
            info: self.info@,
            pid: self.pid,
            pidfd: self.pidfd,
            first_sigwait_ts: first_u64(self.bpf_state.sigwait_ts),
            first_sigwait_enter: first_bool(self.bpf_state.sigwait_enter),
            place: self.bpf_state.place as nat,
            prev_timer: self.prev_timer,
            sigwait_ts_prev: self.sigwait_ts_prev,
        }
    }
}

/// The entry of a task that was just set up, at a place of a list.
pub open spec fn fresh_trigger(info: TaskView, pid: i32, pidfd: i32, place: nat) -> TriggerView {
    TriggerView {
        info,
        pid,
        pidfd,
        first_sigwait_ts: 0,
        first_sigwait_enter: false,
        place,
        prev_timer: None,
        sigwait_ts_prev: 0,
    }
}

/// The views of a list of entries.
pub open spec fn trigger_views(triggers: Seq<TimeTrigger>) -> Seq<TriggerView> {
    triggers.map_values(|trigger: TimeTrigger| trigger@)
}

/// Each entry's state is the one that was made for its place, so that no two entries share
/// one.
pub open spec fn has_own_states(triggers: Seq<TriggerView>) -> bool {
    forall|i: int| 0 <= i < triggers.len() ==> (#[trigger] triggers[i]).place == i
}

/// There is an entry for each task, in order, with a state of its own.
pub open spec fn each_has_its_entry(tasks: Seq<TaskView>, triggers: Seq<TriggerView>) -> bool {
    &&& triggers.len() == tasks.len()
    &&& has_own_states(triggers)
    &&& forall|i: int| 0 <= i < triggers.len() ==> (#[trigger] triggers[i]).info == tasks[i]
}

/// The pidfds that a list of entries holds, in order.
pub open spec fn pidfds_of(triggers: Seq<TriggerView>) -> Seq<i32> {
    triggers.map_values(|trigger: TriggerView| trigger.pidfd)
}

/// What the setup of a task list waits for.
#[derive(Debug, Clone, Copy, PartialEq, Eq, Structural)]
pub enum TaskStage {
    /// The next task's process is looked for.
    Locate,
    /// Its affinity is set.
    Pin,
    /// Its policy and priority are set.
    Schedule,
    /// A pidfd is opened for it.
    Open,
    /// Nothing: the list is done, or a task has failed.
    Finished,
}

/// What is to be done next for a task list.
#[derive(Debug)]
pub enum TaskRequest {
    /// Find the thread that is called `name`.
    Locate { name: String },
    /// Let a thread run on the CPUs of `cpumask` alone.
    Pin { pid: i32, cpumask: u64 },
    /// Set the policy and priority of a thread.
    Schedule(SchedRequest),
    /// Open a pidfd.
    Open { pid: i32 },
}

/// A [`TaskRequest`], with the name as a sequence of characters.
pub enum TaskAsk {
    Locate { name: Seq<char> },
    Pin { pid: i32, cpumask: u64 },
    Schedule(SchedRequest),
    Open { pid: i32 },
}

impl View for TaskRequest {
    type V = TaskAsk;

    open spec fn view(&self) -> TaskAsk {
        match *self {
            TaskRequest::Locate { name } => TaskAsk::Locate { name: name@ },
            TaskRequest::Pin { pid, cpumask } => TaskAsk::Pin { pid, cpumask },
            TaskRequest::Schedule(request) => TaskAsk::Schedule(request),
            TaskRequest::Open { pid } => TaskAsk::Open { pid },
        }
    }
}

/// What came of a [`TaskRequest`].
#[derive(Debug, Clone, Copy)]
pub enum TaskReply {
    Located(TimpaniResult<i32>),
    Pinned(TimpaniResult<()>),
    Scheduled(TimpaniResult<()>),
    Opened(TimpaniResult<i32>),
}

/// What a step in the setup of a task list came to.
#[derive(Debug)]
pub enum TaskStep {
    /// Something is to be done next.
    Ask(TaskRequest),
    /// The list is complete.
    Done,
    /// A task has failed. The pidfds that were opened before it are to be closed.
    Failed { error: TimpaniError, pidfds: Vec<i32> },
    /// The reply is none that was waited for. Nothing changed.
    Unexpected,
}

/// A [`TaskStep`], with lists and names as sequences.
pub enum StepView {
    Ask(TaskAsk),
    Done,
    Failed { error: TimpaniError, pidfds: Seq<i32> },
    Unexpected,
}

impl View for TaskStep {
    type V = StepView;

    open spec fn view(&self) -> StepView {
        match *self {
            TaskStep::Ask(request) => StepView::Ask(request@),
            TaskStep::Done => StepView::Done,
            TaskStep::Failed { error, pidfds } => StepView::Failed { error, pidfds: pidfds@ },
            TaskStep::Unexpected => StepView::Unexpected,
        }
    }
}

/// A task list that is being set up.
#[derive(Debug)]
pub struct TaskListInit {
    /// The schedule whose tasks are set up, in order.
    pub sched: SchedInfo,
    /// The entries of the tasks that are set up.
    pub triggers: Vec<TimeTrigger>,
    /// What is waited for.
    pub stage: TaskStage,
    /// The thread of the task that is being set up, once it was found.
    pub pid: i32,
}

/// What a [`TaskListInit`] holds, with lists and names as sequences.
pub struct TaskListView {
    pub sched: SchedView,
    pub triggers: Seq<TriggerView>,
    pub stage: TaskStage,
    pub pid: i32,
}

impl View for TaskListInit {
    type V = TaskListView;

    open spec fn view(&self) -> TaskListView {
        TaskListView {
            sched: self.sched@,
            triggers: trigger_views(self.triggers@),
            stage: self.stage,
            pid: self.pid,
        }
    }
}

/// The list of a schedule none of whose tasks is set up.
pub open spec fn empty_list(sched: SchedView) -> TaskListView {
    TaskListView { sched, triggers: Seq::empty(), stage: TaskStage::Finished, pid: 0 }
}

impl TaskListView {
    /// The entries are those of the first tasks, in order and as they were set up, and
    /// there is a task left as long as something is waited for.
    pub open spec fn wf(self) -> bool {
        &&& self.triggers.len() <= self.sched.tasks.len()
        &&& self.stage != TaskStage::Finished ==> self.triggers.len() < self.sched.tasks.len()
        &&& forall|i: int|
            0 <= i < self.triggers.len() ==> #[trigger] self.triggers[i] == fresh_trigger(
                self.sched.tasks[i],
                self.triggers[i].pid,
                self.triggers[i].pidfd,
                i as nat,
            )
    }

    /// The task that is being set up.
    pub open spec fn current(self) -> TaskView {
        self.sched.tasks[self.triggers.len() as int]
    }

    /// Goes on to the next task, or ends where there is none.
    pub open spec fn next_task(self) -> (TaskListView, StepView) {
        if self.triggers.len() < self.sched.tasks.len() {
            (
                TaskListView { stage: TaskStage::Locate, ..self },
                StepView::Ask(TaskAsk::Locate { name: self.current().name }),
            )
        } else {
            (TaskListView { stage: TaskStage::Finished, ..self }, StepView::Done)
        }
    }

    /// Gives up and lets go of what was set up.
    pub open spec fn give_up(self, error: TimpaniError) -> (TaskListView, StepView) {
        (
            TaskListView { stage: TaskStage::Finished, triggers: Seq::empty(), ..self },
            StepView::Failed { error, pidfds: pidfds_of(self.triggers) },
        )
    }

    /// Goes on to the current task's policy and priority, if they are valid.
    pub open spec fn ask_policy(self) -> (TaskListView, StepView) {
        match policy_of(self.current().sched_policy as int) {
            Err(error) => self.give_up(error),
            Ok(policy) => match sched_request(self.pid, self.current().sched_priority, policy) {
                Err(error) => self.give_up(error),
                Ok(request) => (
                    TaskListView { stage: TaskStage::Schedule, ..self },
                    StepView::Ask(TaskAsk::Schedule(request)),
                ),
            },
        }
    }

    /// What a reply leads to.
    pub open spec fn next(self, reply: TaskReply) -> (TaskListView, StepView) {
        match (self.stage, reply) {
            (TaskStage::Locate, TaskReply::Located(Ok(pid))) => {
                if self.current().cpu_affinity != 0 {
                    (
                        TaskListView { stage: TaskStage::Pin, pid, ..self },
                        StepView::Ask(
                            TaskAsk::Pin { pid, cpumask: self.current().cpu_affinity },
                        ),
                    )
                } else {
                    (TaskListView { pid, ..self }).ask_policy()
                }
            },
            (TaskStage::Pin, TaskReply::Pinned(Ok(_))) => self.ask_policy(),
            (TaskStage::Schedule, TaskReply::Scheduled(Ok(_))) => (
                TaskListView { stage: TaskStage::Open, ..self },
                StepView::Ask(TaskAsk::Open { pid: self.pid }),
            ),
            (TaskStage::Open, TaskReply::Opened(Ok(pidfd))) => (TaskListView {
                triggers: self.triggers.push(
                    fresh_trigger(self.current(), self.pid, pidfd, self.triggers.len()),
                ),
                ..self
            }).next_task(),
            (TaskStage::Locate, TaskReply::Located(Err(error))) => self.give_up(error),
            (TaskStage::Pin, TaskReply::Pinned(Err(error))) => self.give_up(error),
            (TaskStage::Schedule, TaskReply::Scheduled(Err(error))) => self.give_up(error),
            (TaskStage::Open, TaskReply::Opened(Err(error))) => self.give_up(error),
            _ => (self, StepView::Unexpected),
        }
    }
}

/// Lets go of a task list: returns its pidfds, in order, which are to be closed.
pub fn teardown_task_list(tt_list: Vec<TimeTrigger>) -> (pidfds: Vec<i32>)
    ensures
        pidfds@ == pidfds_of(trigger_views(tt_list@)),
{
    let mut pidfds: Vec<i32> = Vec::with_capacity(tt_list.len());
    for i in 0..tt_list.len()
        invariant
            pidfds@.len() == i,
            forall|j: int| 0 <= j < i ==> pidfds@[j] == tt_list@[j].pidfd,
    {
        pidfds.push(tt_list[i].pidfd);
    }
    assert(pidfds@ =~= pidfds_of(trigger_views(tt_list@)));
    pidfds
}

/// Begins to set up the tasks of a schedule, in order.
///
/// For each task its thread is looked for by name, its affinity is set unless
/// `cpu_affinity` is 0, its policy and priority are set, and a pidfd is opened. The first
/// failure ends it all.
pub fn init_task_list(sched: SchedInfo) -> (started: (TaskListInit, TaskStep))
    ensures
        started.0.sched == sched,
        started.0@.wf(),
        (started.0@, started.1@) == empty_list(sched@).next_task(),
{
    let init = TaskListInit { sched, triggers: Vec::new(), stage: TaskStage::Finished, pid: 0 };
    assert(init@.triggers =~= Seq::<TriggerView>::empty());
    init.go_on()
}

impl TaskListInit {
    /// Goes on to the next task.
    fn go_on(self) -> (next: (TaskListInit, TaskStep))
        requires
            self@.triggers.len() <= self@.sched.tasks.len(),
        ensures
            next.0.sched == self.sched,
            (next.0@, next.1@) == self@.next_task(),
    {
        let mut init = self;
        let index: usize = init.triggers.len();
        if index < init.sched.tasks.len() {
            let name: String = init.sched.tasks[index].name.clone();
            init.stage = TaskStage::Locate;
            (init, TaskStep::Ask(TaskRequest::Locate { name }))
        } else {
            init.stage = TaskStage::Finished;
            (init, TaskStep::Done)
        }
    }

    /// Gives up with `error`.
    fn fail(self, error: TimpaniError) -> (next: (TaskListInit, TaskStep))
        ensures
            next.0.sched == self.sched,
            (next.0@, next.1@) == self@.give_up(error),
    {
        let TaskListInit { sched, triggers, stage: _, pid } = self;
        let pidfds = teardown_task_list(triggers);
        let init = TaskListInit { sched, triggers: Vec::new(), stage: TaskStage::Finished, pid };
        assert(init@.triggers =~= Seq::<TriggerView>::empty());
        (init, TaskStep::Failed { error, pidfds })
    }

    /// Goes on to the current task's policy and priority.
    fn schedule(self) -> (next: (TaskListInit, TaskStep))
        requires
            self@.triggers.len() < self@.sched.tasks.len(),
        ensures
            next.0.sched == self.sched,
            (next.0@, next.1@) == self@.ask_policy(),
    {
        let index: usize = self.triggers.len();
        let number: u32 = self.sched.tasks[index].sched_policy;
        let priority: u32 = self.sched.tasks[index].sched_priority;
        assert(number < 0x8000_0000 ==> (number as i32) == number) by (bit_vector);
        assert(number >= 0x8000_0000 ==> (number as i32) < 0) by (bit_vector);
        match SchedPolicy::try_from(number as i32) {
            Err(error) => self.fail(error),
            Ok(policy) => match set_schedattr(self.pid, priority, policy) {
                Err(error) => self.fail(error),
                Ok(request) => {
                    let mut init = self;
                    init.stage = TaskStage::Schedule;
                    (init, TaskStep::Ask(TaskRequest::Schedule(request)))
                },
            },
        }
    }

    /// Takes the outcome of what was asked for, and says what is to be done next.
    pub fn step(self, reply: TaskReply) -> (next: (TaskListInit, TaskStep))
        requires
            self@.wf(),
        ensures
            next.0.sched == self.sched,
            next.0@.wf(),
            (next.0@, next.1@) == self@.next(reply),
    {
        let mut init = self;
        let index: usize = init.triggers.len();
        match (init.stage, reply) {
            (TaskStage::Locate, TaskReply::Located(Ok(pid))) => {
                let cpumask: u64 = init.sched.tasks[index].cpu_affinity;
                init.pid = pid;
                if cpumask != 0 {
                    init.stage = TaskStage::Pin;
                    (init, TaskStep::Ask(TaskRequest::Pin { pid, cpumask }))
                } else {
                    init.schedule()
                }
            },
            (TaskStage::Pin, TaskReply::Pinned(Ok(_))) => init.schedule(),
            (TaskStage::Schedule, TaskReply::Scheduled(Ok(_))) => {
                let pid: i32 = init.pid;
                init.stage = TaskStage::Open;
                (init, TaskStep::Ask(TaskRequest::Open { pid }))
            },
            (TaskStage::Open, TaskReply::Opened(Ok(pidfd))) => {
                let trigger = TimeTrigger {
                    info: init.sched.tasks[index].clone(),
                    pid: init.pid,
                    pidfd,
                    bpf_state: Arc::new(BpfState::at(index)),
                    prev_timer: None,
                    sigwait_ts_prev: 0,
                };
                let ghost before = init@;
                init.triggers.push(trigger);
                assert(init@.triggers =~= before.triggers.push(
                    fresh_trigger(before.current(), before.pid, pidfd, before.triggers.len()),
                ));
                init.go_on()
            },
            (TaskStage::Locate, TaskReply::Located(Err(error))) => init.fail(error),
            (TaskStage::Pin, TaskReply::Pinned(Err(error))) => init.fail(error),
            (TaskStage::Schedule, TaskReply::Scheduled(Err(error))) => init.fail(error),
            (TaskStage::Open, TaskReply::Opened(Err(error))) => init.fail(error),
            _ => (init, TaskStep::Unexpected),
        }
    }
}

// Laws

/// What the outside world answers about one task.
pub struct TaskReplies {
    pub located: TimpaniResult<i32>,
    pub pinned: TimpaniResult<()>,
    pub scheduled: TimpaniResult<()>,
    pub opened: TimpaniResult<i32>,
}

/// What setting up one task, at a place of a list, comes to, step by step: its thread is located, pinned unless
/// any CPU will do, scheduled if policy and priority are valid, and a pidfd is opened. The
/// first step that fails decides.
pub open spec fn task_result(task: TaskView, world: TaskReplies, place: nat) -> TimpaniResult<
    TriggerView,
> {
    match world.located {
        Err(error) => Err(error),
        Ok(pid) => match (if task.cpu_affinity == 0 {
            Ok(())
        } else {
            world.pinned
        }) {
            Err(error) => Err(error),
            Ok(_) => match policy_of(task.sched_policy as int) {
                Err(error) => Err(error),
                Ok(policy) => match sched_request(pid, task.sched_priority, policy) {
                    Err(error) => Err(error),
                    Ok(_) => match world.scheduled {
                        Err(error) => Err(error),
                        Ok(_) => match world.opened {
                            Err(error) => Err(error),
                            Ok(pidfd) => Ok(fresh_trigger(task, pid, pidfd, place)),
                        },
                    },
                },
            },
        },
    }
}

/// The entries of the first `n` tasks.
pub open spec fn entries(tasks: Seq<TaskView>, world: Seq<TaskReplies>, n: nat) -> Seq<TriggerView> {
    Seq::new(n, |i: int| task_result(tasks[i], world[i], i as nat)->Ok_0)
}

impl TaskListView {
    /// What the world answers to what is waited for.
    pub open spec fn answer(self, world: Seq<TaskReplies>) -> TaskReply {
        let replies = world[self.triggers.len() as int];
        match self.stage {
            TaskStage::Locate => TaskReply::Located(replies.located),
            TaskStage::Pin => TaskReply::Pinned(replies.pinned),
            TaskStage::Schedule => TaskReply::Scheduled(replies.scheduled),
            _ => TaskReply::Opened(replies.opened),
        }
    }

    /// A bound on how many steps are left.
    pub open spec fn steps_left(self) -> int {
        4 * (self.sched.tasks.len() - self.triggers.len()) - match self.stage {
            TaskStage::Locate => 0int,
            TaskStage::Pin => 1,
            TaskStage::Schedule => 2,
            _ => 3,
        }
    }

    /// Takes steps, with the world's answers, until nothing more is asked.
    pub open spec fn run(self, world: Seq<TaskReplies>) -> (TaskListView, StepView)
        decreases self.steps_left(),
        when self.wf() && self.stage != TaskStage::Finished
    {
        let (next, answered) = self.next(self.answer(world));
        if answered is Ask {
            next.run(world)
        } else {
            (next, answered)
        }
    }
}

/// Where the setup of a schedule's tasks ends, with the world's answers.
pub open spec fn setup(sched: SchedView, world: Seq<TaskReplies>) -> (TaskListView, StepView) {
    let (start, step) = empty_list(sched).next_task();
    if step is Ask {
        start.run(world)
    } else {
        (start, step)
    }
}

/// The first `n` tasks can be set up, and the next one, if there is one, fails.
pub open spec fn fails_after(tasks: Seq<TaskView>, world: Seq<TaskReplies>, n: int) -> bool {
    &&& 0 <= n <= tasks.len()
    &&& forall|i: int| 0 <= i < n ==> task_result(#[trigger] tasks[i], world[i], i as nat) is Ok
    &&& n < tasks.len() ==> task_result(tasks[n], world[n], n as nat) is Err
}

/// What `end` and `step` are where the first `n` tasks can be set up and the next fails.
pub open spec fn ends_after(
    tasks: Seq<TaskView>,
    world: Seq<TaskReplies>,
    n: int,
    end: TaskListView,
    step: StepView,
) -> bool {
    if n == tasks.len() {
        step == StepView::Done && end.triggers == entries(tasks, world, n as nat)
    } else {
        step == (StepView::Failed {
            error: task_result(tasks[n], world[n], n as nat)->Err_0,
            pidfds: pidfds_of(entries(tasks, world, n as nat)),
        }) && end.triggers == Seq::<TriggerView>::empty()
    }
}

proof fn lemma_run_follows_the_tasks(list: TaskListView, world: Seq<TaskReplies>, n: int)
    requires
        list.wf(),
        list.stage == TaskStage::Locate,
        list.triggers.len() <= n,
        list.triggers == entries(list.sched.tasks, world, list.triggers.len()),
        fails_after(list.sched.tasks, world, n),
    ensures
        ({
            let (end, step) = list.run(world);
            ends_after(list.sched.tasks, world, n, end, step)
        }),
    decreases n - list.triggers.len(),
{
    reveal_with_fuel(TaskListView::run, 5);
    let k = list.triggers.len() as int;
    let tasks = list.sched.tasks;
    let result = task_result(tasks[k], world[k], k as nat);
    if k < n {
        let pid = world[k].located->Ok_0;
        let done = TaskListView {
            triggers: list.triggers.push(result->Ok_0),
            stage: TaskStage::Open,
            pid,
            ..list
        };
        assert(done.triggers =~= entries(tasks, world, (k + 1) as nat));
        let (next, step) = done.next_task();
        if k + 1 < tasks.len() {
            lemma_run_follows_the_tasks(next, world, n);
        }
    }
}

/// Setting up a schedule sets up its tasks one after the other, as [`task_result`] says of
/// each. Where all can be set up, the list holds one entry for each task, in order. Where
/// one fails, its error is reported, and the pidfds of those before it are given back.
pub proof fn law_setup_follows_the_tasks(sched: SchedView, world: Seq<TaskReplies>, n: int)
    requires
        fails_after(sched.tasks, world, n),
    ensures
        ({
            let (end, step) = setup(sched, world);
            ends_after(sched.tasks, world, n, end, step)
        }),
{
    let start = empty_list(sched);
    assert(start.triggers =~= entries(sched.tasks, world, 0));
    if sched.tasks.len() > 0 {
        lemma_run_follows_the_tasks(start.next_task().0, world, n);
    }
}

/// The pidfd that a reply brings, where it was waited for.
pub open spec fn opened_by(stage: TaskStage, reply: TaskReply) -> Seq<i32> {
    match (stage, reply) {
        (TaskStage::Open, TaskReply::Opened(Ok(pidfd))) => seq![pidfd],
        _ => Seq::empty(),
    }
}

/// The pidfds that a step gives back.
pub open spec fn given_back(step: StepView) -> Seq<i32> {
    match step {
        StepView::Failed { error: _, pidfds } => pidfds,
        _ => Seq::empty(),
    }
}

/// No pidfd is lost: those that were held before a step, and the one that was opened for
/// it, are held after it or given back.
pub proof fn law_no_pidfd_is_lost(list: TaskListView, reply: TaskReply)
    requires
        list.wf(),
    ensures
        ({
            let (next, step) = list.next(reply);
            pidfds_of(list.triggers) + opened_by(list.stage, reply) == given_back(step) + pidfds_of(
                next.triggers,
            )
        }),
{
    let (next, step) = list.next(reply);
    assert(pidfds_of(list.triggers) + opened_by(list.stage, reply) =~= given_back(step)
        + pidfds_of(next.triggers));
}

/// A list is done only when it has an entry for each task, in order and as it was set up,
/// with a state of its own.
pub proof fn law_done_means_complete(list: TaskListView, reply: TaskReply)
    requires
        list.wf(),
        list.next(reply).1 is Done,
    ensures
        each_has_its_entry(list.sched.tasks, list.next(reply).0.triggers),
{
    let next = list.next(reply).0;
    assert forall|i: int| 0 <= i < list.sched.tasks.len() implies (#[trigger] next.triggers[i]).info
        == list.sched.tasks[i] && next.triggers[i].place == i by {
        if i < list.triggers.len() {
            assert(next.triggers[i] == list.triggers[i]);
        }
    }
}

/// No two entries share one state: where each entry's state has the entry's place, the
/// states of any two are different.
pub proof fn law_no_two_entries_share_a_state(triggers: Seq<TimeTrigger>, i: int, j: int)
    requires
        0 <= i < j < triggers.len(),
        has_own_states(trigger_views(triggers)),
    ensures
        triggers[i].bpf_state != triggers[j].bpf_state,
{
    assert(trigger_views(triggers)[i].place == i);
    assert(trigger_views(triggers)[j].place == j);
}

/// At each step of a setup, every entry has a state of its own.
pub proof fn law_setup_shares_no_state(init: TaskListInit, i: int, j: int)
    requires
        init@.wf(),
        0 <= i < j < init.triggers@.len(),
    ensures
        init.triggers@[i].bpf_state != init.triggers@[j].bpf_state,
{
    law_no_two_entries_share_a_state(init.triggers@, i, j);
}

/// A step keeps what holds of a list, leaves the schedule as it is, and waits for something
/// exactly when it asks for something or was given a reply that nothing waited for.
pub proof fn law_step_keeps_the_list(list: TaskListView, reply: TaskReply)
    requires
        list.wf(),
        list.stage != TaskStage::Finished,
    ensures
        list.next(reply).0.wf(),
        list.next(reply).0.sched == list.sched,
        list.next(reply).0.stage != TaskStage::Finished <==> list.next(reply).1 is Ask
            || list.next(reply).1 is Unexpected,
        list.next(reply).1 is Unexpected ==> list.next(reply).0 == list,
{
}

/// A task that may run on any CPU is never pinned: no request to set the affinity of a
/// thread carries an empty mask.
pub proof fn law_any_cpu_is_not_pinned(list: TaskListView, reply: TaskReply)
    requires
        list.wf(),
    ensures
        match list.next(reply).1 {
            StepView::Ask(TaskAsk::Pin { pid: _, cpumask }) => cpumask != 0,
            _ => true,
        },
{
}

/// The view of an entry says what the entry holds, field by field, and of the shared state
/// what it was made with.
pub proof fn law_entry_view_keeps_every_field(trigger: TimeTrigger)
    ensures
        trigger@.info == trigger.info@,
        trigger@.pid == trigger.pid,
        trigger@.pidfd == trigger.pidfd,
        trigger@.first_sigwait_ts == first_u64(trigger.bpf_state.sigwait_ts),
        trigger@.first_sigwait_enter == first_bool(trigger.bpf_state.sigwait_enter),
        trigger@.place == trigger.bpf_state.place,
        trigger@.prev_timer == trigger.prev_timer,
        trigger@.sigwait_ts_prev == trigger.sigwait_ts_prev,
{
}

/// Lists of entries are seen entry by entry, and their pidfds are those of the entries, one
/// each and in order.
pub proof fn law_lists_are_seen_entry_by_entry(triggers: Seq<TimeTrigger>)
    ensures
        trigger_views(triggers).len() == triggers.len(),
        pidfds_of(trigger_views(triggers)).len() == triggers.len(),
        forall|i: int|
            0 <= i < triggers.len() ==> #[trigger] trigger_views(triggers)[i] == triggers[i]@,
        forall|i: int|
            0 <= i < triggers.len() ==> #[trigger] pidfds_of(trigger_views(triggers))[i]
                == triggers[i].pidfd,
{
}

/// The pidfds of a list are those of its entries, one each and in order.
pub proof fn law_pidfds_are_those_of_the_entries(triggers: Seq<TriggerView>)
    ensures
        pidfds_of(triggers).len() == triggers.len(),
        forall|i: int| 0 <= i < triggers.len() ==> #[trigger] pidfds_of(triggers)[i] == triggers[i].pidfd,
{
}

/// A list is complete exactly where it has one entry for each task, each entry has the task
/// of its place, and each state was made for its place.
pub proof fn law_complete_lists_match_their_tasks(
    tasks: Seq<TaskView>,
    triggers: Seq<TriggerView>,
)
    ensures
        each_has_its_entry(tasks, triggers) <==> {
            &&& triggers.len() == tasks.len()
            &&& forall|i: int|
                0 <= i < tasks.len() ==> (#[trigger] triggers[i]).info == tasks[i]
                    && triggers[i].place == i
        },
{
}

/// The view of a list that is being set up leaves out nothing but the time of the fetch.
pub proof fn law_setup_view_keeps_every_field(init: TaskListInit)
    ensures
        init@.sched == init.sched@,
        init@.stage == init.stage,
        init@.pid == init.pid,
        init@.triggers.len() == init.triggers@.len(),
        forall|i: int|
            0 <= i < init.triggers@.len() ==> #[trigger] init@.triggers[i] == init.triggers@[i]@,
{
}

/// The view of a request says what is asked for, and of whom.
pub proof fn law_request_view_keeps_every_field(request: TaskRequest)
    ensures
        match request {
            TaskRequest::Locate { name } => request@ == (TaskAsk::Locate { name: name@ }),
            TaskRequest::Pin { pid, cpumask } => request@ == (TaskAsk::Pin { pid, cpumask }),
            TaskRequest::Schedule(call) => request@ == TaskAsk::Schedule(call),
            TaskRequest::Open { pid } => request@ == (TaskAsk::Open { pid }),
        },
{
}

/// The view of a step says what the step says.
pub proof fn law_step_view_keeps_every_field(step: TaskStep)
    ensures
        match step {
            TaskStep::Ask(request) => step@ == StepView::Ask(request@),
            TaskStep::Done => step@ == StepView::Done,
            TaskStep::Failed { error, pidfds } => step@ == (StepView::Failed {
                error,
                pidfds: pidfds@,
            }),
            TaskStep::Unexpected => step@ == StepView::Unexpected,
        },
{
}

/// A setup begins with no entry. It asks for the thread of the first task, by its name, and
/// is done at once where there is no task.
pub proof fn law_setup_begins_with_the_first_task(sched: SchedView)
    ensures
        ({
            let (list, step) = empty_list(sched).next_task();
            &&& list.sched == sched
            &&& list.triggers.len() == 0
            &&& sched.tasks.len() == 0 ==> step == StepView::Done && list.stage
                == TaskStage::Finished
            &&& sched.tasks.len() > 0 ==> step == StepView::Ask(
                TaskAsk::Locate { name: sched.tasks[0].name },
            ) && list.stage == TaskStage::Locate
        }),
{
}

/// In the setup of a task, at any place of a list, all is asked for the thread that the
/// task itself was located as, with its own mask, policy and priority: it is pinned unless
/// its mask is 0, scheduled, and gets a pidfd. Then its entry stands behind those before it,
/// which are as they were, and the next task is looked for by its name, or the list is done.
/// A policy above 2 or a priority above 99 ends the setup instead, and every pidfd that was
/// opened is given back.
pub proof fn law_all_is_asked_for_the_located_thread(list: TaskListView, pid: i32, pidfd: i32)
    requires
        list.stage == TaskStage::Locate,
        list.triggers.len() < list.sched.tasks.len(),
    ensures
        ({
            let place = list.triggers.len();
            let task = list.sched.tasks[place as int];
            let (located, first) = list.next(TaskReply::Located(Ok(pid)));
            let (pinned, second) = if task.cpu_affinity != 0 {
                located.next(TaskReply::Pinned(Ok(())))
            } else {
                (located, first)
            };
            let (scheduled, third) = pinned.next(TaskReply::Scheduled(Ok(())));
            let (opened, fourth) = scheduled.next(TaskReply::Opened(Ok(pidfd)));
            &&& task.cpu_affinity != 0 ==> first == StepView::Ask(
                TaskAsk::Pin { pid, cpumask: task.cpu_affinity },
            )
            &&& if task.sched_policy <= 2 && task.sched_priority <= 99 {
                &&& second == StepView::Ask(
                    TaskAsk::Schedule(
                        SchedRequest {
                            pid,
                            policy: task.sched_policy as i32,
                            priority: task.sched_priority as i32,
                        },
                    ),
                )
                &&& third == StepView::Ask(TaskAsk::Open { pid })
                &&& opened.sched == list.sched
                &&& opened.triggers == list.triggers.push(
                    TriggerView {
                        info: task,
                        pid,
                        pidfd,
                        first_sigwait_ts: 0,
                        first_sigwait_enter: false,
                        place,
                        prev_timer: None,
                        sigwait_ts_prev: 0,
                    },
                )
                &&& if place + 1 < list.sched.tasks.len() {
                    &&& opened.stage == TaskStage::Locate
                    &&& fourth == StepView::Ask(
                        TaskAsk::Locate { name: list.sched.tasks[place as int + 1].name },
                    )
                } else {
                    &&& opened.stage == TaskStage::Finished
                    &&& fourth == StepView::Done
                }
            } else {
                &&& pinned.stage == TaskStage::Finished
                &&& pinned.triggers.len() == 0
                &&& second matches StepView::Failed { error, pidfds }
                &&& error == TimpaniError::InvalidArgs
                &&& pidfds.len() == place
                &&& forall|i: int| 0 <= i < place ==> #[trigger] pidfds[i] == list.triggers[i].pidfd
            }
        }),
{
}

/// Between the requests for one task the thread that it was located as is kept, and so are
/// the entries before it and the schedule: a request to open a pidfd is for this thread.
pub proof fn law_located_thread_is_kept(list: TaskListView, reply: TaskReply, pid: i32)
    requires
        list.triggers.len() < list.sched.tasks.len(),
    ensures
        ({
            let (next, step) = list.next(reply);
            &&& next.sched == list.sched
            &&& list.stage == TaskStage::Locate && reply == TaskReply::Located(Ok(pid))
                ==> next.pid == pid
            &&& list.stage != TaskStage::Locate ==> next.pid == list.pid
            &&& next.stage == TaskStage::Pin || next.stage == TaskStage::Schedule || next.stage
                == TaskStage::Open ==> next.triggers == list.triggers
            &&& list.stage == TaskStage::Schedule && reply == TaskReply::Scheduled(Ok(())) ==> step
                == StepView::Ask(TaskAsk::Open { pid: list.pid })
        }),
{
}

/// A failure of what was asked for ends the setup with this very error. No entry is left,
/// and every pidfd that was opened is given back, in order.
pub proof fn law_failure_of_a_task_ends_the_setup(list: TaskListView, error: TimpaniError)
    requires
        list.stage != TaskStage::Finished,
    ensures
        ({
            let reply = match list.stage {
                TaskStage::Locate => TaskReply::Located(Err(error)),
                TaskStage::Pin => TaskReply::Pinned(Err(error)),
                TaskStage::Schedule => TaskReply::Scheduled(Err(error)),
                _ => TaskReply::Opened(Err(error)),
            };
            let (next, step) = list.next(reply);
            &&& next.stage == TaskStage::Finished
            &&& next.triggers.len() == 0
            &&& step matches StepView::Failed { error: reported, pidfds }
            &&& reported == error
            &&& pidfds.len() == list.triggers.len()
            &&& forall|i: int|
                0 <= i < list.triggers.len() ==> #[trigger] pidfds[i] == list.triggers[i].pidfd
        }),
{
}

/// A reply is unexpected exactly where it answers something else than what was asked for,
/// and then nothing changes.
pub proof fn law_only_the_awaited_reply_counts(list: TaskListView, reply: TaskReply)
    ensures
        list.next(reply).1 is Unexpected <==> !{
            ||| list.stage == TaskStage::Locate && reply is Located
            ||| list.stage == TaskStage::Pin && reply is Pinned
            ||| list.stage == TaskStage::Schedule && reply is Scheduled
            ||| list.stage == TaskStage::Open && reply is Opened
        },
        list.next(reply).1 is Unexpected ==> list.next(reply).0 == list,
{
}

/// What is asked for a task depends on its own parameters and on its thread alone, not on the
/// tasks before and after it nor on the rest of the schedule.
pub proof fn law_tasks_do_not_mix(list: TaskListView, other: TaskListView, reply: TaskReply)
    requires
        list.stage == other.stage,
        list.pid == other.pid,
        list.triggers.len() < list.sched.tasks.len(),
        other.triggers.len() < other.sched.tasks.len(),
        list.sched.tasks[list.triggers.len() as int]
            == other.sched.tasks[other.triggers.len() as int],
        !(list.stage == TaskStage::Open),
    ensures
        ({
            let (one, asked) = list.next(reply);
            let (two, too) = other.next(reply);
            &&& one.stage == two.stage
            &&& one.pid == two.pid
            &&& asked is Ask || too is Ask ==> asked == too
        }),
{
}

} // verus!
