//! The course of a node, from start to exit.
//!
//! [`run_app`] begins, and [`Node::step`] takes what happened and says what to do next:
//! install signal handlers, initialize, connect to the scheduler, fetch the schedule and
//! set up its tasks, start together with the other nodes if that is configured, and then
//! watch for changes of the schedule until a shutdown signal comes. The caller does what
//! is asked, which takes time, and hands back what came of it.

use std::time::Instant;
use vstd::prelude::*;

use crate::config::Config;
use crate::context::init_next;
use crate::context::init_offset;
use crate::context::init_start;
use crate::context::Context;
use crate::context::InitReply;
use crate::context::InitRequest;
use crate::context::InitStage;
use crate::context::InitStep;
use crate::context::NodeClient;
use crate::context::SyncStartTime;
use crate::error::TimpaniError;
use crate::error::TimpaniResult;
use crate::proto::NodeSchedResponse;
use crate::proto::SyncResponse;
use crate::schedule::proto_schedule;
use crate::schedule::sched_from_proto;
use crate::schedule::SchedInfo;
use crate::schedule::SchedView;
use crate::task::each_has_its_entry;
pub use crate::task::empty_list;
use crate::task::init_task_list;
use crate::task::law_done_means_complete;
use crate::task::law_step_keeps_the_list;
use crate::task::pidfds_of;
use crate::task::teardown_task_list;
use crate::task::trigger_views;
use crate::task::StepView;
use crate::task::TaskAsk;
use crate::task::TaskListInit;
use crate::task::TaskListView;
use crate::task::TaskReply;
use crate::task::TaskRequest;
use crate::task::TaskStage;
use crate::task::TaskStep;
use crate::task::TimeTrigger;
use crate::task::TriggerView;

verus! {

/// How many seconds apart the schedule is fetched while the node runs.
pub const WORKLOAD_POLL_INTERVAL_SECS: u64 = 2;

/// How many seconds to wait before asking again a scheduler that has no workload.
pub const RETRY_INTERVAL_SECS: u64 = 1;

/// Where a node is in its course.
#[derive(Debug)]
pub enum Phase {
    /// The signal handlers are installed.
    Signals,
    /// The context is initialized.
    Starting { stage: InitStage },
    /// The scheduler is connected to.
    Connecting,
    /// The first schedule is fetched, after `attempt` vain attempts.
    Fetching { attempt: u32 },
    /// The next attempt is waited for.
    Backoff { attempt: u32 },
    /// The tasks of the first schedule are set up.
    Building { init: TaskListInit },
    /// The other nodes are waited for.
    Syncing { sched: SchedInfo, triggers: Vec<TimeTrigger> },
    /// The node runs, and the next time to fetch the schedule is waited for.
    Watching,
    /// The node runs, and the schedule is fetched.
    Polling,
    /// The tasks of the old schedule are let go of.
    Releasing { next: SchedInfo },
    /// The tasks of the new schedule are set up.
    Rebuilding { init: TaskListInit },
    /// The node has stopped.
    Stopped,
}

/// Something that happened.
#[derive(Debug)]
pub enum Event {
    /// The signal handlers were installed, or not.
    SignalsInstalled(TimpaniResult<()>),
    /// Something was done to initialize the context.
    Init(InitReply),
    /// The scheduler was connected to, or not.
    Connected(TimpaniResult<()>),
    /// The scheduler answered a request for the schedule, at `received_at`.
    Schedule { reply: TimpaniResult<NodeSchedResponse>, received_at: Instant },
    /// The time between two attempts has passed.
    Waited,
    /// A shutdown signal came.
    Cancelled,
    /// Something was done to set up a task.
    Task(TaskReply),
    /// The scheduler answered a request to start together.
    Synced(TimpaniResult<SyncResponse>),
    /// It is time to fetch the schedule again.
    Tick,
    /// The pidfds of the old schedule were closed.
    Released,
}

/// Something to do.
#[derive(Debug)]
pub enum Action {
    /// Install the signal handlers.
    InstallSignals,
    /// Do something to initialize the context.
    Init(InitRequest),
    /// Connect to the scheduler.
    Connect { endpoint: String, max_retries: u32 },
    /// Ask the scheduler for this node's schedule.
    FetchSchedule { node_id: String },
    /// Wait for [`RETRY_INTERVAL_SECS`], or until a shutdown signal comes.
    Wait,
    /// Do something to set up a task.
    Task(TaskRequest),
    /// Ask the scheduler for the time to start together with the other nodes.
    Sync { node_id: String },
    /// Wait for the next time to fetch the schedule, or until a shutdown signal comes.
    AwaitTick,
    /// Close the pidfds of the old schedule. `replaced` says whether the new one is of
    /// another workload.
    Release { pidfds: Vec<i32>, replaced: bool },
    /// Close what is left and exit.
    Exit { result: TimpaniResult<()>, pidfds: Vec<i32> },
    /// What happened is nothing that was waited for. Nothing changed.
    Unexpected,
}

/// A node.
#[derive(Debug)]
pub struct Node {
    /// The process that the node runs as.
    pub pid: i32,
    pub ctx: Context,
    pub phase: Phase,
}

/// An [`Action`], with lists and names as sequences.
pub enum ActionView {
    InstallSignals,
    Init(InitRequest),
    Connect { endpoint: Seq<char>, max_retries: u32 },
    FetchSchedule { node_id: Seq<char> },
    Wait,
    Task(TaskAsk),
    Sync { node_id: Seq<char> },
    AwaitTick,
    Release { pidfds: Seq<i32>, replaced: bool },
    Exit { result: TimpaniResult<()>, pidfds: Seq<i32> },
    Unexpected,
}

impl View for Action {
    type V = ActionView;

    open spec fn view(&self) -> ActionView {
        match *self {
            Action::InstallSignals => ActionView::InstallSignals,
            Action::Init(request) => ActionView::Init(request),
            Action::Connect { endpoint, max_retries } => ActionView::Connect {
                endpoint: endpoint@,
                max_retries,
            },
            Action::FetchSchedule { node_id } => ActionView::FetchSchedule { node_id: node_id@ },
            Action::Wait => ActionView::Wait,
            Action::Task(request) => ActionView::Task(request@),
            Action::Sync { node_id } => ActionView::Sync { node_id: node_id@ },
            Action::AwaitTick => ActionView::AwaitTick,
            Action::Release { pidfds, replaced } => ActionView::Release {
                pidfds: pidfds@,
                replaced,
            },
            Action::Exit { result, pidfds } => ActionView::Exit { result, pidfds: pidfds@ },
            Action::Unexpected => ActionView::Unexpected,
        }
    }
}

/// A schedule and the time at which it was fetched.
pub struct FetchedView {
    pub content: SchedView,
    pub received_at: Instant,
}

/// The content of a schedule and the time at which it was fetched.
pub open spec fn fetched(sched: SchedInfo) -> FetchedView {
    FetchedView { content: sched@, received_at: sched.received_at }
}

/// A [`Phase`], with lists and names as sequences.
pub enum PhaseView {
    Signals,
    Starting { stage: InitStage },
    Connecting,
    Fetching { attempt: u32 },
    Backoff { attempt: u32 },
    Building { list: TaskListView, received_at: Instant },
    Syncing { sched: FetchedView, triggers: Seq<TriggerView> },
    Watching,
    Polling,
    Releasing { next: FetchedView },
    Rebuilding { list: TaskListView, received_at: Instant },
    Stopped,
}

impl View for Phase {
    type V = PhaseView;

    open spec fn view(&self) -> PhaseView {
        match *self {
            Phase::Signals => PhaseView::Signals,
            Phase::Starting { stage } => PhaseView::Starting { stage },
            Phase::Connecting => PhaseView::Connecting,
            Phase::Fetching { attempt } => PhaseView::Fetching { attempt },
            Phase::Backoff { attempt } => PhaseView::Backoff { attempt },
            Phase::Building { init } => PhaseView::Building {
                list: init@,
                received_at: init.sched.received_at,
            },
            Phase::Syncing { sched, triggers } => PhaseView::Syncing {
                sched: fetched(sched),
                triggers: trigger_views(triggers@),
            },
            Phase::Watching => PhaseView::Watching,
            Phase::Polling => PhaseView::Polling,
            Phase::Releasing { next } => PhaseView::Releasing { next: fetched(next) },
            Phase::Rebuilding { init } => PhaseView::Rebuilding {
                list: init@,
                received_at: init.sched.received_at,
            },
            Phase::Stopped => PhaseView::Stopped,
        }
    }
}

/// A [`Node`], with lists and names as sequences.
pub struct NodeView {
    pub pid: i32,
    pub config: Config,
    pub shutdown_requested: bool,
    pub sched: Option<FetchedView>,
    pub sync_start: Option<SyncStartTime>,
    pub triggers: Seq<TriggerView>,
    pub ktime_offset: i64,
    /// The address of the scheduler that the node is connected to.
    pub client: Option<Seq<char>>,
    pub phase: PhaseView,
}

impl View for Node {
    type V = NodeView;

    open spec fn view(&self) -> NodeView {
        NodeView {
            pid: self.pid,
            config: self.ctx.config,
            shutdown_requested: self.ctx.runtime.shutdown_requested,
            sched: match self.ctx.runtime.sched_info {
                Some(sched) => Some(fetched(sched)),
                None => None,
            },
            sync_start: self.ctx.runtime.sync_start,
            triggers: trigger_views(self.ctx.runtime.tt_list@),
            ktime_offset: self.ctx.runtime.ktime_offset,
            client: match self.ctx.comm.node_client {
                Some(client) => Some(client.endpoint@),
                None => None,
            },
            phase: self.phase@,
        }
    }
}

impl NodeView {
    /// The node has not taken up a schedule yet.
    pub open spec fn is_new(self) -> bool {
        &&& self.sched is None
        &&& self.sync_start is None
        &&& self.triggers == Seq::<TriggerView>::empty()
        &&& self.client is None
    }

    /// The node has taken up a schedule: it is connected to the configured scheduler, and
    /// knows when the nodes start together exactly if that is configured.
    pub open spec fn is_started(self) -> bool {
        &&& self.sched is Some
        &&& self.client == Some(self.config.spec_endpoint())
        &&& self.sync_start is Some <==> self.config.enable_sync
    }

    /// The node has an entry for each task of the schedule in force, in order, with a state
    /// of its own.
    pub open spec fn is_running(self) -> bool {
        &&& self.is_started()
        &&& each_has_its_entry(self.sched->Some_0.content.tasks, self.triggers)
    }

    /// The node has let go of its tasks.
    pub open spec fn is_between_schedules(self) -> bool {
        &&& self.is_started()
        &&& self.triggers == Seq::<TriggerView>::empty()
    }

    /// What holds of a node at all times.
    pub open spec fn wf(self) -> bool {
        match self.phase {
            PhaseView::Signals | PhaseView::Starting { .. } | PhaseView::Connecting => {
                self.is_new()
            },
            PhaseView::Fetching { attempt } => {
                self.is_new() && attempt <= self.config.max_retries
            },
            PhaseView::Backoff { attempt } => {
                self.is_new() && 0 < attempt <= self.config.max_retries
            },
            PhaseView::Building { list, .. } => {
                self.is_new() && list.wf() && list.stage != TaskStage::Finished
            },
            PhaseView::Syncing { sched, triggers } => {
                &&& self.is_new()
                &&& self.config.enable_sync
                &&& each_has_its_entry(sched.content.tasks, triggers)
            },
            PhaseView::Watching | PhaseView::Polling => self.is_running(),
            PhaseView::Releasing { .. } => self.is_between_schedules(),
            PhaseView::Rebuilding { list, .. } => {
                self.is_between_schedules() && list.wf() && list.stage != TaskStage::Finished
            },
            PhaseView::Stopped => self.triggers == Seq::<TriggerView>::empty(),
        }
    }

    /// Stops with `result`, and gives back the pidfds of the tasks and of `more` tasks.
    pub open spec fn stop(self, result: TimpaniResult<()>, more: Seq<i32>) -> (
        NodeView,
        ActionView,
    ) {
        (
            NodeView { phase: PhaseView::Stopped, triggers: Seq::empty(), ..self },
            ActionView::Exit { result, pidfds: pidfds_of(self.triggers) + more },
        )
    }

    /// Goes on by what a step of the initialization came to.
    pub open spec fn after_init(self, stage: InitStage, step: InitStep) -> (NodeView, ActionView) {
        match step {
            InitStep::Ask(request) => (
                NodeView { phase: PhaseView::Starting { stage }, ..self },
                ActionView::Init(request),
            ),
            InitStep::Done(Ok(_)) => (
                NodeView { phase: PhaseView::Connecting, ..self },
                ActionView::Connect {
                    endpoint: self.config.spec_endpoint(),
                    max_retries: self.config.max_retries,
                },
            ),
            InitStep::Done(Err(error)) => self.stop(Err(error), Seq::empty()),
            InitStep::Unexpected => (self, ActionView::Unexpected),
        }
    }

    /// Asks for the schedule in phase `phase`.
    pub open spec fn fetch(self, phase: PhaseView) -> (NodeView, ActionView) {
        (
            NodeView { phase, ..self },
            ActionView::FetchSchedule { node_id: self.config.node_id@ },
        )
    }

    /// Goes on to watch.
    pub open spec fn watch(self) -> (NodeView, ActionView) {
        (NodeView { phase: PhaseView::Watching, ..self }, ActionView::AwaitTick)
    }

    /// Takes up the first schedule.
    pub open spec fn settle(
        self,
        sched: FetchedView,
        triggers: Seq<TriggerView>,
        sync_start: Option<SyncStartTime>,
    ) -> (NodeView, ActionView) {
        (NodeView {
            sched: Some(sched),
            triggers,
            sync_start,
            client: Some(self.config.spec_endpoint()),
            ..self
        }).watch()
    }

    /// Goes on by what a step in the setup of the first tasks came to.
    pub open spec fn after_build(
        self,
        list: TaskListView,
        received_at: Instant,
        step: StepView,
    ) -> (NodeView, ActionView) {
        match step {
            StepView::Ask(request) => (
                NodeView { phase: PhaseView::Building { list, received_at }, ..self },
                ActionView::Task(request),
            ),
            StepView::Done => {
                let sched = FetchedView { content: list.sched, received_at };
                if self.config.enable_sync {
                    (
                        NodeView {
                            phase: PhaseView::Syncing { sched, triggers: list.triggers },
                            ..self
                        },
                        ActionView::Sync { node_id: self.config.node_id@ },
                    )
                } else {
                    self.settle(sched, list.triggers, None)
                }
            },
            StepView::Failed { error, pidfds } => self.stop(Err(error), pidfds),
            StepView::Unexpected => (
                NodeView { phase: PhaseView::Building { list, received_at }, ..self },
                ActionView::Unexpected,
            ),
        }
    }

    /// Goes on by what a step in the setup of new tasks came to.
    pub open spec fn after_rebuild(
        self,
        list: TaskListView,
        received_at: Instant,
        step: StepView,
    ) -> (NodeView, ActionView) {
        match step {
            StepView::Ask(request) => (
                NodeView { phase: PhaseView::Rebuilding { list, received_at }, ..self },
                ActionView::Task(request),
            ),
            StepView::Done => (NodeView {
                sched: Some(FetchedView { content: list.sched, received_at }),
                triggers: list.triggers,
                ..self
            }).watch(),
            StepView::Failed { error, pidfds } => self.stop(Err(error), pidfds),
            StepView::Unexpected => (
                NodeView { phase: PhaseView::Rebuilding { list, received_at }, ..self },
                ActionView::Unexpected,
            ),
        }
    }

    /// Goes on by a schedule that was fetched while the node runs: a content that changed
    /// replaces the schedule in force and its tasks, and one that did not only advances
    /// the time at which it was fetched.
    pub open spec fn after_poll(self, new: FetchedView) -> (NodeView, ActionView) {
        match self.sched {
            None => (NodeView { sched: Some(new), ..self }).watch(),
            Some(current) => {
                if current.content != new.content {
                    (
                        NodeView {
                            phase: PhaseView::Releasing { next: new },
                            triggers: Seq::empty(),
                            ..self
                        },
                        ActionView::Release {
                            pidfds: pidfds_of(self.triggers),
                            replaced: current.content.workload_id != new.content.workload_id,
                        },
                    )
                } else {
                    (NodeView {
                        sched: Some(
                            FetchedView { received_at: new.received_at, ..current },
                        ),
                        ..self
                    }).watch()
                }
            },
        }
    }

    /// What an event leads to.
    pub open spec fn next(self, event: Event) -> (NodeView, ActionView) {
        match (self.phase, event) {
            (PhaseView::Signals, Event::SignalsInstalled(Ok(_))) => {
                let (stage, step) = init_start(self.config, self.pid);
                self.after_init(stage, step)
            },
            (PhaseView::Signals, Event::SignalsInstalled(Err(error))) => {
                self.stop(Err(error), Seq::empty())
            },
            (PhaseView::Starting { stage }, Event::Init(reply)) => {
                let (next, step) = init_next(self.config, self.pid, stage, reply);
                (NodeView {
                    ktime_offset: init_offset(stage, reply, self.ktime_offset),
                    ..self
                }).after_init(next, step)
            },
            (PhaseView::Connecting, Event::Connected(Ok(_))) => {
                self.fetch(PhaseView::Fetching { attempt: 0 })
            },
            (PhaseView::Connecting, Event::Connected(Err(error))) => {
                self.stop(Err(error), Seq::empty())
            },
            (PhaseView::Fetching { attempt }, Event::Schedule { reply, received_at }) => {
                match reply {
                    Ok(response) => {
                        let (list, step) = empty_list(proto_schedule(response)).next_task();
                        self.after_build(list, received_at, step)
                    },
                    Err(TimpaniError::NotReady) => {
                        if attempt >= self.config.max_retries {
                            self.stop(Err(TimpaniError::Network), Seq::empty())
                        } else {
                            (
                                NodeView {
                                    phase: PhaseView::Backoff { attempt: (attempt + 1) as u32 },
                                    ..self
                                },
                                ActionView::Wait,
                            )
                        }
                    },
                    Err(error) => self.stop(Err(error), Seq::empty()),
                }
            },
            (PhaseView::Backoff { attempt }, Event::Waited) => {
                self.fetch(PhaseView::Fetching { attempt })
            },
            (PhaseView::Backoff { attempt: _ }, Event::Cancelled) => {
                self.stop(Err(TimpaniError::Signal), Seq::empty())
            },
            (PhaseView::Building { list, received_at }, Event::Task(reply)) => {
                let (next, step) = list.next(reply);
                self.after_build(next, received_at, step)
            },
            (PhaseView::Syncing { sched, triggers }, Event::Synced(reply)) => {
                match reply {
                    Ok(sync) => {
                        if sync.ack {
                            self.settle(
                                sched,
                                triggers,
                                Some(
                                    SyncStartTime {
                                        sec: sync.start_time_sec,
                                        nsec: sync.start_time_nsec,
                                    },
                                ),
                            )
                        } else {
                            self.stop(Err(TimpaniError::Network), pidfds_of(triggers))
                        }
                    },
                    Err(error) => self.stop(Err(error), pidfds_of(triggers)),
                }
            },
            (PhaseView::Watching, Event::Tick) => {
                if self.client is Some {
                    self.fetch(PhaseView::Polling)
                } else {
                    self.watch()
                }
            },
            (PhaseView::Watching, Event::Cancelled) => self.stop(Ok(()), Seq::empty()),
            (PhaseView::Polling, Event::Schedule { reply, received_at }) => {
                match reply {
                    Ok(response) => self.after_poll(
                        FetchedView { content: proto_schedule(response), received_at },
                    ),
                    Err(_) => self.watch(),
                }
            },
            (PhaseView::Releasing { next }, Event::Released) => {
                let (list, step) = empty_list(next.content).next_task();
                self.after_rebuild(list, next.received_at, step)
            },
            (PhaseView::Rebuilding { list, received_at }, Event::Task(reply)) => {
                let (next, step) = list.next(reply);
                self.after_rebuild(next, received_at, step)
            },
            _ => (self, ActionView::Unexpected),
        }
    }
}

/// Begins the course of a node that runs as process `pid`.
pub fn run_app(config: Config, pid: i32) -> (started: (Node, Action))
    ensures
        started.0@.wf(),
        started.0@.is_new(),
        started.0@.pid == pid,
        started.0@.config == config,
        !started.0@.shutdown_requested,
        started.0@.ktime_offset == 0,
        started.0@.phase == PhaseView::Signals,
        started.1@ == ActionView::InstallSignals,
{
    let node = Node { pid, ctx: Context::new(config), phase: Phase::Signals };
    assert(node@.triggers =~= Seq::<TriggerView>::empty());
    (node, Action::InstallSignals)
}

/// Begins to initialize a context.
pub fn initialize(ctx: &Context, pid: i32) -> (started: (InitStage, InitStep))
    ensures
        started == init_start(ctx.config, pid),
{
    ctx.initialize(pid)
}

/// Runs the timer loop, of which there is none yet.
pub fn run(ctx: &mut Context) -> (result: TimpaniResult<()>)
    ensures
        result == Ok::<(), TimpaniError>(()),
        *final(ctx) == *old(ctx),
{
    Ok(())
}

impl Node {
    fn stop(self, result: TimpaniResult<()>, more: Vec<i32>) -> (next: (Node, Action))
        ensures
            (next.0@, next.1@) == self@.stop(result, more@),
    {
        let mut ctx = self.ctx;
        let mut tt_list: Vec<TimeTrigger> = Vec::new();
        std::mem::swap(&mut tt_list, &mut ctx.runtime.tt_list);
        let mut pidfds = teardown_task_list(tt_list);
        let mut rest = more;
        pidfds.append(&mut rest);
        let node = Node { pid: self.pid, ctx, phase: Phase::Stopped };
        assert(node@.triggers =~= Seq::<TriggerView>::empty());
        (node, Action::Exit { result, pidfds })
    }

    fn after_init(self, stage: InitStage, step: InitStep) -> (next: (Node, Action))
        ensures
            (next.0@, next.1@) == self@.after_init(stage, step),
    {
        let mut node = self;
        match step {
            InitStep::Ask(request) => {
                node.phase = Phase::Starting { stage };
                (node, Action::Init(request))
            },
            InitStep::Done(Ok(_)) => {
                let endpoint = node.ctx.config.endpoint();
                let max_retries: u32 = node.ctx.config.max_retries;
                node.phase = Phase::Connecting;
                (node, Action::Connect { endpoint, max_retries })
            },
            InitStep::Done(Err(error)) => node.stop(Err(error), Vec::new()),
            InitStep::Unexpected => (node, Action::Unexpected),
        }
    }

    fn fetch(self, phase: Phase) -> (next: (Node, Action))
        ensures
            (next.0@, next.1@) == self@.fetch(phase@),
    {
        let mut node = self;
        let node_id: String = node.ctx.config.node_id.clone();
        node.phase = phase;
        (node, Action::FetchSchedule { node_id })
    }

    fn watch(self) -> (next: (Node, Action))
        ensures
            (next.0@, next.1@) == self@.watch(),
    {
        let mut node = self;
        node.phase = Phase::Watching;
        (node, Action::AwaitTick)
    }

    fn settle(
        self,
        sched: SchedInfo,
        triggers: Vec<TimeTrigger>,
        sync_start: Option<SyncStartTime>,
    ) -> (next: (Node, Action))
        ensures
            (next.0@, next.1@) == self@.settle(
                fetched(sched),
                trigger_views(triggers@),
                sync_start,
            ),
    {
        let mut node = self;
        let endpoint = node.ctx.config.endpoint();
        node.ctx.runtime.sched_info = Some(sched);
        node.ctx.runtime.tt_list = triggers;
        node.ctx.runtime.sync_start = sync_start;
        node.ctx.comm.node_client = Some(NodeClient { endpoint });
        node.watch()
    }

    fn after_build(self, init: TaskListInit, step: TaskStep) -> (next: (Node, Action))
        ensures
            (next.0@, next.1@) == self@.after_build(init@, init.sched.received_at, step@),
    {
        let mut node = self;
        match step {
            TaskStep::Ask(request) => {
                node.phase = Phase::Building { init };
                (node, Action::Task(request))
            },
            TaskStep::Done => {
                if node.ctx.config.enable_sync {
                    let node_id: String = node.ctx.config.node_id.clone();
                    node.phase = Phase::Syncing { sched: init.sched, triggers: init.triggers };
                    (node, Action::Sync { node_id })
                } else {
                    node.settle(init.sched, init.triggers, None)
                }
            },
            TaskStep::Failed { error, pidfds } => node.stop(Err(error), pidfds),
            TaskStep::Unexpected => {
                node.phase = Phase::Building { init };
                (node, Action::Unexpected)
            },
        }
    }

    fn after_rebuild(self, init: TaskListInit, step: TaskStep) -> (next: (Node, Action))
        ensures
            (next.0@, next.1@) == self@.after_rebuild(init@, init.sched.received_at, step@),
    {
        let mut node = self;
        match step {
            TaskStep::Ask(request) => {
                node.phase = Phase::Rebuilding { init };
                (node, Action::Task(request))
            },
            TaskStep::Done => {
                node.ctx.runtime.tt_list = init.triggers;
                node.ctx.runtime.sched_info = Some(init.sched);
                node.watch()
            },
            TaskStep::Failed { error, pidfds } => node.stop(Err(error), pidfds),
            TaskStep::Unexpected => {
                node.phase = Phase::Rebuilding { init };
                (node, Action::Unexpected)
            },
        }
    }

    fn after_poll(self, new: SchedInfo) -> (next: (Node, Action))
        ensures
            (next.0@, next.1@) == self@.after_poll(fetched(new)),
    {
        let mut node = self;
        let mut sched_info: Option<SchedInfo> = None;
        std::mem::swap(&mut sched_info, &mut node.ctx.runtime.sched_info);
        match sched_info {
            None => {
                node.ctx.runtime.sched_info = Some(new);
                node.watch()
            },
            Some(current) => {
                if current.content_changed(&new) {
                    let replaced: bool = current.is_full_replacement(&new);
                    let mut tt_list: Vec<TimeTrigger> = Vec::new();
                    std::mem::swap(&mut tt_list, &mut node.ctx.runtime.tt_list);
                    let pidfds = teardown_task_list(tt_list);
                    node.ctx.runtime.sched_info = Some(current);
                    node.phase = Phase::Releasing { next: new };
                    assert(node@.triggers =~= Seq::<TriggerView>::empty());
                    (node, Action::Release { pidfds, replaced })
                } else {
                    let mut current = current;
                    current.received_at = new.received_at;
                    node.ctx.runtime.sched_info = Some(current);
                    node.watch()
                }
            },
        }
    }

    /// Takes what happened, and says what to do next.
    pub fn step(self, event: Event) -> (next: (Node, Action))
        requires
            self@.wf(),
        ensures
            (next.0@, next.1@) == self@.next(event),
            next.0@.wf(),
    {
        proof {
            lemma_next_keeps_wf(self@, event);
        }
        let Node { pid, ctx, phase } = self;
        match (phase, event) {
            (Phase::Signals, Event::SignalsInstalled(installed)) => {
                let (stage, step) = ctx.initialize(pid);
                let node = Node { pid, ctx, phase: Phase::Signals };
                match installed {
                    Ok(_) => node.after_init(stage, step),
                    Err(error) => node.stop(Err(error), Vec::new()),
                }
            },
            (Phase::Starting { stage }, Event::Init(reply)) => {
                let mut ctx = ctx;
                let (next, step) = ctx.initialize_step(pid, stage, reply);
                Node { pid, ctx, phase: Phase::Starting { stage } }.after_init(next, step)
            },
            (Phase::Connecting, Event::Connected(connected)) => {
                let node = Node { pid, ctx, phase: Phase::Connecting };
                match connected {
                    Ok(_) => node.fetch(Phase::Fetching { attempt: 0 }),
                    Err(error) => node.stop(Err(error), Vec::new()),
                }
            },
            (Phase::Fetching { attempt }, Event::Schedule { reply, received_at }) => {
                let node = Node { pid, ctx, phase: Phase::Fetching { attempt } };
                match reply {
                    Ok(response) => {
                        let sched = sched_from_proto(response, received_at);
                        let (init, step) = init_task_list(sched);
                        node.after_build(init, step)
                    },
                    Err(TimpaniError::NotReady) => {
                        if attempt >= node.ctx.config.max_retries {
                            node.stop(Err(TimpaniError::Network), Vec::new())
                        } else {
                            let mut node = node;
                            node.phase = Phase::Backoff { attempt: attempt + 1 };
                            (node, Action::Wait)
                        }
                    },
                    Err(error) => node.stop(Err(error), Vec::new()),
                }
            },
            (Phase::Backoff { attempt }, Event::Waited) => {
                Node { pid, ctx, phase: Phase::Backoff { attempt } }.fetch(
                    Phase::Fetching { attempt },
                )
            },
            (Phase::Backoff { attempt }, Event::Cancelled) => {
                Node { pid, ctx, phase: Phase::Backoff { attempt } }.stop(
                    Err(TimpaniError::Signal),
                    Vec::new(),
                )
            },
            (Phase::Building { init }, Event::Task(reply)) => {
                let (next, step) = init.step(reply);
                Node { pid, ctx, phase: Phase::Stopped }.after_build(next, step)
            },
            (Phase::Syncing { sched, triggers }, Event::Synced(reply)) => {
                let node = Node { pid, ctx, phase: Phase::Stopped };
                match reply {
                    Ok(sync) => {
                        if sync.ack {
                            let start = SyncStartTime {
                                sec: sync.start_time_sec,
                                nsec: sync.start_time_nsec,
                            };
                            node.settle(sched, triggers, Some(start))
                        } else {
                            node.stop(Err(TimpaniError::Network), teardown_task_list(triggers))
                        }
                    },
                    Err(error) => node.stop(Err(error), teardown_task_list(triggers)),
                }
            },
            (Phase::Watching, Event::Tick) => {
                let node = Node { pid, ctx, phase: Phase::Watching };
                if node.ctx.comm.node_client.is_some() {
                    node.fetch(Phase::Polling)
                } else {
                    node.watch()
                }
            },
            (Phase::Watching, Event::Cancelled) => {
                let mut ctx = ctx;
                ctx.cleanup();
                Node { pid, ctx, phase: Phase::Watching }.stop(Ok(()), Vec::new())
            },
            (Phase::Polling, Event::Schedule { reply, received_at }) => {
                let node = Node { pid, ctx, phase: Phase::Polling };
                match reply {
                    Ok(response) => node.after_poll(sched_from_proto(response, received_at)),
                    Err(_) => node.watch(),
                }
            },
            (Phase::Releasing { next }, Event::Released) => {
                let (init, step) = init_task_list(next);
                Node { pid, ctx, phase: Phase::Stopped }.after_rebuild(init, step)
            },
            (Phase::Rebuilding { init }, Event::Task(reply)) => {
                let (next, step) = init.step(reply);
                Node { pid, ctx, phase: Phase::Stopped }.after_rebuild(next, step)
            },
            (phase, _) => (Node { pid, ctx, phase }, Action::Unexpected),
        }
    }
}

/// What a step in the setup of tasks came to: it went on, with a list that still has tasks
/// to set up, or every task is set up, or it failed.
spec fn setup_came_to(list: TaskListView, step: StepView) -> bool {
    match step {
        StepView::Ask(_) | StepView::Unexpected => {
            list.wf() && list.stage != TaskStage::Finished
        },
        StepView::Done => each_has_its_entry(list.sched.tasks, list.triggers),
        StepView::Failed { .. } => true,
    }
}

proof fn lemma_setup_starts(sched: SchedView)
    ensures
        ({
            let (list, step) = empty_list(sched).next_task();
            setup_came_to(list, step)
        }),
{
}

proof fn lemma_setup_goes_on(list: TaskListView, reply: TaskReply)
    requires
        list.wf(),
        list.stage != TaskStage::Finished,
    ensures
        setup_came_to(list.next(reply).0, list.next(reply).1),
{
    law_step_keeps_the_list(list, reply);
    if list.next(reply).1 is Done {
        law_done_means_complete(list, reply);
    }
}

proof fn lemma_after_build_is_wf(
    node: NodeView,
    list: TaskListView,
    received_at: Instant,
    step: StepView,
)
    requires
        node.is_new(),
        setup_came_to(list, step),
    ensures
        node.after_build(list, received_at, step).0.wf(),
{
}

proof fn lemma_after_rebuild_is_wf(
    node: NodeView,
    list: TaskListView,
    received_at: Instant,
    step: StepView,
)
    requires
        node.is_between_schedules(),
        setup_came_to(list, step),
    ensures
        node.after_rebuild(list, received_at, step).0.wf(),
{
}

/// A step keeps what holds of a node at all times.
proof fn lemma_next_keeps_wf(node: NodeView, event: Event)
    requires
        node.wf(),
    ensures
        node.next(event).0.wf(),
{
    match (node.phase, event) {
        (PhaseView::Fetching { attempt: _ }, Event::Schedule { reply, received_at }) => {
            if let Ok(response) = reply {
                let (list, step) = empty_list(proto_schedule(response)).next_task();
                lemma_setup_starts(proto_schedule(response));
                lemma_after_build_is_wf(node, list, received_at, step);
            }
        },
        (PhaseView::Building { list, received_at }, Event::Task(reply)) => {
            let (next, step) = list.next(reply);
            lemma_setup_goes_on(list, reply);
            lemma_after_build_is_wf(node, next, received_at, step);
        },
        (PhaseView::Releasing { next }, Event::Released) => {
            let (list, step) = empty_list(next.content).next_task();
            lemma_setup_starts(next.content);
            lemma_after_rebuild_is_wf(node, list, next.received_at, step);
        },
        (PhaseView::Rebuilding { list, received_at }, Event::Task(reply)) => {
            let (next, step) = list.next(reply);
            lemma_setup_goes_on(list, reply);
            lemma_after_rebuild_is_wf(node, next, received_at, step);
        },
        _ => {},
    }
}

} // verus!
