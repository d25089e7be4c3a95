//! The state of the node.

use vstd::prelude::*;

use crate::config::Config;
use crate::error::TimpaniError;
use crate::error::TimpaniResult;
use crate::sched::sched_request;
use crate::sched::set_schedattr;
use crate::sched::SchedPolicy;
use crate::sched::SchedRequest;
use crate::sched::MAX_PRIORITY;
pub use crate::schedule::SchedInfo;
pub use crate::schedule::TaskInfo;
use crate::task::TimeTrigger;

verus! {

/// The real time at which the nodes of a workload start together.
#[derive(Debug, Clone, Copy, PartialEq, Eq, Structural)]
pub struct SyncStartTime {
    pub sec: i64,
    pub nsec: i32,
}

/// What changes while the node runs.
#[derive(Debug)]
pub struct RuntimeState {
    /// Whether the node was asked to stop.
    pub shutdown_requested: bool,
    /// The schedule that is in force, once there is one.
    pub sched_info: Option<SchedInfo>,
    /// When the nodes start together, once that was agreed on.
    pub sync_start: Option<SyncStartTime>,
    /// The tasks of the schedule in force.
    pub tt_list: Vec<TimeTrigger>,
    /// What leads from the monotonic clock to the real time clock, in nanoseconds.
    pub ktime_offset: i64,
}

impl RuntimeState {
    /// The state in which nothing has happened yet.
    pub open spec fn is_initial(self) -> bool {
        &&& !self.shutdown_requested
        &&& self.sched_info is None
        &&& self.sync_start is None
        &&& self.tt_list@ == Seq::<TimeTrigger>::empty()
        &&& self.ktime_offset == 0
    }
}

impl Default for RuntimeState {
    fn default() -> (state: Self)
        ensures
            state.is_initial(),
    {
        RuntimeState {
            shutdown_requested: false,
            sched_info: None,
            sync_start: None,
            tt_list: Vec::new(),
            ktime_offset: 0,
        }
    }
}

/// A connection to the scheduler.
#[derive(Debug)]
pub struct NodeClient {
    /// The scheduler's address.
    pub endpoint: String,
}

/// The node's connections.
#[derive(Debug)]
pub struct CommState {
    /// The connection to the scheduler, once there is one.
    pub node_client: Option<NodeClient>,
}

impl Default for CommState {
    fn default() -> (state: Self)
        ensures
            state.node_client is None,
    {
        CommState { node_client: None }
    }
}

/// The place of the hyperperiod's bookkeeping.
#[derive(Debug)]
pub struct HyperperiodManager {}

impl Default for HyperperiodManager {
    fn default() -> (manager: Self)
        ensures
            manager == (HyperperiodManager {  }),
    {
        HyperperiodManager {  }
    }
}

/// All that the node knows.
#[derive(Debug)]
pub struct Context {
    pub config: Config,
    pub runtime: RuntimeState,
    pub comm: CommState,
    pub hp_manager: HyperperiodManager,
}

/// What the initialization of a context waits for.
#[derive(Debug, Clone, Copy, PartialEq, Eq, Structural)]
pub enum InitStage {
    /// The affinity of the node is set.
    Pin,
    /// Its policy and priority are set.
    Schedule,
    /// The clocks are compared.
    Calibrate,
    /// Nothing: the initialization is over.
    Finished,
}

/// What is to be done next to initialize a context.
#[derive(Debug, Clone, Copy, PartialEq, Eq, Structural)]
pub enum InitRequest {
    /// Pin the node to a CPU.
    Pin { pid: i32, cpu: u32 },
    /// Set the node's policy and priority.
    Schedule(SchedRequest),
    /// Measure the offset between the clocks.
    Calibrate,
}

/// What came of an [`InitRequest`].
#[derive(Debug, Clone, Copy)]
pub enum InitReply {
    Pinned(TimpaniResult<()>),
    Scheduled(TimpaniResult<()>),
    Calibrated(TimpaniResult<i64>),
}

/// What a step in the initialization of a context came to.
#[derive(Debug, Clone, Copy)]
pub enum InitStep {
    /// Something is to be done next.
    Ask(InitRequest),
    /// The initialization is over.
    Done(TimpaniResult<()>),
    /// The reply is none that was waited for. Nothing changed.
    Unexpected,
}

/// The policy for a priority: real-time for 1 to 99, and the normal one otherwise.
pub open spec fn policy_for(prio: i32) -> SchedPolicy {
    if 0 < prio <= MAX_PRIORITY {
        SchedPolicy::Fifo
    } else {
        SchedPolicy::Normal
    }
}

/// What follows once the affinity is settled: the priority is set unless it is negative.
pub open spec fn init_after_pin(config: Config, pid: i32) -> (InitStage, InitStep) {
    if config.prio >= 0 {
        match sched_request(pid, config.prio as u32, policy_for(config.prio)) {
            Ok(request) => (InitStage::Schedule, InitStep::Ask(InitRequest::Schedule(request))),
            Err(error) => (InitStage::Finished, InitStep::Done(Err(error))),
        }
    } else {
        (InitStage::Calibrate, InitStep::Ask(InitRequest::Calibrate))
    }
}

/// How an initialization begins: the affinity is set unless the CPU is negative.
pub open spec fn init_start(config: Config, pid: i32) -> (InitStage, InitStep) {
    if config.cpu >= 0 {
        (InitStage::Pin, InitStep::Ask(InitRequest::Pin { pid, cpu: config.cpu as u32 }))
    } else {
        init_after_pin(config, pid)
    }
}

/// What a reply leads to.
pub open spec fn init_next(config: Config, pid: i32, stage: InitStage, reply: InitReply) -> (
    InitStage,
    InitStep,
) {
    match (stage, reply) {
        (InitStage::Pin, InitReply::Pinned(Ok(_))) => init_after_pin(config, pid),
        (InitStage::Schedule, InitReply::Scheduled(Ok(_))) => (
            InitStage::Calibrate,
            InitStep::Ask(InitRequest::Calibrate),
        ),
        (InitStage::Calibrate, InitReply::Calibrated(Ok(_))) => (
            InitStage::Finished,
            InitStep::Done(Ok(())),
        ),
        (InitStage::Pin, InitReply::Pinned(Err(error))) => (
            InitStage::Finished,
            InitStep::Done(Err(error)),
        ),
        (InitStage::Schedule, InitReply::Scheduled(Err(error))) => (
            InitStage::Finished,
            InitStep::Done(Err(error)),
        ),
        (InitStage::Calibrate, InitReply::Calibrated(Err(error))) => (
            InitStage::Finished,
            InitStep::Done(Err(error)),
        ),
        _ => (stage, InitStep::Unexpected),
    }
}

/// The offset between the clocks after a reply: a calibration that was waited for sets it.
pub open spec fn init_offset(stage: InitStage, reply: InitReply, offset: i64) -> i64 {
    match (stage, reply) {
        (InitStage::Calibrate, InitReply::Calibrated(Ok(measured))) => measured,
        _ => offset,
    }
}

impl Context {
    /// The context of a node that has not done anything yet.
    pub fn new(config: Config) -> (ctx: Self)
        ensures
            ctx.config == config,
            ctx.runtime.is_initial(),
            ctx.comm.node_client is None,
    {
        Context {
            config,
            runtime: RuntimeState::default(),
            comm: CommState::default(),
            hp_manager: HyperperiodManager::default(),
        }
    }

    /// Begins to apply the configuration to the node itself, which runs as process `pid`.
    ///
    /// The node is pinned if a CPU is configured, gets the priority if one is configured,
    /// and compares the clocks. The first failure ends it.
    pub fn initialize(&self, pid: i32) -> (started: (InitStage, InitStep))
        ensures
            started == init_start(self.config, pid),
    {
        if self.config.cpu >= 0 {
            (
                InitStage::Pin,
                InitStep::Ask(InitRequest::Pin { pid, cpu: self.config.cpu as u32 }),
            )
        } else {
            self.initialize_priority(pid)
        }
    }

    /// Goes on once the affinity is settled.
    fn initialize_priority(&self, pid: i32) -> (next: (InitStage, InitStep))
        ensures
            next == init_after_pin(self.config, pid),
    {
        if self.config.prio >= 0 {
            let policy = if self.config.prio > 0 && self.config.prio <= MAX_PRIORITY as i32 {
                SchedPolicy::Fifo
            } else {
                SchedPolicy::Normal
            };
            match set_schedattr(pid, self.config.prio as u32, policy) {
                Ok(request) => (InitStage::Schedule, InitStep::Ask(InitRequest::Schedule(request))),
                Err(error) => (InitStage::Finished, InitStep::Done(Err(error))),
            }
        } else {
            (InitStage::Calibrate, InitStep::Ask(InitRequest::Calibrate))
        }
    }

    /// Takes the outcome of what was asked for, and says what is to be done next.
    pub fn initialize_step(&mut self, pid: i32, stage: InitStage, reply: InitReply) -> (next: (
        InitStage,
        InitStep,
    ))
        ensures
            next == init_next(old(self).config, pid, stage, reply),
            *final(self) == (Context {
                runtime: RuntimeState {
                    ktime_offset: init_offset(stage, reply, old(self).runtime.ktime_offset),
                    ..old(self).runtime
                },
                ..*old(self)
            }),
    {
        match (stage, reply) {
            (InitStage::Pin, InitReply::Pinned(Ok(_))) => self.initialize_priority(pid),
            (InitStage::Schedule, InitReply::Scheduled(Ok(_))) => (
                InitStage::Calibrate,
                InitStep::Ask(InitRequest::Calibrate),
            ),
            (InitStage::Calibrate, InitReply::Calibrated(Ok(offset))) => {
                self.runtime.ktime_offset = offset;
                (InitStage::Finished, InitStep::Done(Ok(())))
            },
            (InitStage::Pin, InitReply::Pinned(Err(error))) => (
                InitStage::Finished,
                InitStep::Done(Err(error)),
            ),
            (InitStage::Schedule, InitReply::Scheduled(Err(error))) => (
                InitStage::Finished,
                InitStep::Done(Err(error)),
            ),
            (InitStage::Calibrate, InitReply::Calibrated(Err(error))) => (
                InitStage::Finished,
                InitStep::Done(Err(error)),
            ),
            _ => (stage, InitStep::Unexpected),
        }
    }

    /// Cleans up at the end. There is nothing to clean up in the context itself.
    pub fn cleanup(&mut self)
        ensures
            *final(self) == *old(self),
    {
    }
}

// Laws

/// What the outside world answers to an initialization.
pub struct InitReplies {
    pub pinned: TimpaniResult<()>,
    pub scheduled: TimpaniResult<()>,
    pub calibrated: TimpaniResult<i64>,
}

/// What an initialization comes to, step by step: the affinity is set if a CPU is
/// configured, then the priority if one is configured and valid, and then the clocks are
/// compared. The first step that fails decides.
pub open spec fn init_result(config: Config, pid: i32, world: InitReplies) -> TimpaniResult<()> {
    match (if config.cpu < 0 {
        Ok(())
    } else {
        world.pinned
    }) {
        Err(error) => Err(error),
        Ok(_) => {
            if config.prio > MAX_PRIORITY {
                Err(TimpaniError::InvalidArgs)
            } else {
                match (if config.prio < 0 {
                    Ok(())
                } else {
                    world.scheduled
                }) {
                    Err(error) => Err(error),
                    Ok(_) => match world.calibrated {
                        Err(error) => Err(error),
                        Ok(_) => Ok(()),
                    },
                }
            }
        },
    }
}

/// What the world answers at a stage.
pub open spec fn init_answer(stage: InitStage, world: InitReplies) -> InitReply {
    match stage {
        InitStage::Pin => InitReply::Pinned(world.pinned),
        InitStage::Schedule => InitReply::Scheduled(world.scheduled),
        _ => InitReply::Calibrated(world.calibrated),
    }
}

/// Takes up to `steps` steps, with the world's answers, as long as something is asked.
pub open spec fn init_run(
    config: Config,
    pid: i32,
    at: (InitStage, InitStep),
    world: InitReplies,
    steps: nat,
) -> InitStep
    decreases steps,
{
    if steps == 0 || !(at.1 is Ask) {
        at.1
    } else {
        init_run(
            config,
            pid,
            init_next(config, pid, at.0, init_answer(at.0, world)),
            world,
            (steps - 1) as nat,
        )
    }
}

/// An initialization takes at most three steps and comes to what [`init_result`] says,
/// however often it is done.
pub proof fn law_initialization_follows_the_steps(config: Config, pid: i32, world: InitReplies)
    ensures
        init_run(config, pid, init_start(config, pid), world, 3) == InitStep::Done(
            init_result(config, pid, world),
        ),
{
    reveal_with_fuel(init_run, 4);
}

/// With neither a CPU nor a priority configured, the node's affinity, policy and priority
/// are left alone.
pub proof fn law_negative_numbers_change_nothing(config: Config, pid: i32)
    requires
        config.cpu < 0,
        config.prio < 0,
    ensures
        init_start(config, pid) == (InitStage::Calibrate, InitStep::Ask(InitRequest::Calibrate)),
{
}

/// A configured CPU is the one that the node's own process is pinned to, and nothing else is
/// done before that.
pub proof fn law_configured_cpu_is_pinned_first(config: Config, pid: i32)
    requires
        config.cpu >= 0,
    ensures
        init_start(config, pid).0 == InitStage::Pin,
        init_start(config, pid).1 matches InitStep::Ask(InitRequest::Pin { pid: whom, cpu })
            && whom == pid && cpu == config.cpu,
{
}

/// A configured priority from 1 to 99 is asked for under policy number 1, first in first out,
/// and priority 0 under policy number 0, the normal one; a higher one is refused. So it is
/// once the node is pinned, and at once where no CPU is configured.
pub proof fn law_priority_decides_the_policy(config: Config, pid: i32)
    requires
        config.prio >= 0,
    ensures
        ({
            let asked = init_next(config, pid, InitStage::Pin, InitReply::Pinned(Ok(())));
            &&& config.cpu < 0 ==> init_start(config, pid) == asked
            &&& 1 <= config.prio <= 99 ==> asked == (
                InitStage::Schedule,
                InitStep::Ask(
                    InitRequest::Schedule(SchedRequest { pid, policy: 1, priority: config.prio }),
                ),
            )
            &&& config.prio == 0 ==> asked == (
                InitStage::Schedule,
                InitStep::Ask(InitRequest::Schedule(SchedRequest { pid, policy: 0, priority: 0 })),
            )
            &&& config.prio > 99 ==> asked == (
                InitStage::Finished,
                InitStep::Done(Err(TimpaniError::InvalidArgs)),
            )
        }),
{
}

/// Without a configured priority, a node that is pinned goes on to compare the clocks, as
/// one does whose priority is set. With that the initialization has succeeded.
pub proof fn law_clocks_are_compared_last(config: Config, pid: i32, offset: i64)
    ensures
        config.prio < 0 ==> init_next(config, pid, InitStage::Pin, InitReply::Pinned(Ok(()))) == (
            InitStage::Calibrate,
            InitStep::Ask(InitRequest::Calibrate),
        ),
        init_next(config, pid, InitStage::Schedule, InitReply::Scheduled(Ok(()))) == (
            InitStage::Calibrate,
            InitStep::Ask(InitRequest::Calibrate),
        ),
        init_next(config, pid, InitStage::Calibrate, InitReply::Calibrated(Ok(offset))) == (
            InitStage::Finished,
            InitStep::Done(Ok(())),
        ),
{
}

/// A failure of what was asked for ends the initialization with this very error.
pub proof fn law_first_failure_is_the_result(config: Config, pid: i32, error: TimpaniError)
    ensures
        init_next(config, pid, InitStage::Pin, InitReply::Pinned(Err(error))) == (
            InitStage::Finished,
            InitStep::Done(Err(error)),
        ),
        init_next(config, pid, InitStage::Schedule, InitReply::Scheduled(Err(error))) == (
            InitStage::Finished,
            InitStep::Done(Err(error)),
        ),
        init_next(config, pid, InitStage::Calibrate, InitReply::Calibrated(Err(error))) == (
            InitStage::Finished,
            InitStep::Done(Err(error)),
        ),
{
}

/// A reply is unexpected exactly where it answers something else than what was asked for,
/// and then nothing is gone on to.
pub proof fn law_only_the_awaited_reply_counts(
    config: Config,
    pid: i32,
    stage: InitStage,
    reply: InitReply,
)
    ensures
        init_next(config, pid, stage, reply).1 is Unexpected <==> !{
            ||| stage == InitStage::Pin && reply is Pinned
            ||| stage == InitStage::Schedule && reply is Scheduled
            ||| stage == InitStage::Calibrate && reply is Calibrated
        },
        init_next(config, pid, stage, reply).1 is Unexpected ==> init_next(
            config,
            pid,
            stage,
            reply,
        ).0 == stage,
{
}

/// The offset that was measured is the one that is kept, and nothing but a measurement that
/// was asked for and succeeded changes it.
pub proof fn law_only_a_measurement_sets_the_offset(
    stage: InitStage,
    reply: InitReply,
    offset: i64,
    measured: i64,
)
    ensures
        init_offset(InitStage::Calibrate, InitReply::Calibrated(Ok(measured)), offset) == measured,
        !(stage == InitStage::Calibrate && reply is Calibrated && reply->Calibrated_0 is Ok)
            ==> init_offset(stage, reply, offset) == offset,
{
}

/// Of the configuration, the initialization looks at the CPU and the priority alone.
pub proof fn law_only_cpu_and_priority_matter(
    config: Config,
    other: Config,
    pid: i32,
    stage: InitStage,
    reply: InitReply,
)
    requires
        config.cpu == other.cpu,
        config.prio == other.prio,
    ensures
        init_start(config, pid) == init_start(other, pid),
        init_next(config, pid, stage, reply) == init_next(other, pid, stage, reply),
{
}

/// In the initial state nothing was asked for, fetched, agreed on, set up or measured.
pub proof fn law_initial_state_is_blank(state: RuntimeState)
    ensures
        state.is_initial() <==> {
            &&& state.shutdown_requested == false
            &&& state.sched_info is None
            &&& state.sync_start is None
            &&& state.tt_list@.len() == 0
            &&& state.ktime_offset == 0
        },
{
    if state.tt_list@.len() == 0 {
        assert(state.tt_list@ =~= Seq::<TimeTrigger>::empty());
    }
}

} // verus!
