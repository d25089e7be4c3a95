//! What holds of the course of a node as a whole.

use std::time::Instant;
use vstd::prelude::*;

use crate::config::Config;
use crate::context::init_answer;
use crate::context::init_next;
use crate::context::init_offset;
use crate::context::init_result;
use crate::context::InitReplies;
use crate::context::InitReply;
use crate::context::InitRequest;
use crate::context::InitStage;
use crate::context::InitStep;
use crate::context::SyncStartTime;
use crate::error::TimpaniError;
use crate::error::TimpaniResult;
use crate::node::empty_list;
use crate::node::Action;
use crate::node::ActionView;
use crate::node::Event;
use crate::node::FetchedView;
use crate::node::Node;
use crate::node::NodeView;
use crate::node::Phase;
use crate::node::PhaseView;
use crate::node::RETRY_INTERVAL_SECS;
use crate::node::WORKLOAD_POLL_INTERVAL_SECS;
use crate::proto::NodeSchedResponse;
use crate::proto::SyncResponse;
use crate::schedule::proto_schedule;
use crate::task::entries;
use crate::task::fails_after;
use crate::task::law_no_pidfd_is_lost;
use crate::task::law_no_two_entries_share_a_state;
use crate::task::law_setup_follows_the_tasks;
use crate::task::law_step_keeps_the_list;
use crate::task::opened_by;
use crate::task::pidfds_of;
use crate::task::task_result;
use crate::task::trigger_views;
use crate::task::StepView;
use crate::task::TaskAsk;
use crate::task::TaskListView;
use crate::task::TaskReplies;
use crate::task::TaskReply;
use crate::task::TaskStage;
use crate::task::TriggerView;

verus! {

/// The entries that belong to the phase itself: those that are being set up, or that wait
/// for the other nodes.
pub open spec fn pending(phase: PhaseView) -> Seq<TriggerView> {
    match phase {
        PhaseView::Building { list, .. } => list.triggers,
        PhaseView::Syncing { triggers, .. } => triggers,
        PhaseView::Rebuilding { list, .. } => list.triggers,
        _ => Seq::empty(),
    }
}

/// The pidfds that a node holds.
pub open spec fn held(node: NodeView) -> Seq<i32> {
    pidfds_of(node.triggers) + pidfds_of(pending(node.phase))
}

/// The pidfd that an event brings, where it was waited for.
pub open spec fn brought(node: NodeView, event: Event) -> Seq<i32> {
    match (node.phase, event) {
        (PhaseView::Building { list, .. }, Event::Task(reply)) => opened_by(list.stage, reply),
        (PhaseView::Rebuilding { list, .. }, Event::Task(reply)) => opened_by(list.stage, reply),
        _ => Seq::empty(),
    }
}

/// The pidfds that an action says to close.
pub open spec fn closed_by(action: ActionView) -> Seq<i32> {
    match action {
        ActionView::Release { pidfds, .. } => pidfds,
        ActionView::Exit { pidfds, .. } => pidfds,
        _ => Seq::empty(),
    }
}

/// No pidfd is lost: those that were held before a step, and the one that the event
/// brought, are held after it or are to be closed. At the exit none is held.
pub proof fn law_every_pidfd_is_closed_once(node: NodeView, event: Event)
    requires
        node.wf(),
    ensures
        ({
            let (next, action) = node.next(event);
            &&& held(node) + brought(node, event) == closed_by(action) + held(next)
            &&& action is Exit ==> held(next) == Seq::<i32>::empty()
        }),
{
    let (next, action) = node.next(event);
    match (node.phase, event) {
        (PhaseView::Building { list, .. }, Event::Task(reply)) => {
            law_no_pidfd_is_lost(list, reply);
        },
        (PhaseView::Rebuilding { list, .. }, Event::Task(reply)) => {
            law_no_pidfd_is_lost(list, reply);
        },
        _ => {},
    }
    assert(held(node) + brought(node, event) =~= closed_by(action) + held(next));
}

/// A running node has an entry for each task of the schedule in force, in order, and no two
/// of them share one state.
pub proof fn law_running_entries_share_no_state(node: Node, i: int, j: int)
    requires
        node@.wf(),
        node@.phase is Watching || node@.phase is Polling,
        0 <= i < j < node.ctx.runtime.tt_list@.len(),
    ensures
        node.ctx.runtime.tt_list@[i].info@ == node@.sched->Some_0.content.tasks[i],
        node.ctx.runtime.tt_list@[j].info@ == node@.sched->Some_0.content.tasks[j],
        node.ctx.runtime.tt_list@[i].bpf_state != node.ctx.runtime.tt_list@[j].bpf_state,
{
    assert(node@.triggers[i].info == node@.sched->Some_0.content.tasks[i]);
    assert(node@.triggers[j].info == node@.sched->Some_0.content.tasks[j]);
    law_no_two_entries_share_a_state(node.ctx.runtime.tt_list@, i, j);
}

/// What happens never changes the configuration, and the node stays the process that it
/// is.
pub proof fn law_configuration_is_kept(node: NodeView, event: Event)
    ensures
        node.next(event).0.config == node.config,
        node.next(event).0.pid == node.pid,
        node.next(event).0.shutdown_requested == node.shutdown_requested,
{
}

/// Something that was not waited for changes nothing.
pub proof fn law_unexpected_changes_nothing(node: NodeView, event: Event)
    requires
        node.wf(),
        node.next(event).1 is Unexpected,
    ensures
        node.next(event).0 == node,
{
}

/// A node that has stopped stays stopped.
pub proof fn law_stopped_for_good(node: NodeView, event: Event)
    requires
        node.phase is Stopped,
    ensures
        node.next(event) == (node, ActionView::Unexpected),
{
}

/// The node exits exactly when it stops.
pub proof fn law_exit_is_the_end(node: NodeView, event: Event)
    requires
        !(node.phase is Stopped),
    ensures
        node.next(event).1 is Exit <==> node.next(event).0.phase is Stopped,
{
}

/// Only a shutdown signal ends a node without an error, and only a running one; the
/// schedule stays known, and every pidfd of its tasks is to be closed.
pub proof fn law_only_a_signal_ends_well(node: NodeView, event: Event)
    requires
        node.wf(),
    ensures
        (node.next(event).1 matches ActionView::Exit { result: Ok(_), .. }) <==> node.phase
            == PhaseView::Watching && event == Event::Cancelled,
        node.phase == PhaseView::Watching && event == Event::Cancelled ==> {
            &&& node.next(event).1 == (ActionView::Exit {
                result: Ok(()),
                pidfds: pidfds_of(node.triggers),
            })
            &&& node.next(event).0.sched == node.sched
        },
{
    assert(pidfds_of(node.triggers) + Seq::<i32>::empty() =~= pidfds_of(node.triggers));
}

/// A fetch that fails while the node runs, for want of a workload or for any other
/// reason, changes nothing: the node goes on with the schedule that is in force.
pub proof fn law_failed_fetch_keeps_the_schedule(
    node: NodeView,
    error: TimpaniError,
    received_at: Instant,
)
    requires
        node.phase is Polling,
    ensures
        node.next(Event::Schedule { reply: Err(error), received_at }) == (
            NodeView { phase: PhaseView::Watching, ..node },
            ActionView::AwaitTick,
        ),
{
}

/// A fetched schedule with the content of the one in force changes only the time of the
/// last fetch: the tasks go on undisturbed.
pub proof fn law_same_content_only_advances_the_time(
    node: NodeView,
    response: NodeSchedResponse,
    received_at: Instant,
)
    requires
        node.wf(),
        node.phase is Polling,
        proto_schedule(response) == node.sched->Some_0.content,
    ensures
        node.next(Event::Schedule { reply: Ok(response), received_at }) == (
            NodeView {
                phase: PhaseView::Watching,
                sched: Some(FetchedView { content: node.sched->Some_0.content, received_at }),
                ..node
            },
            ActionView::AwaitTick,
        ),
{
}

/// A refused barrier, or one that fails, ends the node: with a network error in the first
/// case and with the failure in the second. The pidfds of all tasks are to be closed.
pub proof fn law_refused_barrier_ends_the_node(
    node: NodeView,
    reply: TimpaniResult<SyncResponse>,
)
    requires
        node.wf(),
        node.phase is Syncing,
        reply matches Ok(sync) ==> !sync.ack,
    ensures
        node.next(Event::Synced(reply)).1 == (ActionView::Exit {
            result: Err(
                match reply {
                    Ok(_) => TimpaniError::Network,
                    Err(error) => error,
                },
            ),
            pidfds: pidfds_of(node.phase->Syncing_triggers),
        }),
{
    assert(pidfds_of(node.triggers) + pidfds_of(node.phase->Syncing_triggers) =~= pidfds_of(
        node.phase->Syncing_triggers,
    ));
}

/// The barrier is asked for only if it is configured.
pub proof fn law_barrier_only_if_configured(node: NodeView, event: Event)
    ensures
        node.next(event).1 is Sync ==> node.config.enable_sync,
{
}

impl NodeView {
    /// The node after `n` fetches that found no workload, each followed by a wait.
    pub open spec fn after_vain_fetches(self, n: nat, received_at: Instant) -> (
        NodeView,
        ActionView,
    )
        decreases n,
    {
        if n == 0 {
            (self, ActionView::FetchSchedule { node_id: self.config.node_id@ })
        } else {
            let before = self.after_vain_fetches((n - 1) as nat, received_at).0;
            let waiting = before.next(
                Event::Schedule { reply: Err(TimpaniError::NotReady), received_at },
            ).0;
            waiting.next(Event::Waited)
        }
    }
}

/// As long as there is no workload, a connected node fetches again: `max_retries` times
/// after the first fetch, and not once more. Then it ends with a network error.
pub proof fn law_fetches_are_bounded(node: NodeView, n: nat, received_at: Instant)
    requires
        node.phase == (PhaseView::Fetching { attempt: 0 }),
        n <= node.config.max_retries,
    ensures
        node.after_vain_fetches(n, received_at) == (
            NodeView { phase: PhaseView::Fetching { attempt: n as u32 }, ..node },
            ActionView::FetchSchedule { node_id: node.config.node_id@ },
        ),
        node.after_vain_fetches(n, received_at).0.next(
            Event::Schedule { reply: Err(TimpaniError::NotReady), received_at },
        ).1 == if n < node.config.max_retries {
            ActionView::Wait
        } else {
            ActionView::Exit {
                result: Err(TimpaniError::Network),
                pidfds: pidfds_of(node.triggers),
            }
        },
    decreases n,
{
    assert(pidfds_of(node.triggers) + Seq::<i32>::empty() =~= pidfds_of(node.triggers));
    if n > 0 {
        law_fetches_are_bounded(node, (n - 1) as nat, received_at);
    }
}

impl NodeView {
    /// Takes up to `steps` steps, with the world's answers, as long as something is to be
    /// done to initialize the context.
    pub open spec fn drive_init(self, at: ActionView, world: InitReplies, steps: nat) -> (
        NodeView,
        ActionView,
    )
        decreases steps,
    {
        match (at, self.phase) {
            (ActionView::Init(_), PhaseView::Starting { stage }) => {
                if steps == 0 {
                    (self, at)
                } else {
                    let (next, action) = self.next(Event::Init(init_answer(stage, world)));
                    next.drive_init(action, world, (steps - 1) as nat)
                }
            },
            _ => (self, at),
        }
    }

    /// Takes up to `steps` steps, with the world's answers, as long as something is to be
    /// done to set up a task.
    pub open spec fn drive_tasks(self, at: ActionView, world: Seq<TaskReplies>, steps: nat) -> (
        NodeView,
        ActionView,
    )
        decreases steps,
    {
        match (at, self.phase) {
            (ActionView::Task(_), PhaseView::Building { list, .. }) => {
                if steps == 0 {
                    (self, at)
                } else {
                    let (next, action) = self.next(Event::Task(list.answer(world)));
                    next.drive_tasks(action, world, (steps - 1) as nat)
                }
            },
            (ActionView::Task(_), PhaseView::Rebuilding { list, .. }) => {
                if steps == 0 {
                    (self, at)
                } else {
                    let (next, action) = self.next(Event::Task(list.answer(world)));
                    next.drive_tasks(action, world, (steps - 1) as nat)
                }
            },
            _ => (self, at),
        }
    }
}

/// Once its signal handlers are installed, a node initializes its context in at most three
/// steps. It goes on to connect if that succeeds, with the measured offset between the
/// clocks, and ends with the failure otherwise.
pub proof fn law_initialization_comes_first(node: NodeView, world: InitReplies)
    requires
        node.wf(),
        node.phase is Signals,
    ensures
        ({
            let (begun, ask) = node.next(Event::SignalsInstalled(Ok(())));
            let (end, last) = begun.drive_init(ask, world, 3);
            match init_result(node.config, node.pid, world) {
                Ok(_) => {
                    &&& end == NodeView {
                        phase: PhaseView::Connecting,
                        ktime_offset: world.calibrated->Ok_0,
                        ..node
                    }
                    &&& last == ActionView::Connect {
                        endpoint: node.config.spec_endpoint(),
                        max_retries: node.config.max_retries,
                    }
                },
                Err(error) => {
                    &&& end.phase is Stopped
                    &&& last == ActionView::Exit { result: Err(error), pidfds: Seq::empty() }
                },
            }
        }),
{
    reveal_with_fuel(NodeView::drive_init, 4);
    assert(pidfds_of(node.triggers) + Seq::<i32>::empty() =~= Seq::<i32>::empty());
}

/// A step that asks for more leaves fewer steps.
proof fn lemma_steps_decrease(list: TaskListView, world: Seq<TaskReplies>)
    requires
        list.wf(),
        list.stage != TaskStage::Finished,
    ensures
        list.next(list.answer(world)).1 is Ask ==> 0 < list.next(
            list.answer(world),
        ).0.steps_left() < list.steps_left(),
        !(list.next(list.answer(world)).1 is Unexpected),
        0 < list.steps_left(),
{
}

proof fn lemma_drive_follows_the_list(
    node: NodeView,
    at: ActionView,
    list: TaskListView,
    received_at: Instant,
    world: Seq<TaskReplies>,
    steps: nat,
)
    requires
        at is Task,
        node.phase == (PhaseView::Building { list, received_at }) || node.phase == (
        PhaseView::Rebuilding { list, received_at }),
        list.wf(),
        list.stage != TaskStage::Finished,
        list.steps_left() <= steps,
    ensures
        node.drive_tasks(at, world, steps) == if node.phase is Building {
            node.after_build(list.run(world).0, received_at, list.run(world).1)
        } else {
            node.after_rebuild(list.run(world).0, received_at, list.run(world).1)
        },
        list.run(world).0.sched == list.sched,
    decreases steps,
{
    reveal_with_fuel(NodeView::drive_tasks, 2);
    lemma_steps_decrease(list, world);
    law_step_keeps_the_list(list, list.answer(world));
    let (next_list, step) = list.next(list.answer(world));
    let (next, action) = node.next(Event::Task(list.answer(world)));
    if step is Ask {
        lemma_drive_follows_the_list(
            next,
            action,
            next_list,
            received_at,
            world,
            (steps - 1) as nat,
        );
    }
}

/// The first schedule that a node gets is taken up: each of its tasks is set up, in order.
/// If the first that fails is task `n`, the node ends with the failure and the pidfds of
/// the tasks before it are to be closed. If none fails, the node has an entry for each of
/// them; it then asks for the barrier if that is configured, and runs otherwise.
pub proof fn law_first_schedule_is_taken_up(
    node: NodeView,
    response: NodeSchedResponse,
    received_at: Instant,
    world: Seq<TaskReplies>,
    n: int,
    steps: nat,
)
    requires
        node.wf(),
        node.phase is Fetching,
        fails_after(proto_schedule(response).tasks, world, n),
        4 * proto_schedule(response).tasks.len() <= steps,
    ensures
        ({
            let content = proto_schedule(response);
            let triggers = entries(content.tasks, world, n as nat);
            let sched = FetchedView { content, received_at };
            let (begun, ask) = node.next(Event::Schedule { reply: Ok(response), received_at });
            let (end, last) = begun.drive_tasks(ask, world, steps);
            if n < content.tasks.len() {
                &&& end.phase is Stopped
                &&& last == ActionView::Exit {
                    result: Err(task_result(content.tasks[n], world[n], n as nat)->Err_0),
                    pidfds: pidfds_of(triggers),
                }
            } else if node.config.enable_sync {
                &&& end == NodeView { phase: PhaseView::Syncing { sched, triggers }, ..node }
                &&& last == ActionView::Sync { node_id: node.config.node_id@ }
            } else {
                &&& end == NodeView {
                    phase: PhaseView::Watching,
                    sched: Some(sched),
                    triggers,
                    client: Some(node.config.spec_endpoint()),
                    ..node
                }
                &&& last == ActionView::AwaitTick
            }
        }),
{
    let content = proto_schedule(response);
    let triggers = entries(content.tasks, world, n as nat);
    let (begun, ask) = node.next(Event::Schedule { reply: Ok(response), received_at });
    law_setup_follows_the_tasks(content, world, n);
    if ask is Task {
        let list = empty_list(content).next_task().0;
        lemma_drive_follows_the_list(begun, ask, list, received_at, world, steps);
    }
    assert(pidfds_of(node.triggers) + pidfds_of(triggers) =~= pidfds_of(triggers));
}

/// When the barrier opens, the node runs: it knows when the nodes start together.
pub proof fn law_open_barrier_starts_the_node(node: NodeView, sync: SyncResponse)
    requires
        node.wf(),
        node.phase is Syncing,
        sync.ack,
    ensures
        node.next(Event::Synced(Ok(sync))) == (
            NodeView {
                phase: PhaseView::Watching,
                sched: Some(node.phase->Syncing_sched),
                triggers: node.phase->Syncing_triggers,
                sync_start: Some(
                    SyncStartTime { sec: sync.start_time_sec, nsec: sync.start_time_nsec },
                ),
                client: Some(node.config.spec_endpoint()),
                ..node
            },
            ActionView::AwaitTick,
        ),
{
}

/// A fetched schedule with another content replaces the one in force: the pidfds of the
/// old tasks are to be closed first, all of them, and then each new task is set up, in
/// order. If the first that fails is task `n`, the node ends with the failure, and the
/// pidfds of the tasks before it are to be closed. If none fails, the node goes on with the
/// new schedule and an entry for each of its tasks, and all else is as before. A schedule
/// without tasks never fails.
pub proof fn law_other_content_is_taken_up(
    node: NodeView,
    response: NodeSchedResponse,
    received_at: Instant,
    world: Seq<TaskReplies>,
    n: int,
    steps: nat,
)
    requires
        node.wf(),
        node.phase is Polling,
        proto_schedule(response) != node.sched->Some_0.content,
        fails_after(proto_schedule(response).tasks, world, n),
        4 * proto_schedule(response).tasks.len() <= steps,
    ensures
        ({
            let content = proto_schedule(response);
            let triggers = entries(content.tasks, world, n as nat);
            let (between, release) = node.next(
                Event::Schedule { reply: Ok(response), received_at },
            );
            let (begun, ask) = between.next(Event::Released);
            let (end, last) = begun.drive_tasks(ask, world, steps);
            &&& release == ActionView::Release {
                pidfds: pidfds_of(node.triggers),
                replaced: content.workload_id != node.sched->Some_0.content.workload_id,
            }
            &&& if n < content.tasks.len() {
                &&& end.phase is Stopped
                &&& last == ActionView::Exit {
                    result: Err(task_result(content.tasks[n], world[n], n as nat)->Err_0),
                    pidfds: pidfds_of(triggers),
                }
            } else {
                &&& end == NodeView {
                    phase: PhaseView::Watching,
                    sched: Some(FetchedView { content, received_at }),
                    triggers,
                    ..node
                }
                &&& last == ActionView::AwaitTick
            }
        }),
{
    let content = proto_schedule(response);
    let triggers = entries(content.tasks, world, n as nat);
    let (between, release) = node.next(Event::Schedule { reply: Ok(response), received_at });
    let (begun, ask) = between.next(Event::Released);
    law_setup_follows_the_tasks(content, world, n);
    if ask is Task {
        let list = empty_list(content).next_task().0;
        lemma_drive_follows_the_list(begun, ask, list, received_at, world, steps);
    }
    assert(pidfds_of(between.triggers) + pidfds_of(triggers) =~= pidfds_of(triggers));
}

// Step by step

/// The view of an action says what is to be done, with all that it carries.
pub proof fn law_action_view_keeps_every_field(action: Action)
    ensures
        match action {
            Action::InstallSignals => action@ == ActionView::InstallSignals,
            Action::Init(request) => action@ == ActionView::Init(request),
            Action::Connect { endpoint, max_retries } => action@ == (ActionView::Connect {
                endpoint: endpoint@,
                max_retries,
            }),
            Action::FetchSchedule { node_id } => action@ == (ActionView::FetchSchedule {
                node_id: node_id@,
            }),
            Action::Wait => action@ == ActionView::Wait,
            Action::Task(request) => action@ == ActionView::Task(request@),
            Action::Sync { node_id } => action@ == (ActionView::Sync { node_id: node_id@ }),
            Action::AwaitTick => action@ == ActionView::AwaitTick,
            Action::Release { pidfds, replaced } => action@ == (ActionView::Release {
                pidfds: pidfds@,
                replaced,
            }),
            Action::Exit { result, pidfds } => action@ == (ActionView::Exit {
                result,
                pidfds: pidfds@,
            }),
            Action::Unexpected => action@ == ActionView::Unexpected,
        },
{
}

/// The view of a phase says which phase it is, with all that it carries.
pub proof fn law_phase_view_keeps_every_field(phase: Phase)
    ensures
        match phase {
            Phase::Signals => phase@ == PhaseView::Signals,
            Phase::Starting { stage } => phase@ == (PhaseView::Starting { stage }),
            Phase::Connecting => phase@ == PhaseView::Connecting,
            Phase::Fetching { attempt } => phase@ == (PhaseView::Fetching { attempt }),
            Phase::Backoff { attempt } => phase@ == (PhaseView::Backoff { attempt }),
            Phase::Building { init } => phase@ == (PhaseView::Building {
                list: init@,
                received_at: init.sched.received_at,
            }),
            Phase::Syncing { sched, triggers } => phase@ == (PhaseView::Syncing {
                sched: FetchedView { content: sched@, received_at: sched.received_at },
                triggers: trigger_views(triggers@),
            }),
            Phase::Watching => phase@ == PhaseView::Watching,
            Phase::Polling => phase@ == PhaseView::Polling,
            Phase::Releasing { next } => phase@ == (PhaseView::Releasing {
                next: FetchedView { content: next@, received_at: next.received_at },
            }),
            Phase::Rebuilding { init } => phase@ == (PhaseView::Rebuilding {
                list: init@,
                received_at: init.sched.received_at,
            }),
            Phase::Stopped => phase@ == PhaseView::Stopped,
        },
{
}

/// The view of a node says what the node holds: its process, its configuration, its phase,
/// and the whole of its runtime state and its connection.
pub proof fn law_node_view_keeps_every_field(node: Node)
    ensures
        node@.pid == node.pid,
        node@.config == node.ctx.config,
        node@.phase == node.phase@,
        node@.shutdown_requested == node.ctx.runtime.shutdown_requested,
        node@.sync_start == node.ctx.runtime.sync_start,
        node@.ktime_offset == node.ctx.runtime.ktime_offset,
        node@.triggers == trigger_views(node.ctx.runtime.tt_list@),
        match node.ctx.runtime.sched_info {
            Some(sched) => node@.sched == Some(
                FetchedView { content: sched@, received_at: sched.received_at },
            ),
            None => node@.sched is None,
        },
        match node.ctx.comm.node_client {
            Some(client) => node@.client == Some(client.endpoint@),
            None => node@.client is None,
        },
{
}

/// At every tick a running node fetches its schedule by the configured node id, whatever the
/// rest of the configuration is and however it was started, and nothing else of it changes.
pub proof fn law_every_tick_fetches_the_schedule(node: NodeView)
    requires
        node.phase is Watching,
        node.client is Some,
    ensures
        node.next(Event::Tick).0 == (NodeView { phase: PhaseView::Polling, ..node }),
        node.next(Event::Tick).1 == (ActionView::FetchSchedule { node_id: node.config.node_id@ }),
{
}

/// A well-formed node that watches is connected, so that every tick finds it able to fetch.
pub proof fn law_a_watching_node_is_connected(node: NodeView)
    requires
        node.wf(),
        node.phase is Watching,
    ensures
        node.client is Some,
        node.sched is Some,
        node.next(Event::Tick).1 is FetchSchedule,
        node.next(Event::Tick).0.phase is Polling,
{
}

/// Once it is connected, a node fetches its schedule by the configured node id, with no vain
/// attempt counted, whatever its configuration is.
pub proof fn law_a_connection_leads_to_the_first_fetch(node: NodeView)
    requires
        node.phase is Connecting,
    ensures
        node.next(Event::Connected(Ok(()))) == (
            NodeView { phase: PhaseView::Fetching { attempt: 0 }, ..node },
            ActionView::FetchSchedule { node_id: node.config.node_id@ },
        ),
{
}

/// From the connection on, exactly `max_retries` fetches follow the first one as long as there
/// is no workload: after each vain fetch before that the node waits and fetches again, and
/// after the last it ends with a network error.
pub proof fn law_a_connected_node_retries(node: NodeView, n: nat, received_at: Instant)
    requires
        node.phase is Connecting,
        n <= node.config.max_retries,
    ensures
        ({
            let first = node.next(Event::Connected(Ok(()))).0;
            let (nth, action) = first.after_vain_fetches(n, received_at);
            let vain = nth.next(
                Event::Schedule { reply: Err(TimpaniError::NotReady), received_at },
            ).1;
            &&& action == ActionView::FetchSchedule { node_id: node.config.node_id@ }
            &&& vain is Wait <==> n < node.config.max_retries
            &&& n == node.config.max_retries ==> vain == ActionView::Exit {
                result: Err(TimpaniError::Network),
                pidfds: pidfds_of(node.triggers),
            }
        }),
{
    law_fetches_are_bounded(node.next(Event::Connected(Ok(()))).0, n, received_at);
}

/// A vain fetch for want of a workload counts as one attempt. The node waits if it may try
/// again, and ends with a network error if it may not; any other error ends it with that.
pub proof fn law_a_vain_fetch_counts_once(
    node: NodeView,
    attempt: u32,
    error: TimpaniError,
    received_at: Instant,
)
    requires
        node.phase == (PhaseView::Fetching { attempt }),
    ensures
        ({
            let (next, action) = node.next(Event::Schedule { reply: Err(error), received_at });
            if error == TimpaniError::NotReady && attempt < node.config.max_retries {
                &&& action == ActionView::Wait
                &&& next.phase matches PhaseView::Backoff { attempt: counted }
                &&& counted == attempt + 1
                &&& next == NodeView { phase: next.phase, ..node }
            } else {
                &&& action == ActionView::Exit {
                    result: Err(
                        if error == TimpaniError::NotReady {
                            TimpaniError::Network
                        } else {
                            error
                        },
                    ),
                    pidfds: pidfds_of(node.triggers),
                }
                &&& next == NodeView {
                    phase: PhaseView::Stopped,
                    triggers: Seq::empty(),
                    ..node
                }
            }
        }),
{
    assert(pidfds_of(node.triggers) + Seq::<i32>::empty() =~= pidfds_of(node.triggers));
}

/// A wait that has passed leads to the next fetch with the attempts counted so far, and one
/// that a shutdown signal ends is the end of the node.
pub proof fn law_a_wait_leads_to_the_next_fetch(node: NodeView, attempt: u32)
    requires
        node.phase == (PhaseView::Backoff { attempt }),
    ensures
        node.next(Event::Waited) == (
            NodeView { phase: PhaseView::Fetching { attempt }, ..node },
            ActionView::FetchSchedule { node_id: node.config.node_id@ },
        ),
        node.next(Event::Cancelled) == (
            NodeView { phase: PhaseView::Stopped, triggers: Seq::empty(), ..node },
            ActionView::Exit {
                result: Err(TimpaniError::Signal),
                pidfds: pidfds_of(node.triggers),
            },
        ),
{
    assert(pidfds_of(node.triggers) + Seq::<i32>::empty() =~= pidfds_of(node.triggers));
}

/// Signal handlers that cannot be installed, and a connection that cannot be made, end the
/// node with this very error.
pub proof fn law_a_failed_start_ends_the_node(node: NodeView, error: TimpaniError)
    ensures
        ({
            let end = (
                NodeView { phase: PhaseView::Stopped, triggers: Seq::empty(), ..node },
                ActionView::Exit { result: Err(error), pidfds: pidfds_of(node.triggers) },
            );
            &&& node.phase is Signals ==> node.next(Event::SignalsInstalled(Err(error))) == end
            &&& node.phase is Connecting ==> node.next(Event::Connected(Err(error))) == end
        }),
{
    assert(pidfds_of(node.triggers) + Seq::<i32>::empty() =~= pidfds_of(node.triggers));
}

/// With its signal handlers installed, a node initializes: it is pinned if a CPU is
/// configured, else it gets its priority if one is configured, real-time for 1 to 99, else the
/// clocks are compared.
pub proof fn law_installed_signals_lead_to_the_initialization(node: NodeView)
    requires
        node.phase is Signals,
    ensures
        ({
            let (next, action) = node.next(Event::SignalsInstalled(Ok(())));
            let prio = node.config.prio;
            if node.config.cpu >= 0 {
                &&& next == NodeView {
                    phase: PhaseView::Starting { stage: InitStage::Pin },
                    ..node
                }
                &&& action matches ActionView::Init(InitRequest::Pin { pid, cpu })
                &&& pid == node.pid
                &&& cpu == node.config.cpu
            } else if prio < 0 {
                &&& next == NodeView {
                    phase: PhaseView::Starting { stage: InitStage::Calibrate },
                    ..node
                }
                &&& action == ActionView::Init(InitRequest::Calibrate)
            } else if prio <= 99 {
                &&& next == NodeView {
                    phase: PhaseView::Starting { stage: InitStage::Schedule },
                    ..node
                }
                &&& action matches ActionView::Init(InitRequest::Schedule(request))
                &&& request.pid == node.pid
                &&& request.priority == prio
                &&& request.policy == if prio == 0 {
                    0int
                } else {
                    1int
                }
            } else {
                &&& next.phase is Stopped
                &&& action matches ActionView::Exit { result, .. }
                &&& result == Err::<(), TimpaniError>(TimpaniError::InvalidArgs)
            }
        }),
{
}

/// While it initializes, a node does what the initialization asks for, for its own process
/// and configuration. It connects to the configured scheduler, with the configured number of
/// retries, once that has succeeded, and ends with the error if it fails.
pub proof fn law_initialization_is_followed(node: NodeView, stage: InitStage, reply: InitReply)
    requires
        node.phase == (PhaseView::Starting { stage }),
    ensures
        ({
            let (goes_to, step) = init_next(node.config, node.pid, stage, reply);
            let measured = NodeView {
                ktime_offset: init_offset(stage, reply, node.ktime_offset),
                ..node
            };
            let (next, action) = node.next(Event::Init(reply));
            match step {
                InitStep::Ask(request) => {
                    &&& next == NodeView { phase: PhaseView::Starting { stage: goes_to }, ..measured }
                    &&& action == ActionView::Init(request)
                },
                InitStep::Done(Ok(_)) => {
                    &&& next == NodeView { phase: PhaseView::Connecting, ..measured }
                    &&& action == ActionView::Connect {
                        endpoint: node.config.spec_endpoint(),
                        max_retries: node.config.max_retries,
                    }
                },
                InitStep::Done(Err(error)) => {
                    &&& next == NodeView {
                        phase: PhaseView::Stopped,
                        triggers: Seq::empty(),
                        ..measured
                    }
                    &&& action == ActionView::Exit {
                        result: Err(error),
                        pidfds: pidfds_of(node.triggers),
                    }
                },
                InitStep::Unexpected => next == node && action == ActionView::Unexpected,
            }
        }),
{
    assert(pidfds_of(node.triggers) + Seq::<i32>::empty() =~= pidfds_of(node.triggers));
}

/// The first schedule that comes is the one whose tasks are set up, with the time at which it
/// came: the first of them is looked for. One without tasks is taken up at once, after the
/// barrier if that is configured.
pub proof fn law_the_first_schedule_is_set_up(
    node: NodeView,
    response: NodeSchedResponse,
    received_at: Instant,
)
    requires
        node.phase is Fetching,
    ensures
        ({
            let content = proto_schedule(response);
            let (next, action) = node.next(Event::Schedule { reply: Ok(response), received_at });
            if content.tasks.len() > 0 {
                &&& next.phase matches PhaseView::Building { list, received_at: at }
                &&& next == NodeView { phase: next.phase, ..node }
                &&& at == received_at
                &&& list.sched == content
                &&& list.triggers.len() == 0
                &&& list.stage == TaskStage::Locate
                &&& action == ActionView::Task(TaskAsk::Locate { name: content.tasks[0].name })
            } else {
                takes_up(
                    node,
                    FetchedView { content, received_at },
                    Seq::empty(),
                    next,
                    action,
                )
            }
        }),
{
}

/// `next` and `action` are how a node goes on whose first tasks are all set up: it waits for
/// the other nodes if that is configured, and runs otherwise.
pub open spec fn takes_up(
    node: NodeView,
    sched: FetchedView,
    triggers: Seq<TriggerView>,
    next: NodeView,
    action: ActionView,
) -> bool {
    if node.config.enable_sync {
        &&& next == NodeView { phase: PhaseView::Syncing { sched, triggers }, ..node }
        &&& action == ActionView::Sync { node_id: node.config.node_id@ }
    } else {
        &&& next == NodeView {
            phase: PhaseView::Watching,
            sched: Some(sched),
            triggers,
            sync_start: None,
            client: Some(node.config.spec_endpoint()),
            ..node
        }
        &&& action == ActionView::AwaitTick
    }
}

/// In the setup of the first tasks a node does what the setup asks for. Once all are set up it
/// takes the schedule up, with the time at which it came, and if one fails it ends with this
/// error and the pidfds are to be closed, those of the node and those given back.
pub proof fn law_the_first_setup_is_followed(
    node: NodeView,
    list: TaskListView,
    received_at: Instant,
    reply: TaskReply,
)
    requires
        node.phase == (PhaseView::Building { list, received_at }),
    ensures
        ({
            let (set_up, step) = list.next(reply);
            let (next, action) = node.next(Event::Task(reply));
            match step {
                StepView::Ask(request) => {
                    &&& next == NodeView {
                        phase: PhaseView::Building { list: set_up, received_at },
                        ..node
                    }
                    &&& action == ActionView::Task(request)
                },
                StepView::Done => takes_up(
                    node,
                    FetchedView { content: set_up.sched, received_at },
                    set_up.triggers,
                    next,
                    action,
                ),
                StepView::Failed { error, pidfds } => {
                    &&& next == NodeView {
                        phase: PhaseView::Stopped,
                        triggers: Seq::empty(),
                        ..node
                    }
                    &&& action == ActionView::Exit {
                        result: Err(error),
                        pidfds: pidfds_of(node.triggers) + pidfds,
                    }
                },
                StepView::Unexpected => {
                    &&& next == NodeView {
                        phase: PhaseView::Building { list: set_up, received_at },
                        ..node
                    }
                    &&& action == ActionView::Unexpected
                },
            }
        }),
{
}

/// What the barrier brings decides how the node goes on: an open one gives the time at which
/// the nodes start together, second and nanosecond, and starts the node with the schedule and
/// the tasks that waited for it; a closed one is a network error, and a failure is this
/// failure, and both end the node and close the pidfds of the tasks that waited.
pub proof fn law_the_barrier_decides(
    node: NodeView,
    sched: FetchedView,
    triggers: Seq<TriggerView>,
    sync: SyncResponse,
    error: TimpaniError,
)
    requires
        node.phase == (PhaseView::Syncing { sched, triggers }),
    ensures
        ({
            let stopped = NodeView { phase: PhaseView::Stopped, triggers: Seq::empty(), ..node };
            let closed = pidfds_of(node.triggers) + pidfds_of(triggers);
            &&& sync.ack ==> node.next(Event::Synced(Ok(sync))) == (
                NodeView {
                    phase: PhaseView::Watching,
                    sched: Some(sched),
                    triggers,
                    sync_start: Some(
                        SyncStartTime { sec: sync.start_time_sec, nsec: sync.start_time_nsec },
                    ),
                    client: Some(node.config.spec_endpoint()),
                    ..node
                },
                ActionView::AwaitTick,
            )
            &&& !sync.ack ==> node.next(Event::Synced(Ok(sync))) == (
                stopped,
                ActionView::Exit { result: Err(TimpaniError::Network), pidfds: closed },
            )
            &&& node.next(Event::Synced(Err(error))) == (
                stopped,
                ActionView::Exit { result: Err(error), pidfds: closed },
            )
        }),
{
}

/// A shutdown signal stops a running node without an error: the pidfds of all its tasks are to
/// be closed, and what it knows stays known.
pub proof fn law_a_signal_stops_a_running_node(node: NodeView)
    requires
        node.phase is Watching,
    ensures
        node.next(Event::Cancelled) == (
            NodeView { phase: PhaseView::Stopped, triggers: Seq::empty(), ..node },
            ActionView::Exit { result: Ok(()), pidfds: pidfds_of(node.triggers) },
        ),
{
    assert(pidfds_of(node.triggers) + Seq::<i32>::empty() =~= pidfds_of(node.triggers));
}

/// A schedule that is fetched while a node runs is compared with the one in force in all of
/// its content, the workload, the hyperperiod and every task: any difference lets go of all
/// tasks, and says whether the workload is another one; none changes the time of the fetch
/// alone.
pub proof fn law_any_difference_lets_go_of_the_tasks(
    node: NodeView,
    current: FetchedView,
    response: NodeSchedResponse,
    received_at: Instant,
)
    requires
        node.phase is Polling,
        node.sched == Some(current),
    ensures
        ({
            let new = proto_schedule(response);
            let same = new.workload_id == current.content.workload_id && new.hyperperiod_us
                == current.content.hyperperiod_us && new.tasks == current.content.tasks;
            node.next(Event::Schedule { reply: Ok(response), received_at }) == if same {
                (
                    NodeView {
                        phase: PhaseView::Watching,
                        sched: Some(FetchedView { content: current.content, received_at }),
                        ..node
                    },
                    ActionView::AwaitTick,
                )
            } else {
                (
                    NodeView {
                        phase: PhaseView::Releasing {
                            next: FetchedView { content: new, received_at },
                        },
                        triggers: Seq::empty(),
                        ..node
                    },
                    ActionView::Release {
                        pidfds: pidfds_of(node.triggers),
                        replaced: new.workload_id != current.content.workload_id,
                    },
                )
            }
        }),
{
}

/// Once the old tasks are let go of, the tasks of the schedule that was fetched are set up,
/// beginning with the first; one without tasks is in force at once, with the time at which it
/// was fetched.
pub proof fn law_released_tasks_make_room(node: NodeView, fetched: FetchedView)
    requires
        node.phase == (PhaseView::Releasing { next: fetched }),
    ensures
        ({
            let (next, action) = node.next(Event::Released);
            if fetched.content.tasks.len() > 0 {
                &&& next.phase matches PhaseView::Rebuilding { list, received_at }
                &&& next == NodeView { phase: next.phase, ..node }
                &&& received_at == fetched.received_at
                &&& list.sched == fetched.content
                &&& list.triggers.len() == 0
                &&& list.stage == TaskStage::Locate
                &&& action == ActionView::Task(
                    TaskAsk::Locate { name: fetched.content.tasks[0].name },
                )
            } else {
                &&& next == NodeView {
                    phase: PhaseView::Watching,
                    sched: Some(fetched),
                    triggers: Seq::empty(),
                    ..node
                }
                &&& action == ActionView::AwaitTick
            }
        }),
{
}

/// In the setup of new tasks a node does what the setup asks for. Once all are set up, the new
/// schedule is in force with their entries, and no barrier is asked for again; if one fails
/// the node ends with this error, and the pidfds given back are to be closed.
pub proof fn law_the_new_setup_is_followed(
    node: NodeView,
    list: TaskListView,
    received_at: Instant,
    reply: TaskReply,
)
    requires
        node.phase == (PhaseView::Rebuilding { list, received_at }),
    ensures
        ({
            let (set_up, step) = list.next(reply);
            let (next, action) = node.next(Event::Task(reply));
            match step {
                StepView::Ask(request) => {
                    &&& next == NodeView {
                        phase: PhaseView::Rebuilding { list: set_up, received_at },
                        ..node
                    }
                    &&& action == ActionView::Task(request)
                },
                StepView::Done => {
                    &&& next == NodeView {
                        phase: PhaseView::Watching,
                        sched: Some(FetchedView { content: set_up.sched, received_at }),
                        triggers: set_up.triggers,
                        ..node
                    }
                    &&& action == ActionView::AwaitTick
                },
                StepView::Failed { error, pidfds } => {
                    &&& next == NodeView {
                        phase: PhaseView::Stopped,
                        triggers: Seq::empty(),
                        ..node
                    }
                    &&& action == ActionView::Exit {
                        result: Err(error),
                        pidfds: pidfds_of(node.triggers) + pidfds,
                    }
                },
                StepView::Unexpected => {
                    &&& next == NodeView {
                        phase: PhaseView::Rebuilding { list: set_up, received_at },
                        ..node
                    }
                    &&& action == ActionView::Unexpected
                },
            }
        }),
{
}

/// In each phase exactly the events that it waits for count. Replies to requests of the
/// initialization and of a task are passed on to these, who say for themselves what they
/// wait for.
pub proof fn law_only_the_awaited_event_counts(node: NodeView, event: Event)
    ensures
        node.next(event).1 is Unexpected <==> match node.phase {
            PhaseView::Signals => !(event is SignalsInstalled),
            PhaseView::Starting { stage } => !(event is Init) || init_next(
                node.config,
                node.pid,
                stage,
                event->Init_0,
            ).1 is Unexpected,
            PhaseView::Connecting => !(event is Connected),
            PhaseView::Fetching { .. } => !(event is Schedule),
            PhaseView::Backoff { .. } => !(event is Waited || event is Cancelled),
            PhaseView::Building { list, .. } => !(event is Task) || list.next(
                event->Task_0,
            ).1 is Unexpected,
            PhaseView::Syncing { .. } => !(event is Synced),
            PhaseView::Watching => !(event is Tick || event is Cancelled),
            PhaseView::Polling => !(event is Schedule),
            PhaseView::Releasing { .. } => !(event is Released),
            PhaseView::Rebuilding { list, .. } => !(event is Task) || list.next(
                event->Task_0,
            ).1 is Unexpected,
            PhaseView::Stopped => true,
        },
{
}

/// Once a node runs, nothing of the configuration but the node id decides what it does: two
/// nodes that differ in the rest of it go the same way.
pub proof fn law_a_running_node_needs_its_id_alone(node: NodeView, other: Config, event: Event)
    requires
        node.phase is Watching || node.phase is Polling || node.phase is Releasing
            || node.phase is Rebuilding,
        node.config.node_id@ == other.node_id@,
    ensures
        ({
            let twin = NodeView { config: other, ..node };
            &&& twin.next(event).1 == node.next(event).1
            &&& twin.next(event).0 == NodeView { config: other, ..node.next(event).0 }
        }),
{
}

/// A new node has fetched nothing, agreed on nothing, set nothing up and is not connected.
pub proof fn law_a_new_node_has_nothing(node: NodeView)
    ensures
        node.is_new() <==> {
            &&& node.sched is None
            &&& node.sync_start is None
            &&& node.triggers.len() == 0
            &&& node.client is None
        },
{
    if node.triggers.len() == 0 {
        assert(node.triggers =~= Seq::<TriggerView>::empty());
    }
}

/// A node looks for its schedule every 2 seconds while it runs, and 1 second after a vain
/// fetch before that.
pub proof fn law_intervals()
    ensures
        WORKLOAD_POLL_INTERVAL_SECS == 2,
        RETRY_INTERVAL_SECS == 1,
{
}

} // verus!
