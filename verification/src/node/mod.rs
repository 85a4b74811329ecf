//! The node: identities, message ids, vector clocks and the rules by which
//! a node keeps its overlay alive and reacts to protocol events.

use vstd::prelude::*;

use crate::node::node_id::{LocalNodeId, NodeId};

pub mod clock;
pub mod message;
pub mod misc;
pub mod node_id;

verus! {

/// How often the node acts, in milliseconds.
#[derive(Debug, Clone, Copy, PartialEq, Eq, Structural)]
pub struct Parameters {
    pub tick_interval: u64,
    pub hyparview_shuffle_interval: u64,
    pub hyparview_sync_active_view_interval: u64,
    pub hyparview_fill_active_view_interval: u64,
}

impl Default for Parameters {
    /// Ten ticks a second; shuffle every 300 s, sync the active view every
    /// 60 s, fill it every 30 s.
    fn default() -> (p: Parameters)
        ensures
            p == (Parameters {
                tick_interval: 100,
                hyparview_shuffle_interval: 300_000,
                hyparview_sync_active_view_interval: 60_000,
                hyparview_fill_active_view_interval: 30_000,
            }),
    {
        Parameters {
            tick_interval: 100,
            hyparview_shuffle_interval: 300_000,
            hyparview_sync_active_view_interval: 60_000,
            hyparview_fill_active_view_interval: 30_000,
        }
    }
}

/// `rand::random::<u64>()`.
#[verifier::external_body]
fn random_u64() -> u64 {
    rand::random::<u64>()
}

/// An interval of `base` milliseconds with a jitter of `random` modulo a
/// tenth of `base` added.
pub open spec fn jittered(base: u64, random: u64) -> nat {
    (base + random % (base / 10)) as nat
}

/// `base` plus a jitter of `random` modulo a tenth of `base`, in milliseconds.
/// A base under 10 ms has no tenth to take a remainder by (the remainder
/// would divide by zero), hence the precondition.
pub fn gen_interval_with(base: u64, random: u64) -> (r: u64)
    requires
        base >= 10,
        base + base / 10 <= u64::MAX,
    ensures
        r == jittered(base, random),
        base <= r < base + base / 10,
{
    base + random % (base / 10)
}

/// `base` plus a random jitter below a tenth of `base`, in milliseconds.
pub fn gen_interval(base: u64) -> (r: u64)
    requires
        base >= 10,
        base + base / 10 <= u64::MAX,
    ensures
        base <= r < base + base / 10,
{
    gen_interval_with(base, random_u64())
}

/// Which periodic overlay tasks a tick starts.
#[derive(Debug, Clone, Copy, PartialEq, Eq, Structural)]
pub struct TickPlan {
    pub shuffle_passive_view: bool,
    pub sync_active_view: bool,
    pub fill_active_view: bool,
}

/// When the periodic overlay tasks are next due, in milliseconds of node time.
#[derive(Debug, Clone, Copy, PartialEq, Eq, Structural)]
pub struct TickSchedule {
    pub shuffle_at: u64,
    pub sync_at: u64,
    pub fill_at: u64,
}

/// The intervals are long enough to jitter, and short enough that a deadline
/// after `now` fits in 64 bits.
pub open spec fn schedule_fits(now: u64, p: Parameters) -> bool {
    &&& p.hyparview_shuffle_interval >= 10
    &&& p.hyparview_sync_active_view_interval >= 10
    &&& p.hyparview_fill_active_view_interval >= 10
    &&& now + 2 * p.hyparview_shuffle_interval <= u64::MAX
    &&& now + 2 * p.hyparview_sync_active_view_interval <= u64::MAX
    &&& now + 2 * p.hyparview_fill_active_view_interval <= u64::MAX
}

/// Whether the schedule fits at `now` (see [`schedule_fits`]).
pub fn fits_schedule(now: u64, p: Parameters) -> (r: bool)
    ensures
        r == schedule_fits(now, p),
{
    let intervals = [p.hyparview_shuffle_interval, p.hyparview_sync_active_view_interval, p.hyparview_fill_active_view_interval];
    let mut i: usize = 0;
    while i < 3
        invariant
            i <= 3,
            intervals@ == seq![p.hyparview_shuffle_interval, p.hyparview_sync_active_view_interval, p.hyparview_fill_active_view_interval],
            forall|j: int| 0 <= j < i ==> intervals@[j] >= 10 && now + 2 * intervals@[j] <= u64::MAX,
        decreases 3 - i,
    {
        let v = intervals[i];
        if v < 10 || v > (u64::MAX - now) / 2 {
            return false;
        }
        i = i + 1;
    }
    true
}

/// A deadline after a tick at `now`: a due task is next due one jittered
/// interval after `now`; a task not yet due keeps its deadline.
pub open spec fn next_deadline(at: u64, now: u64, interval: u64, random: u64) -> nat {
    if now >= at {
        (now + jittered(interval, random)) as nat
    } else {
        at as nat
    }
}

impl TickSchedule {
    /// The first deadlines of a node started at `now`, with jitters drawn from
    /// `randoms`.
    pub fn start_with(now: u64, p: Parameters, randoms: [u64; 3]) -> (s: TickSchedule)
        requires
            schedule_fits(now, p),
        ensures
            s.shuffle_at == now + jittered(p.hyparview_shuffle_interval, randoms[0]),
            s.sync_at == now + jittered(p.hyparview_sync_active_view_interval, randoms[1]),
            s.fill_at == now + jittered(p.hyparview_fill_active_view_interval, randoms[2]),
    {
        TickSchedule {
            shuffle_at: now + gen_interval_with(p.hyparview_shuffle_interval, randoms[0]),
            sync_at: now + gen_interval_with(p.hyparview_sync_active_view_interval, randoms[1]),
            fill_at: now + gen_interval_with(p.hyparview_fill_active_view_interval, randoms[2]),
        }
    }

    /// The first deadlines of a node started at `now`, with random jitters.
    pub fn start(now: u64, p: Parameters) -> (s: TickSchedule)
        requires
            schedule_fits(now, p),
        ensures
            now + p.hyparview_shuffle_interval <= s.shuffle_at < now + p.hyparview_shuffle_interval + p.hyparview_shuffle_interval / 10,
            now + p.hyparview_sync_active_view_interval <= s.sync_at < now + p.hyparview_sync_active_view_interval
                + p.hyparview_sync_active_view_interval / 10,
            now + p.hyparview_fill_active_view_interval <= s.fill_at < now + p.hyparview_fill_active_view_interval
                + p.hyparview_fill_active_view_interval / 10,
    {
        TickSchedule::start_with(now, p, [random_u64(), random_u64(), random_u64()])
    }

    /// At a tick at `now`, starts every task that is due and moves its
    /// deadline one jittered interval past `now` (jitters drawn from `randoms`).
    pub fn on_tick_with(&mut self, now: u64, p: Parameters, randoms: [u64; 3]) -> (plan: TickPlan)
        requires
            schedule_fits(now, p),
        ensures
            plan.shuffle_passive_view == (now >= old(self).shuffle_at),
            plan.sync_active_view == (now >= old(self).sync_at),
            plan.fill_active_view == (now >= old(self).fill_at),
            final(self).shuffle_at == next_deadline(old(self).shuffle_at, now, p.hyparview_shuffle_interval, randoms[0]),
            final(self).sync_at == next_deadline(old(self).sync_at, now, p.hyparview_sync_active_view_interval, randoms[1]),
            final(self).fill_at == next_deadline(old(self).fill_at, now, p.hyparview_fill_active_view_interval, randoms[2]),
    {
        let shuffle = now >= self.shuffle_at;
        if shuffle {
            self.shuffle_at = now + gen_interval_with(p.hyparview_shuffle_interval, randoms[0]);
        }
        let sync = now >= self.sync_at;
        if sync {
            self.sync_at = now + gen_interval_with(p.hyparview_sync_active_view_interval, randoms[1]);
        }
        let fill = now >= self.fill_at;
        if fill {
            self.fill_at = now + gen_interval_with(p.hyparview_fill_active_view_interval, randoms[2]);
        }
        TickPlan { shuffle_passive_view: shuffle, sync_active_view: sync, fill_active_view: fill }
    }

    /// At a tick at `now`, starts every task that is due and moves its
    /// deadline a random jittered interval past `now`.
    pub fn on_tick(&mut self, now: u64, p: Parameters) -> (plan: TickPlan)
        requires
            schedule_fits(now, p),
        ensures
            plan.shuffle_passive_view == (now >= old(self).shuffle_at),
            plan.sync_active_view == (now >= old(self).sync_at),
            plan.fill_active_view == (now >= old(self).fill_at),
            now < old(self).shuffle_at ==> final(self).shuffle_at == old(self).shuffle_at,
            now < old(self).sync_at ==> final(self).sync_at == old(self).sync_at,
            now < old(self).fill_at ==> final(self).fill_at == old(self).fill_at,
            now >= old(self).shuffle_at ==> now + p.hyparview_shuffle_interval <= final(self).shuffle_at < now
                + p.hyparview_shuffle_interval + p.hyparview_shuffle_interval / 10,
            now >= old(self).sync_at ==> now + p.hyparview_sync_active_view_interval <= final(self).sync_at < now
                + p.hyparview_sync_active_view_interval + p.hyparview_sync_active_view_interval / 10,
            now >= old(self).fill_at ==> now + p.hyparview_fill_active_view_interval <= final(self).fill_at < now
                + p.hyparview_fill_active_view_interval + p.hyparview_fill_active_view_interval / 10,
    {
        let randoms = [random_u64(), random_u64(), random_u64()];
        self.on_tick_with(now, p, randoms)
    }
}

/// After a tick, no task is due again before the next tick: every deadline
/// lies after `now`.
pub proof fn law_tick_leaves_nothing_due(s: TickSchedule, now: u64, p: Parameters, r: [u64; 3])
    requires
        schedule_fits(now, p),
    ensures
        next_deadline(s.shuffle_at, now, p.hyparview_shuffle_interval, r[0]) > now,
        next_deadline(s.sync_at, now, p.hyparview_sync_active_view_interval, r[1]) > now,
        next_deadline(s.fill_at, now, p.hyparview_fill_active_view_interval, r[2]) > now,
{
}

/// What the membership protocol asks the node to do.
#[derive(Debug, Clone, Copy)]
pub enum HyparviewAction {
    /// Send a membership message to `destination`.
    Send { destination: NodeId },
    /// `node` joined the active view.
    NeighborUp { node: NodeId },
    /// `node` left the active view.
    NeighborDown { node: NodeId },
    /// Drop the connection to `node`.
    Disconnect { node: NodeId },
}

/// What the node does in reaction.
#[derive(Debug, Clone, Copy)]
pub enum NodeEffect {
    /// Send the membership message to the destination (in the background;
    /// a failed send reports the destination as disconnected).
    SendHyparview { destination: NodeId },
    /// Tell the broadcast tree about a new neighbour.
    PlumtreeNeighborUp { node: NodeId },
    /// Tell the broadcast tree that a neighbour left.
    PlumtreeNeighborDown { node: NodeId },
    /// Remove `node` from the membership views (not alive).
    HyparviewDisconnect { node: NodeId, alive: bool },
    /// Forget the connection to the peer.
    RemoveRemoteNode { local_id: LocalNodeId },
    /// Tell the local node that `sender` is disconnected (not alive).
    NotifyDisconnect { sender: NodeId, alive: bool },
    /// Send `sender`'s disconnect message (not alive) to `destination`.
    SendDisconnect { destination: NodeId, sender: NodeId, alive: bool },
    /// Send the broadcast-tree message to the destination (in the background;
    /// a failed send reports the destination as disconnected).
    SendPlumtree { destination: NodeId },
    /// Keep the connection on which a peer was learned, under the peer's id.
    StoreConnection { local_id: LocalNodeId },
}

/// The effects of a membership action.
pub open spec fn hyparview_effects(action: HyparviewAction) -> Seq<NodeEffect> {
    match action {
        HyparviewAction::Send { destination } => seq![NodeEffect::SendHyparview { destination }],
        HyparviewAction::NeighborUp { node } => seq![NodeEffect::PlumtreeNeighborUp { node }],
        HyparviewAction::NeighborDown { node } => seq![NodeEffect::PlumtreeNeighborDown { node }],
        HyparviewAction::Disconnect { node } => seq![
            NodeEffect::HyparviewDisconnect { node, alive: false },
            NodeEffect::RemoveRemoteNode { local_id: node.spec_local_id() },
        ],
    }
}

/// The effects of a membership action, in order.
pub fn handle_hyparview_action(action: HyparviewAction) -> (effects: Vec<NodeEffect>)
    ensures
        effects@ == hyparview_effects(action),
{
    let mut effects: Vec<NodeEffect> = Vec::new();
    match action {
        HyparviewAction::Send { destination } => effects.push(NodeEffect::SendHyparview { destination }),
        HyparviewAction::NeighborUp { node } => effects.push(NodeEffect::PlumtreeNeighborUp { node }),
        HyparviewAction::NeighborDown { node } => effects.push(NodeEffect::PlumtreeNeighborDown { node }),
        HyparviewAction::Disconnect { node } => {
            effects.push(NodeEffect::HyparviewDisconnect { node, alive: false });
            effects.push(NodeEffect::RemoveRemoteNode { local_id: *node.local_id() });
        },
    }
    assert(effects@ =~= hyparview_effects(action));
    effects
}

/// What telling the local node that `destination` is unreachable does: the
/// node receives `destination`'s disconnect (not alive), and the connection
/// to it is forgotten.
pub open spec fn disconnect_effects(destination: NodeId) -> Seq<NodeEffect> {
    seq![
        NodeEffect::NotifyDisconnect { sender: destination, alive: false },
        NodeEffect::RemoveRemoteNode { local_id: destination.spec_local_id() },
    ]
}

/// The effects of learning that `destination` is unreachable.
pub fn notify_self_disconnect(destination: &NodeId) -> (effects: Vec<NodeEffect>)
    ensures
        effects@ == disconnect_effects(*destination),
{
    let mut effects: Vec<NodeEffect> = Vec::new();
    effects.push(NodeEffect::NotifyDisconnect { sender: *destination, alive: false });
    effects.push(NodeEffect::RemoveRemoteNode { local_id: *destination.local_id() });
    assert(effects@ =~= disconnect_effects(*destination));
    effects
}

/// The effects of leaving the cluster: for each peer of the active view, in
/// order, the peer is reported disconnected and its connection forgotten (as
/// [`notify_self_disconnect`] does), and then it is sent this node's
/// disconnect message.
pub open spec fn leave_effects(me: NodeId, active_view: Seq<NodeId>) -> Seq<NodeEffect> {
    Seq::new(
        3 * active_view.len(),
        |i: int|
            if i % 3 == 0 {
                NodeEffect::NotifyDisconnect { sender: active_view[i / 3], alive: false }
            } else if i % 3 == 1 {
                NodeEffect::RemoveRemoteNode { local_id: active_view[i / 3].spec_local_id() }
            } else {
                NodeEffect::SendDisconnect { destination: active_view[i / 3], sender: me, alive: false }
            },
    )
}

/// The effects of leaving the cluster, given this node's id and its active view.
pub fn leave(me: NodeId, active_view: &Vec<NodeId>) -> (effects: Vec<NodeEffect>)
    ensures
        effects@ == leave_effects(me, active_view@),
{
    let mut effects: Vec<NodeEffect> = Vec::new();
    let mut i: usize = 0;
    while i < active_view.len()
        invariant
            i <= active_view@.len(),
            effects@ == leave_effects(me, active_view@.take(i as int)),
        decreases active_view@.len() - i,
    {
        let peer = active_view[i];
        let mut notify = notify_self_disconnect(&peer);
        effects.append(&mut notify);
        effects.push(NodeEffect::SendDisconnect { destination: peer, sender: me, alive: false });
        assert(effects@ =~= leave_effects(me, active_view@.take(i + 1)));
        i = i + 1;
    }
    assert(active_view@.take(active_view@.len() as int) =~= active_view@);
    effects
}

/// Leaving with the peers `a` and then the peers `b` in the active view does
/// what leaving with `a` does and then what leaving with `b` does: the
/// effects for one peer do not depend on the peers around it.
pub proof fn law_leave_concat(me: NodeId, a: Seq<NodeId>, b: Seq<NodeId>)
    ensures
        leave_effects(me, a + b) == leave_effects(me, a) + leave_effects(me, b),
{
    let l = leave_effects(me, a + b);
    let r = leave_effects(me, a) + leave_effects(me, b);
    assert forall|i: int| 0 <= i < l.len() implies #[trigger] l[i] == r[i] by {
        if i >= 3 * a.len() {
            let j = i - 3 * a.len();
            assert(j / 3 == i / 3 - a.len() && j % 3 == i % 3) by (nonlinear_arith)
                requires
                    j == i - 3 * a.len(),
                    j >= 0,
            ;
            assert((a + b)[i / 3] == b[j / 3]);
        } else {
            assert(i / 3 < a.len()) by (nonlinear_arith)
                requires
                    0 <= i < 3 * a.len(),
            ;
            assert((a + b)[i / 3] == a[i / 3]);
        }
    }
    assert(l =~= r);
}

/// Leaving with one peer in the active view reports that peer disconnected
/// and forgets its connection, as [`notify_self_disconnect`] does for it, and
/// then sends it this node's disconnect message.
pub proof fn law_leave_one_peer(me: NodeId, p: NodeId)
    ensures
        leave_effects(me, seq![p]) == disconnect_effects(p) + seq![
            NodeEffect::SendDisconnect { destination: p, sender: me, alive: false },
        ],
{
    assert(leave_effects(me, seq![p]) =~= disconnect_effects(p) + seq![
        NodeEffect::SendDisconnect { destination: p, sender: me, alive: false },
    ]);
}

/// Every peer of the active view, at position `k`, has its own three effects
/// at positions `3k` to `3k + 2`: it is reported disconnected, its connection
/// is forgotten, and it is sent the disconnect message; nothing else is done.
pub proof fn law_leave_every_peer(me: NodeId, view: Seq<NodeId>, k: int)
    requires
        0 <= k < view.len(),
    ensures
        leave_effects(me, view).len() == 3 * view.len(),
        leave_effects(me, view)[3 * k] == (NodeEffect::NotifyDisconnect { sender: view[k], alive: false }),
        leave_effects(me, view)[3 * k + 1] == (NodeEffect::RemoveRemoteNode { local_id: view[k].spec_local_id() }),
        leave_effects(me, view)[3 * k + 2] == (NodeEffect::SendDisconnect { destination: view[k], sender: me, alive: false }),
{
    assert((3 * k) / 3 == k && (3 * k) % 3 == 0) by (nonlinear_arith);
    assert((3 * k + 1) / 3 == k && (3 * k + 1) % 3 == 1) by (nonlinear_arith);
    assert((3 * k + 2) / 3 == k && (3 * k + 2) % 3 == 2) by (nonlinear_arith);
}

/// The kinds of protocol messages that reach the node.
#[derive(Debug, Clone, Copy, PartialEq, Eq, Structural)]
pub enum ProtocolKind {
    Hyparview,
    Plumtree,
}

/// Whether the node stops draining its inbox after handling a message of this
/// kind: it does after a membership message, so that the membership actions
/// it causes run first.
pub fn interrupts_receive(kind: ProtocolKind) -> (r: bool)
    ensures
        r == (kind == ProtocolKind::Hyparview),
{
    match kind {
        ProtocolKind::Hyparview => true,
        ProtocolKind::Plumtree => false,
    }
}

/// What the broadcast tree asks the node to do.
#[derive(Debug, Clone, Copy)]
pub enum PlumtreeAction {
    /// Send a broadcast-tree message to `destination`.
    Send { destination: NodeId },
    /// Hand a message to the application.
    Deliver,
}

/// The effects of a broadcast-tree action: a send is passed on; a delivery
/// has none (the message goes to the application).
pub open spec fn plumtree_effects(action: PlumtreeAction) -> Seq<NodeEffect> {
    match action {
        PlumtreeAction::Send { destination } => seq![NodeEffect::SendPlumtree { destination }],
        PlumtreeAction::Deliver => Seq::empty(),
    }
}

/// The effects of a broadcast-tree action, and whether it delivers a message.
pub fn handle_plumtree_action(action: PlumtreeAction) -> (r: (Vec<NodeEffect>, bool))
    ensures
        r.0@ == plumtree_effects(action),
        r.1 == (action is Deliver),
{
    let mut effects: Vec<NodeEffect> = Vec::new();
    match action {
        PlumtreeAction::Send { destination } => {
            effects.push(NodeEffect::SendPlumtree { destination });
            assert(effects@ =~= plumtree_effects(action));
            (effects, false)
        },
        PlumtreeAction::Deliver => {
            assert(effects@ =~= plumtree_effects(action));
            (effects, true)
        },
    }
}

/// What the node's event loop does next.
#[derive(Debug, Clone, Copy, PartialEq, Eq, Structural)]
pub enum PollCmd {
    /// Take (and handle) the next action of the membership protocol.
    NextHyparviewAction,
    /// Take (and handle) the next action of the broadcast tree.
    NextPlumtreeAction,
    /// Take (and handle) the next message of the inbox.
    NextInboxMessage,
    /// Hand the message just delivered to the application.
    Deliver,
    /// Nothing is left to do until the loop is woken again.
    Pending,
}

/// What the event loop found when it did what it was told.
#[derive(Debug, Clone, Copy, PartialEq, Eq, Structural)]
pub enum PollEvent {
    /// The membership protocol had an action, or none.
    HyparviewAction(bool),
    /// The broadcast tree had no action (`None`), or an action that
    /// delivers a message (`Some(true)`) or not (`Some(false)`).
    PlumtreeAction(Option<bool>),
    /// The inbox was empty (`None`), or held a message of this kind.
    InboxMessage(Option<ProtocolKind>),
}

/// Which queue the event loop is draining.
#[derive(Debug, Clone, Copy, PartialEq, Eq, Structural)]
pub enum PollPhase {
    Hyparview,
    Plumtree,
    Inbox,
    Done,
}

/// The next phase and command of the event loop after `event`, from `phase`
/// with `busy` telling whether the current round did anything. A round drains
/// the membership actions, then the broadcast actions (stopping at a
/// delivery), then the inbox (stopping after a membership message, whose
/// actions run first); rounds repeat while they do something. An event that
/// does not answer the current phase changes nothing.
pub open spec fn poll_step(phase: PollPhase, busy: bool, event: PollEvent) -> (PollPhase, bool, PollCmd) {
    let next_round = if busy {
        (PollPhase::Hyparview, false, PollCmd::NextHyparviewAction)
    } else {
        (PollPhase::Done, false, PollCmd::Pending)
    };
    match (phase, event) {
        (PollPhase::Hyparview, PollEvent::HyparviewAction(true)) => (PollPhase::Hyparview, true, PollCmd::NextHyparviewAction),
        (PollPhase::Hyparview, PollEvent::HyparviewAction(false)) => (PollPhase::Plumtree, busy, PollCmd::NextPlumtreeAction),
        (PollPhase::Plumtree, PollEvent::PlumtreeAction(None)) => (PollPhase::Inbox, busy, PollCmd::NextInboxMessage),
        (PollPhase::Plumtree, PollEvent::PlumtreeAction(Some(true))) => (PollPhase::Done, busy, PollCmd::Deliver),
        (PollPhase::Plumtree, PollEvent::PlumtreeAction(Some(false))) => (PollPhase::Plumtree, true, PollCmd::NextPlumtreeAction),
        (PollPhase::Inbox, PollEvent::InboxMessage(Some(ProtocolKind::Hyparview))) => (
            PollPhase::Hyparview,
            false,
            PollCmd::NextHyparviewAction,
        ),
        (PollPhase::Inbox, PollEvent::InboxMessage(Some(ProtocolKind::Plumtree))) => (PollPhase::Inbox, true, PollCmd::NextInboxMessage),
        (PollPhase::Inbox, PollEvent::InboxMessage(None)) => next_round,
        _ => (phase, busy, phase_cmd(phase)),
    }
}

/// The command that a phase waits on.
pub open spec fn phase_cmd(phase: PollPhase) -> PollCmd {
    match phase {
        PollPhase::Hyparview => PollCmd::NextHyparviewAction,
        PollPhase::Plumtree => PollCmd::NextPlumtreeAction,
        PollPhase::Inbox => PollCmd::NextInboxMessage,
        PollPhase::Done => PollCmd::Pending,
    }
}

/// One pass of the node's event loop, driven by what the loop finds.
#[derive(Debug, Clone, Copy)]
pub struct PollRound {
    phase: PollPhase,
    busy: bool,
}

impl PollRound {
    pub closed spec fn phase(&self) -> PollPhase {
        self.phase
    }

    /// Whether the current round did anything.
    pub closed spec fn busy(&self) -> bool {
        self.busy
    }

    /// A pass starts with a round that has done nothing yet, by draining the
    /// membership actions.
    pub fn start() -> (r: (PollRound, PollCmd))
        ensures
            r.0.phase() == PollPhase::Hyparview,
            !r.0.busy(),
            r.1 == PollCmd::NextHyparviewAction,
    {
        (PollRound { phase: PollPhase::Hyparview, busy: false }, PollCmd::NextHyparviewAction)
    }

    /// Takes what the loop found and says what it does next (see [`poll_step`]).
    pub fn on_event(&mut self, event: PollEvent) -> (cmd: PollCmd)
        ensures
            (final(self).phase(), final(self).busy(), cmd) == poll_step(old(self).phase(), old(self).busy(), event),
    {
        let phase = self.phase;
        let busy = self.busy;
        let (p, b, c) = match (phase, event) {
            (PollPhase::Hyparview, PollEvent::HyparviewAction(true)) => (PollPhase::Hyparview, true, PollCmd::NextHyparviewAction),
            (PollPhase::Hyparview, PollEvent::HyparviewAction(false)) => (PollPhase::Plumtree, busy, PollCmd::NextPlumtreeAction),
            (PollPhase::Plumtree, PollEvent::PlumtreeAction(None)) => (PollPhase::Inbox, busy, PollCmd::NextInboxMessage),
            (PollPhase::Plumtree, PollEvent::PlumtreeAction(Some(true))) => (PollPhase::Done, busy, PollCmd::Deliver),
            (PollPhase::Plumtree, PollEvent::PlumtreeAction(Some(false))) => (PollPhase::Plumtree, true, PollCmd::NextPlumtreeAction),
            (PollPhase::Inbox, PollEvent::InboxMessage(Some(kind))) => {
                if interrupts_receive(kind) {
                    (PollPhase::Hyparview, false, PollCmd::NextHyparviewAction)
                } else {
                    (PollPhase::Inbox, true, PollCmd::NextInboxMessage)
                }
            },
            (PollPhase::Inbox, PollEvent::InboxMessage(None)) => {
                if busy {
                    (PollPhase::Hyparview, false, PollCmd::NextHyparviewAction)
                } else {
                    (PollPhase::Done, false, PollCmd::Pending)
                }
            },
            _ => {
                let c = match phase {
                    PollPhase::Hyparview => PollCmd::NextHyparviewAction,
                    PollPhase::Plumtree => PollCmd::NextPlumtreeAction,
                    PollPhase::Inbox => PollCmd::NextInboxMessage,
                    PollPhase::Done => PollCmd::Pending,
                };
                (phase, busy, c)
            },
        };
        self.phase = p;
        self.busy = b;
        c
    }
}

/// The event loop waits (`Pending`) only at the end of a round that found
/// nothing to do, and once it has delivered a message or gone pending it
/// stays put whatever it is told.
pub proof fn law_poll_pending_only_when_idle(phase: PollPhase, busy: bool, event: PollEvent)
    ensures
        poll_step(phase, busy, event).2 == PollCmd::Pending ==> phase == PollPhase::Done || (phase == PollPhase::Inbox && !busy
            && event == PollEvent::InboxMessage(None)),
        phase == PollPhase::Done ==> poll_step(phase, busy, event) == (phase, busy, PollCmd::Pending),
{
}

/// The peer behind a connection, once a message has named it.
#[derive(Debug, Clone, Copy)]
pub struct ConnectionPeer {
    peer: Option<NodeId>,
}

impl ConnectionPeer {
    pub closed spec fn peer(&self) -> Option<NodeId> {
        self.peer
    }

    /// A connection whose peer is not known yet.
    pub fn new() -> (c: ConnectionPeer)
        ensures
            c.peer() is None,
    {
        ConnectionPeer { peer: None }
    }

    /// A message arrived on the connection, naming its `sender` (stream
    /// frames name none). The first sender named is the peer, and the
    /// connection is then kept under its id; later senders change nothing.
    pub fn on_message(&mut self, sender: Option<NodeId>) -> (effects: Vec<NodeEffect>)
        ensures
            old(self).peer() is None && sender is Some ==> final(self).peer() == sender && effects@ == seq![
                NodeEffect::StoreConnection { local_id: sender->0.spec_local_id() },
            ],
            !(old(self).peer() is None && sender is Some) ==> final(self).peer() == old(self).peer() && effects@
                == Seq::<NodeEffect>::empty(),
    {
        let mut effects: Vec<NodeEffect> = Vec::new();
        if self.peer.is_none() {
            if let Some(s) = sender {
                self.peer = Some(s);
                effects.push(NodeEffect::StoreConnection { local_id: *s.local_id() });
                assert(effects@ =~= seq![NodeEffect::StoreConnection { local_id: s.spec_local_id() }]);
                return effects;
            }
        }
        assert(effects@ =~= Seq::<NodeEffect>::empty());
        effects
    }

    /// The connection ended: a known peer is reported disconnected (see
    /// [`notify_self_disconnect`]); an unknown one needs nothing.
    pub fn on_closed(&self) -> (effects: Vec<NodeEffect>)
        ensures
            effects@ == (match self.peer() {
                Some(p) => disconnect_effects(p),
                None => Seq::<NodeEffect>::empty(),
            }),
    {
        match &self.peer {
            Some(p) => notify_self_disconnect(p),
            None => {
                let effects: Vec<NodeEffect> = Vec::new();
                assert(effects@ =~= Seq::<NodeEffect>::empty());
                effects
            },
        }
    }
}

} // verus!
