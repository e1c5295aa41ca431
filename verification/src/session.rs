//! The per-connection session lifecycle. A session owns exactly one
//! physical connection from upgrade to close: it subscribes to one room
//! or one identity channel, runs an outbound and an inbound pump, and on
//! either pump's end aborts the sibling and unsubscribes — exactly once,
//! on every exit path. Identity-mode sessions additionally announce the
//! user online when they become active and offline when they close.
//!
//! The lifecycle decisions are a pure state machine here; the caller runs
//! the pumps and feeds their termination back as events.

use vstd::prelude::*;

use crate::manager::ConnectionManager;
use crate::manager::subscribe_step;
use crate::manager::unsubscribe_step;
use crate::message::WSMessage;
use crate::message::agent_offline_message;
use crate::message::agent_online_message;

verus! {

/// The addressing mode a session is told on connect: one mission's room,
/// or one user's global notification channel.
#[derive(Clone, Copy, Debug, PartialEq, Eq, Structural)]
pub enum SessionMode {
    Room { mission_id: i32 },
    Global { user_id: i32 },
}

/// `Active` is the only state in which both pumps run; `Closing` begins
/// the instant either pump exits; `Closed` is reached once both have
/// stopped and the subscription is released. There is no reopen.
#[derive(Clone, Copy, Debug, PartialEq, Eq, Structural)]
pub enum SessionState {
    Connecting,
    Active,
    Closing,
    Closed,
}

/// What the session's driver reports: the socket upgrade completed, or
/// one of the two pumps stopped (for any reason — channel closed, remote
/// closed, read or write error). The second `PumpStopped` is the sibling
/// pump ending after the abort.
#[derive(Clone, Copy, Debug, PartialEq, Eq, Structural)]
pub enum SessionEvent {
    SocketOpened,
    PumpStopped,
}

/// The actions one lifecycle event demands. At most one of `subscribe`
/// and `unsubscribe` is set by any step.
#[derive(Clone, Copy, Debug, PartialEq, Eq, Structural)]
pub struct SessionEffects {
    /// Subscribe to the session's channel (room or identity).
    pub subscribe: bool,
    /// Announce `agent_online` to every identity channel.
    pub announce_online: bool,
    /// Abort the sibling pump: one pump has stopped first.
    pub abort_sibling: bool,
    /// Release the session's one channel subscription.
    pub unsubscribe: bool,
    /// Announce `agent_offline` to every identity channel.
    pub announce_offline: bool,
}

pub open spec fn no_effects() -> SessionEffects {
    SessionEffects {
        subscribe: false,
        announce_online: false,
        abort_sibling: false,
        unsubscribe: false,
        announce_offline: false,
    }
}

/// The lifecycle transition relation. Events that make no sense in the
/// current state (a pump report before the upgrade, anything after
/// `Closed`) are ignored rather than faulted: a session never moves
/// backwards.
pub open spec fn next_state(s: SessionState, ev: SessionEvent) -> SessionState {
    match (s, ev) {
        (SessionState::Connecting, SessionEvent::SocketOpened) => SessionState::Active,
        (SessionState::Active, SessionEvent::PumpStopped) => SessionState::Closing,
        (SessionState::Closing, SessionEvent::PumpStopped) => SessionState::Closed,
        _ => s,
    }
}

/// The actions demanded by one transition: subscribe (and, in identity
/// mode, announce online) when the session becomes active; abort the
/// sibling when the first pump stops; unsubscribe (and, in identity
/// mode, announce offline) when the second pump stops.
pub open spec fn step_effects(s: SessionState, mode: SessionMode, ev: SessionEvent) -> SessionEffects {
    match (s, ev) {
        (SessionState::Connecting, SessionEvent::SocketOpened) => SessionEffects {
            subscribe: true,
            announce_online: mode is Global,
            ..no_effects()
        },
        (SessionState::Active, SessionEvent::PumpStopped) => SessionEffects {
            abort_sibling: true,
            ..no_effects()
        },
        (SessionState::Closing, SessionEvent::PumpStopped) => SessionEffects {
            unsubscribe: true,
            announce_offline: mode is Global,
            ..no_effects()
        },
        _ => no_effects(),
    }
}

/// One session's lifecycle state. Only `step` and `process` move it, so
/// its history is exactly a run of `next_state`.
pub struct ConnectionSession {
    mode: SessionMode,
    state: SessionState,
}

impl ConnectionSession {
    pub closed spec fn mode(&self) -> SessionMode {
        self.mode
    }

    pub closed spec fn state(&self) -> SessionState {
        self.state
    }

    /// A new session for one accepted connection, not yet upgraded.
    pub fn new(mode: SessionMode) -> (r: Self)
        ensures
            r.mode() == mode,
            r.state() == SessionState::Connecting,
    {
        ConnectionSession { mode, state: SessionState::Connecting }
    }

    pub fn current_state(&self) -> (r: SessionState)
        ensures
            r == self.state(),
    {
        self.state
    }

    pub fn session_mode(&self) -> (r: SessionMode)
        ensures
            r == self.mode(),
    {
        self.mode
    }

    /// Feed one lifecycle event to the pure state machine and learn which
    /// actions it demands. The caller is responsible for carrying the
    /// actions out; `process` does both at once.
    pub fn step(&mut self, ev: SessionEvent) -> (r: SessionEffects)
        ensures
            final(self).mode() == old(self).mode(),
            final(self).state() == next_state(old(self).state(), ev),
            r == step_effects(old(self).state(), old(self).mode(), ev),
    {
        let is_global = match self.mode {
            SessionMode::Global { .. } => true,
            SessionMode::Room { .. } => false,
        };
        match (self.state, ev) {
            (SessionState::Connecting, SessionEvent::SocketOpened) => {
                self.state = SessionState::Active;
                SessionEffects {
                    subscribe: true,
                    announce_online: is_global,
                    abort_sibling: false,
                    unsubscribe: false,
                    announce_offline: false,
                }
            },
            (SessionState::Active, SessionEvent::PumpStopped) => {
                self.state = SessionState::Closing;
                SessionEffects {
                    subscribe: false,
                    announce_online: false,
                    abort_sibling: true,
                    unsubscribe: false,
                    announce_offline: false,
                }
            },
            (SessionState::Closing, SessionEvent::PumpStopped) => {
                self.state = SessionState::Closed;
                SessionEffects {
                    subscribe: false,
                    announce_online: false,
                    abort_sibling: false,
                    unsubscribe: true,
                    announce_offline: is_global,
                }
            },
            _ => SessionEffects {
                subscribe: false,
                announce_online: false,
                abort_sibling: false,
                unsubscribe: false,
                announce_offline: false,
            },
        }
    }
}

/// How one step's effects move one registry table, given the session's
/// key into it: a subscribing step grows it, an unsubscribing step
/// shrinks it, any other step leaves it alone.
pub open spec fn session_map_step(m: Map<int, nat>, eff: SessionEffects, key: int) -> Map<
    int,
    nat,
> {
    if eff.subscribe {
        subscribe_step(m, key)
    } else if eff.unsubscribe {
        unsubscribe_step(m, key)
    } else {
        m
    }
}

/// What feeding one event through `process` hands back: the fresh receive
/// half when the step subscribed, and whether the sibling pump must be
/// aborted.
pub struct SessionStepOutcome {
    pub receiver: Option<tokio::sync::broadcast::Receiver<WSMessage>>,
    pub abort_sibling: bool,
}

impl ConnectionSession {
    /// Feed one lifecycle event to the session and apply its effects to
    /// the registry: subscribe on activation (returning the receive
    /// half), unsubscribe on close, and in identity mode announce the
    /// presence change. Only the table the session is keyed into moves,
    /// and only by this step's effect.
    pub fn process(&mut self, ev: SessionEvent, manager: &mut ConnectionManager) -> (r:
        SessionStepOutcome)
        requires
            old(manager).inv(),
            old(self).state() is Connecting && ev is SocketOpened ==> match old(self).mode() {
                SessionMode::Room { mission_id } => old(manager).topic_channels().contains_key(
                    mission_id as int,
                ) ==> old(manager).topic_channels()[mission_id as int] < usize::MAX,
                SessionMode::Global { user_id } => old(manager).identity_channels().contains_key(
                    user_id as int,
                ) ==> old(manager).identity_channels()[user_id as int] < usize::MAX,
            },
        ensures
            final(manager).inv(),
            final(self).mode() == old(self).mode(),
            final(self).state() == next_state(old(self).state(), ev),
            r.abort_sibling == step_effects(old(self).state(), old(self).mode(), ev).abort_sibling,
            r.receiver is Some <==> step_effects(old(self).state(), old(self).mode(), ev).subscribe,
            final(manager).topic_channels() == (match old(self).mode() {
                SessionMode::Room { mission_id } => session_map_step(
                    old(manager).topic_channels(),
                    step_effects(old(self).state(), old(self).mode(), ev),
                    mission_id as int,
                ),
                SessionMode::Global { .. } => old(manager).topic_channels(),
            }),
            final(manager).identity_channels() == (match old(self).mode() {
                SessionMode::Room { .. } => old(manager).identity_channels(),
                SessionMode::Global { user_id } => session_map_step(
                    old(manager).identity_channels(),
                    step_effects(old(self).state(), old(self).mode(), ev),
                    user_id as int,
                ),
            }),
    {
        let effects = self.step(ev);
        let mut receiver: Option<tokio::sync::broadcast::Receiver<WSMessage>> = None;
        match self.mode {
            SessionMode::Room { mission_id } => {
                if effects.subscribe {
                    receiver = Some(manager.subscribe(mission_id));
                }
                if effects.unsubscribe {
                    manager.unsubscribe(mission_id);
                }
            },
            SessionMode::Global { user_id } => {
                if effects.subscribe {
                    receiver = Some(manager.subscribe_user(user_id));
                }
                if effects.announce_online {
                    manager.broadcast_all(agent_online_message(user_id));
                }
                if effects.unsubscribe {
                    manager.unsubscribe_user(user_id);
                }
                if effects.announce_offline {
                    manager.broadcast_all(agent_offline_message(user_id));
                }
            },
        }
        SessionStepOutcome { receiver, abort_sibling: effects.abort_sibling }
    }
}

/// What the inbound pump does with one frame: `ping` is the only
/// recognised client command (a keep-alive no-op, reserved as an
/// extension point); everything else is accepted and ignored.
#[derive(Clone, Copy, Debug, PartialEq, Eq, Structural)]
pub enum InboundDisposition {
    KeepAlive,
    Ignored,
}

/// Interpret one inbound frame, decoded by the caller (`None` stands for
/// a malformed frame). No frame — well-formed of unknown kind, or
/// malformed — ever faults the session: the inbound pump drops it and
/// carries on.
pub fn interpret_inbound(frame: Option<&WSMessage>) -> (r: InboundDisposition)
    ensures
        r is KeepAlive <==> (frame matches Some(m) && m.msg_type@ == "ping"@),
{
    match frame {
        Some(message) => {
            let ping: String = "ping".to_owned();
            if message.msg_type == ping {
                InboundDisposition::KeepAlive
            } else {
                InboundDisposition::Ignored
            }
        },
        None => InboundDisposition::Ignored,
    }
}

// ---------------------------------------------------------------------
// Laws of the lifecycle. A session's history is a run of `next_state`
// from `Connecting` (the contract of `step` and `process` pins every
// move), so whatever holds of every run holds of every session, however
// the physical connection ends.
// ---------------------------------------------------------------------

/// The state after feeding a whole event sequence to a session.
pub open spec fn run_state(init: SessionState, evs: Seq<SessionEvent>) -> SessionState
    decreases evs.len(),
{
    if evs.len() == 0 {
        init
    } else {
        next_state(run_state(init, evs.drop_last()), evs.last())
    }
}

pub open spec fn as_count(b: bool) -> nat {
    if b {
        1
    } else {
        0
    }
}

/// How many steps of the run demanded a subscription.
pub open spec fn run_subscribes(init: SessionState, mode: SessionMode, evs: Seq<SessionEvent>) -> nat
    decreases evs.len(),
{
    if evs.len() == 0 {
        0
    } else {
        run_subscribes(init, mode, evs.drop_last()) + as_count(
            step_effects(run_state(init, evs.drop_last()), mode, evs.last()).subscribe,
        )
    }
}

/// How many steps of the run released the subscription.
pub open spec fn run_unsubscribes(
    init: SessionState,
    mode: SessionMode,
    evs: Seq<SessionEvent>,
) -> nat
    decreases evs.len(),
{
    if evs.len() == 0 {
        0
    } else {
        run_unsubscribes(init, mode, evs.drop_last()) + as_count(
            step_effects(run_state(init, evs.drop_last()), mode, evs.last()).unsubscribe,
        )
    }
}

/// How many steps of the run announced `agent_online`.
pub open spec fn run_onlines(init: SessionState, mode: SessionMode, evs: Seq<SessionEvent>) -> nat
    decreases evs.len(),
{
    if evs.len() == 0 {
        0
    } else {
        run_onlines(init, mode, evs.drop_last()) + as_count(
            step_effects(run_state(init, evs.drop_last()), mode, evs.last()).announce_online,
        )
    }
}

/// How many steps of the run announced `agent_offline`.
pub open spec fn run_offlines(init: SessionState, mode: SessionMode, evs: Seq<SessionEvent>) -> nat
    decreases evs.len(),
{
    if evs.len() == 0 {
        0
    } else {
        run_offlines(init, mode, evs.drop_last()) + as_count(
            step_effects(run_state(init, evs.drop_last()), mode, evs.last()).announce_offline,
        )
    }
}

/// The lifecycle only moves forward: `Connecting`, `Active`, `Closing`,
/// `Closed`, in that order.
pub open spec fn rank(s: SessionState) -> nat {
    match s {
        SessionState::Connecting => 0,
        SessionState::Active => 1,
        SessionState::Closing => 2,
        SessionState::Closed => 3,
    }
}

/// Every count of a run, characterised by where the run starts and ends:
/// a run subscribes exactly when it leaves `Connecting`, unsubscribes
/// exactly when it reaches `Closed`, and announces presence exactly at
/// those two moments when the mode is identity-addressed.
proof fn lemma_run_counts(init: SessionState, mode: SessionMode, evs: Seq<SessionEvent>)
    ensures
        rank(init) <= rank(run_state(init, evs)),
        run_subscribes(init, mode, evs) == as_count(
            init is Connecting && !(run_state(init, evs) is Connecting),
        ),
        run_unsubscribes(init, mode, evs) == as_count(
            !(init is Closed) && run_state(init, evs) is Closed,
        ),
        run_onlines(init, mode, evs) == as_count(
            mode is Global && init is Connecting && !(run_state(init, evs) is Connecting),
        ),
        run_offlines(init, mode, evs) == as_count(
            mode is Global && !(init is Closed) && run_state(init, evs) is Closed,
        ),
    decreases evs.len(),
{
    if evs.len() > 0 {
        lemma_run_counts(init, mode, evs.drop_last());
    }
}

/// Law (teardown guarantee): for every session, regardless of which pump
/// stopped first or why, a full run from `Connecting` releases the
/// subscription at most once; it releases it exactly once just when the
/// session reaches `Closed`, and then it also subscribed exactly once —
/// no exit path leaks the channel subscription and none releases it
/// twice.
pub proof fn lemma_session_teardown(mode: SessionMode, evs: Seq<SessionEvent>)
    ensures
        run_subscribes(SessionState::Connecting, mode, evs) <= 1,
        run_unsubscribes(SessionState::Connecting, mode, evs) <= 1,
        run_unsubscribes(SessionState::Connecting, mode, evs) <= run_subscribes(
            SessionState::Connecting,
            mode,
            evs,
        ),
        run_state(SessionState::Connecting, evs) is Closed <==> run_unsubscribes(
            SessionState::Connecting,
            mode,
            evs,
        ) == 1,
        run_state(SessionState::Connecting, evs) is Closed ==> run_subscribes(
            SessionState::Connecting,
            mode,
            evs,
        ) == 1,
{
    lemma_run_counts(SessionState::Connecting, mode, evs);
}

/// Law (presence symmetry): an identity-mode session announces
/// `agent_online` at most once — exactly when it becomes active — and
/// `agent_offline` never before that and exactly once when it reaches
/// `Closed`: every offline announcement corresponds to exactly one prior
/// online announcement from the same session.
pub proof fn lemma_presence_symmetry(user_id: i32, evs: Seq<SessionEvent>)
    ensures
        run_onlines(SessionState::Connecting, SessionMode::Global { user_id }, evs) <= 1,
        run_offlines(SessionState::Connecting, SessionMode::Global { user_id }, evs)
            <= run_onlines(SessionState::Connecting, SessionMode::Global { user_id }, evs),
        run_state(SessionState::Connecting, evs) is Closed ==> run_onlines(
            SessionState::Connecting,
            SessionMode::Global { user_id },
            evs,
        ) == 1 && run_offlines(SessionState::Connecting, SessionMode::Global { user_id }, evs)
            == 1,
{
    lemma_run_counts(SessionState::Connecting, SessionMode::Global { user_id }, evs);
}

/// Law (rooms are presence-silent): a room-mode session never announces
/// presence, whatever its run.
pub proof fn lemma_room_presence_silent(mission_id: i32, evs: Seq<SessionEvent>)
    ensures
        run_onlines(SessionState::Connecting, SessionMode::Room { mission_id }, evs) == 0,
        run_offlines(SessionState::Connecting, SessionMode::Room { mission_id }, evs) == 0,
{
    lemma_run_counts(SessionState::Connecting, SessionMode::Room { mission_id }, evs);
}

} // verus!
