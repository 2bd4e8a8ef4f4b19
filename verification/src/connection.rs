//! The connection manager: when to connect, when to wait, when to tick, and
//! what to hand on after each tick.
//!
//! The manager decides; the caller acts. Each [`ConnectionManager::step`]
//! takes what just happened and returns what to do next. The caller performs
//! that action and reports its outcome as the next event.

use crate::event::{event_views, EventView, VelorenEvent};
use crate::normalize::{
    normalize_all, normalized_all, roster_activity, roster_activity_views, RawEvent,
};
use crate::roster::Roster;
use crate::text::str_equals;
use crate::time::Timestamp;
use vstd::prelude::*;

verus! {

/// Delay after the first failed connection attempt, in milliseconds, where
/// nothing else is configured.
pub const CONNECT_BASE_DELAY_MILLIS: u64 = 500;

/// Delay after the first failed tick, in milliseconds, where nothing else is
/// configured.
pub const RECONNECT_BASE_DELAY_MILLIS: u64 = 10_000;

/// Time between two ticks of a healthy session, in milliseconds.
pub const TICK_INTERVAL_MILLIS: u64 = 100;

/// Where the manager stands with the upstream session.
#[derive(Debug, Clone, Copy, PartialEq, Eq, Structural)]
pub enum ConnState {
    Disconnected,
    Connecting,
    Connected,
    Reconnecting,
}

/// How long to wait after a failure. The n-th failure in a row waits n
/// times the base delay, but never longer than the cap, where there is one.
#[derive(Debug, Clone, Copy, PartialEq, Eq, Structural)]
pub struct RetryPolicy {
    /// Base delay after a failed connection attempt, in milliseconds.
    pub connect_base_millis: u64,
    /// Base delay after a failed tick, in milliseconds.
    pub reconnect_base_millis: u64,
    /// The longest delay ever asked for, in milliseconds; `None` for no cap.
    pub max_delay_millis: Option<u64>,
}

/// The connection manager's memory.
#[derive(Debug, Clone, Copy, PartialEq, Eq, Structural)]
pub struct ConnectionManager {
    pub policy: RetryPolicy,
    pub state: ConnState,
    /// While connecting: a failed attempt's delay is still running.
    pub waiting: bool,
    /// Failed connection attempts since the last successful one.
    pub connect_retries: u32,
    /// Failed ticks since the last successful one.
    pub tick_retries: u32,
    /// The snapshot of already-present players has been handed on.
    pub seeded: bool,
    /// Shut down for good.
    pub terminated: bool,
}

/// What the caller reports.
#[derive(Debug, Clone, PartialEq, Eq)]
pub enum ConnEvent {
    /// The relay starts.
    Start,
    /// The connection attempt produced a session.
    ConnectSucceeded,
    /// The connection attempt failed.
    ConnectFailed,
    /// The delay asked for by the last `Wait` is over.
    DelayElapsed,
    /// The tick went through. `roster` is the session's roster after it,
    /// `events` what the session produced, `now` the time of the tick.
    TickSucceeded { roster: Roster, events: Vec<RawEvent>, now: Timestamp },
    /// The session reported an error on tick.
    TickFailed,
    /// The shutdown signal was seen. `roster` holds whoever the session
    /// still lists; it is empty where there is no session.
    Shutdown { roster: Roster, now: Timestamp },
}

/// What the caller is to do next.
#[derive(Debug, Clone, PartialEq, Eq)]
pub enum ConnAction {
    /// Try to establish the session; report `ConnectSucceeded` or
    /// `ConnectFailed`.
    Connect,
    /// Sleep this long; report `DelayElapsed`.
    Wait { millis: u64 },
    /// Look for the shutdown signal, then tick the session; report
    /// `Shutdown`, `TickSucceeded` or `TickFailed`.
    Tick,
    /// Queue these events for the writer, in order, then go on as for `Tick`
    /// once the tick interval has passed.
    Forward { events: Vec<VelorenEvent> },
    /// Queue these events for the writer, in order, then stop.
    Stop { events: Vec<VelorenEvent> },
    /// The event does not apply in this state. Nothing changed.
    Idle,
}

/// The mathematical content of a [`ConnAction`].
pub enum ConnActionView {
    Connect,
    Wait { millis: u64 },
    Tick,
    Forward { events: Seq<EventView> },
    Stop { events: Seq<EventView> },
    Idle,
}

impl View for ConnAction {
    type V = ConnActionView;

    open spec fn view(&self) -> ConnActionView {
        match *self {
            ConnAction::Connect => ConnActionView::Connect,
            ConnAction::Wait { millis } => ConnActionView::Wait { millis },
            ConnAction::Tick => ConnActionView::Tick,
            ConnAction::Forward { events } => ConnActionView::Forward {
                events: event_views(events@),
            },
            ConnAction::Stop { events } => ConnActionView::Stop { events: event_views(events@) },
            ConnAction::Idle => ConnActionView::Idle,
        }
    }
}

/// A retry counter after one more failure. It stops at the largest value the
/// counter can hold.
pub open spec fn bumped(retries: u32) -> u32 {
    if retries < u32::MAX {
        (retries + 1) as u32
    } else {
        retries
    }
}

impl RetryPolicy {
    /// The longest delay this policy ever asks for.
    pub open spec fn ceiling(self) -> u64 {
        match self.max_delay_millis {
            Some(cap) => cap,
            None => u64::MAX,
        }
    }

    /// The delay before the retry that follows the `retries`-th failure in a
    /// row: `retries` times `base`, or the ceiling where that is less.
    pub open spec fn delay(self, base: u64, retries: u32) -> u64 {
        if base * retries <= self.ceiling() {
            (base * retries) as u64
        } else {
            self.ceiling()
        }
    }

    /// The delay after the `retries`-th failed connection attempt in a row.
    pub open spec fn connect_delay(self, retries: u32) -> u64 {
        self.delay(self.connect_base_millis, retries)
    }

    /// The delay after the `retries`-th failed tick in a row.
    pub open spec fn reconnect_delay(self, retries: u32) -> u64 {
        self.delay(self.reconnect_base_millis, retries)
    }

    /// Half a second per failed connection attempt, ten seconds per failed
    /// tick, no cap.
    pub open spec fn spec_standard() -> RetryPolicy {
        RetryPolicy {
            connect_base_millis: CONNECT_BASE_DELAY_MILLIS,
            reconnect_base_millis: RECONNECT_BASE_DELAY_MILLIS,
            max_delay_millis: None,
        }
    }

    /// Half a second per failed connection attempt, ten seconds per failed
    /// tick, no cap.
    pub fn standard() -> (policy: RetryPolicy)
        ensures
            policy == RetryPolicy::spec_standard(),
    {
        RetryPolicy {
            connect_base_millis: CONNECT_BASE_DELAY_MILLIS,
            reconnect_base_millis: RECONNECT_BASE_DELAY_MILLIS,
            max_delay_millis: None,
        }
    }

    fn backoff(&self, base: u64, retries: u32) -> (millis: u64)
        ensures
            millis == self.delay(base, retries),
    {
        let ceiling = match self.max_delay_millis {
            Some(cap) => cap,
            None => u64::MAX,
        };
        match base.checked_mul(retries as u64) {
            Some(millis) => if millis <= ceiling {
                millis
            } else {
                ceiling
            },
            None => ceiling,
        }
    }
}

impl ConnectionManager {
    /// What always holds of a manager that `new` made and `step` moved.
    pub open spec fn wf(self) -> bool {
        &&& self.terminated ==> self.state == ConnState::Disconnected
        &&& self.waiting ==> self.state == ConnState::Connecting
    }

    /// The manager before anything has happened.
    pub open spec fn initial(policy: RetryPolicy) -> ConnectionManager {
        ConnectionManager {
            policy,
            state: ConnState::Disconnected,
            waiting: false,
            connect_retries: 0,
            tick_retries: 0,
            seeded: false,
            terminated: false,
        }
    }

    /// What a successful tick hands on: the first time the roster has anyone
    /// in it, one online activity per participant; then the tick's own events.
    pub open spec fn tick_output(
        self,
        roster: Roster,
        events: Seq<RawEvent>,
        now: Timestamp,
    ) -> Seq<EventView> {
        if !self.seeded && roster@.len() > 0 {
            roster_activity_views(roster, now, true) + normalized_all(roster, events, now)
        } else {
            normalized_all(roster, events, now)
        }
    }

    /// The transition function: the manager after `event`, and the action it
    /// asks for.
    pub open spec fn next(self, event: ConnEvent) -> (ConnectionManager, ConnActionView) {
        if self.terminated {
            (self, ConnActionView::Idle)
        } else {
            match event {
                ConnEvent::Shutdown { roster, now } => (
                    ConnectionManager {
                        state: ConnState::Disconnected,
                        waiting: false,
                        terminated: true,
                        ..self
                    },
                    ConnActionView::Stop { events: roster_activity_views(roster, now, false) },
                ),
                ConnEvent::Start => if self.state == ConnState::Disconnected {
                    (
                        ConnectionManager {
                            state: ConnState::Connecting,
                            waiting: false,
                            connect_retries: 0,
                            ..self
                        },
                        ConnActionView::Connect,
                    )
                } else {
                    (self, ConnActionView::Idle)
                },
                ConnEvent::ConnectSucceeded => if self.state == ConnState::Connecting
                    && !self.waiting {
                    (
                        ConnectionManager {
                            state: ConnState::Connected,
                            connect_retries: 0,
                            ..self
                        },
                        ConnActionView::Tick,
                    )
                } else {
                    (self, ConnActionView::Idle)
                },
                ConnEvent::ConnectFailed => if self.state == ConnState::Connecting
                    && !self.waiting {
                    (
                        ConnectionManager {
                            waiting: true,
                            connect_retries: bumped(self.connect_retries),
                            ..self
                        },
                        ConnActionView::Wait {
                            millis: self.policy.connect_delay(bumped(self.connect_retries)),
                        },
                    )
                } else {
                    (self, ConnActionView::Idle)
                },
                ConnEvent::DelayElapsed => if self.state == ConnState::Connecting && self.waiting {
                    (ConnectionManager { waiting: false, ..self }, ConnActionView::Connect)
                } else if self.state == ConnState::Reconnecting {
                    (
                        ConnectionManager {
                            state: ConnState::Connecting,
                            waiting: false,
                            connect_retries: 0,
                            ..self
                        },
                        ConnActionView::Connect,
                    )
                } else {
                    (self, ConnActionView::Idle)
                },
                ConnEvent::TickFailed => if self.state == ConnState::Connected {
                    (
                        ConnectionManager {
                            state: ConnState::Reconnecting,
                            tick_retries: bumped(self.tick_retries),
                            ..self
                        },
                        ConnActionView::Wait {
                            millis: self.policy.reconnect_delay(bumped(self.tick_retries)),
                        },
                    )
                } else {
                    (self, ConnActionView::Idle)
                },
                ConnEvent::TickSucceeded { roster, events, now } => if self.state
                    == ConnState::Connected {
                    (
                        ConnectionManager {
                            tick_retries: 0,
                            seeded: self.seeded || roster@.len() > 0,
                            ..self
                        },
                        ConnActionView::Forward { events: self.tick_output(roster, events@, now) },
                    )
                } else {
                    (self, ConnActionView::Idle)
                },
            }
        }
    }

    /// A manager that has not started yet, with the standard delays.
    pub fn new() -> (manager: ConnectionManager)
        ensures
            manager == ConnectionManager::initial(RetryPolicy::spec_standard()),
            manager.wf(),
    {
        ConnectionManager::with_policy(RetryPolicy::standard())
    }

    /// A manager that has not started yet, with delays as configured.
    pub fn with_policy(policy: RetryPolicy) -> (manager: ConnectionManager)
        ensures
            manager == ConnectionManager::initial(policy),
            manager.wf(),
    {
        ConnectionManager {
            policy,
            state: ConnState::Disconnected,
            waiting: false,
            connect_retries: 0,
            tick_retries: 0,
            seeded: false,
            terminated: false,
        }
    }

    /// Takes one event and says what to do next.
    ///
    /// An event that does not apply in the current state changes nothing and
    /// yields `Idle`. After `Shutdown` every event is such an event.
    pub fn step(&mut self, event: ConnEvent) -> (action: ConnAction)
        ensures
            (*final(self), action@) == old(self).next(event),
            old(self).wf() ==> final(self).wf(),
    {
        if self.terminated {
            return ConnAction::Idle;
        }
        match event {
            ConnEvent::Shutdown { roster, now } => {
                self.state = ConnState::Disconnected;
                self.waiting = false;
                self.terminated = true;
                ConnAction::Stop { events: roster_activity(&roster, now, false) }
            },
            ConnEvent::Start => {
                if self.state == ConnState::Disconnected {
                    self.state = ConnState::Connecting;
                    self.waiting = false;
                    self.connect_retries = 0;
                    ConnAction::Connect
                } else {
                    ConnAction::Idle
                }
            },
            ConnEvent::ConnectSucceeded => {
                if self.state == ConnState::Connecting && !self.waiting {
                    self.state = ConnState::Connected;
                    self.connect_retries = 0;
                    ConnAction::Tick
                } else {
                    ConnAction::Idle
                }
            },
            ConnEvent::ConnectFailed => {
                if self.state == ConnState::Connecting && !self.waiting {
                    self.waiting = true;
                    self.connect_retries = self.connect_retries.saturating_add(1);
                    ConnAction::Wait {
                        millis: self.policy.backoff(
                            self.policy.connect_base_millis,
                            self.connect_retries,
                        ),
                    }
                } else {
                    ConnAction::Idle
                }
            },
            ConnEvent::DelayElapsed => {
                if self.state == ConnState::Connecting && self.waiting {
                    self.waiting = false;
                    ConnAction::Connect
                } else if self.state == ConnState::Reconnecting {
                    self.state = ConnState::Connecting;
                    self.waiting = false;
                    self.connect_retries = 0;
                    ConnAction::Connect
                } else {
                    ConnAction::Idle
                }
            },
            ConnEvent::TickFailed => {
                if self.state == ConnState::Connected {
                    self.state = ConnState::Reconnecting;
                    self.tick_retries = self.tick_retries.saturating_add(1);
                    ConnAction::Wait {
                        millis: self.policy.backoff(
                            self.policy.reconnect_base_millis,
                            self.tick_retries,
                        ),
                    }
                } else {
                    ConnAction::Idle
                }
            },
            ConnEvent::TickSucceeded { roster, events, now } => {
                if self.state == ConnState::Connected {
                    let mut out: Vec<VelorenEvent> = if !self.seeded && !roster.is_empty() {
                        roster_activity(&roster, now, true)
                    } else {
                        Vec::new()
                    };
                    let ghost head = event_views(out@);
                    let mut rest = normalize_all(&roster, &events, now);
                    let ghost tail = event_views(rest@);
                    out.append(&mut rest);
                    assert(event_views(out@) =~= head + tail);
                    assert(Seq::<EventView>::empty() + tail =~= tail);
                    self.tick_retries = 0;
                    self.seeded = self.seeded || !roster.is_empty();
                    ConnAction::Forward { events: out }
                } else {
                    ConnAction::Idle
                }
            },
        }
    }
}

/// Whether an authentication server may be handed the credentials: only the
/// one server that was configured as trusted, named letter for letter.
pub fn is_trusted_auth_server(candidate: &str, trusted: &str) -> (trust: bool)
    ensures
        trust == (candidate@ == trusted@),
{
    str_equals(candidate, trusted)
}

impl ConnectionManager {
    /// The manager after a whole sequence of events, one `next` per event.
    pub open spec fn after(self, events: Seq<ConnEvent>) -> ConnectionManager
        decreases events.len(),
    {
        if events.len() == 0 {
            self
        } else {
            self.after(events.drop_last()).next(events.last()).0
        }
    }
}

/// Well-formedness survives every event, so it holds after any history.
pub proof fn lemma_wf_is_invariant(manager: ConnectionManager, events: Seq<ConnEvent>)
    requires
        manager.wf(),
    ensures
        manager.after(events).wf(),
    decreases events.len(),
{
    if events.len() > 0 {
        lemma_wf_is_invariant(manager, events.drop_last());
    }
}

/// Shutdown is final: a manager that was shut down ignores every event, so it
/// never asks for another connection attempt.
pub proof fn lemma_shutdown_is_final(manager: ConnectionManager, event: ConnEvent)
    requires
        manager.terminated,
    ensures
        manager.next(event) == (manager, ConnActionView::Idle),
{
}

/// A failed tick of a connected session moves the manager to `Reconnecting`
/// and asks for the configured wait: the delay that the policy gives for the
/// new count of failed ticks. Below the counter's ceiling the new count is
/// the old one plus one. With the standard policy the wait is ten seconds
/// times the new count.
pub proof fn lemma_tick_failure_backs_off(manager: ConnectionManager)
    requires
        !manager.terminated,
        manager.state == ConnState::Connected,
    ensures
        manager.next(ConnEvent::TickFailed).0.state == ConnState::Reconnecting,
        manager.next(ConnEvent::TickFailed).1 == (ConnActionView::Wait {
            millis: manager.policy.reconnect_delay(
                manager.next(ConnEvent::TickFailed).0.tick_retries,
            ),
        }),
        manager.tick_retries < u32::MAX ==> manager.next(ConnEvent::TickFailed).0.tick_retries
            == manager.tick_retries + 1,
        manager.policy == RetryPolicy::spec_standard() ==> manager.next(ConnEvent::TickFailed).1
            == (ConnActionView::Wait {
            millis: (10_000 * manager.next(ConnEvent::TickFailed).0.tick_retries) as u64,
        }),
{
    assert(10_000 * manager.next(ConnEvent::TickFailed).0.tick_retries <= u64::MAX);
}

/// A longer run of failures never waits less: the delay that a policy gives
/// does not drop as the count of failures grows, and never exceeds the cap.
pub proof fn lemma_delay_is_monotone(policy: RetryPolicy, base: u64, fewer: u32, more: u32)
    requires
        fewer <= more,
    ensures
        policy.delay(base, fewer) <= policy.delay(base, more),
        policy.delay(base, more) <= policy.ceiling(),
{
    assert(base * fewer <= base * more) by (nonlinear_arith)
        requires
            fewer <= more,
    ;
}

/// While a delay is running, after a failed tick or a failed connection
/// attempt, nothing but the end of that delay makes the manager ask for a
/// connection attempt; any other event short of shutdown is ignored.
pub proof fn lemma_retry_waits_for_delay(manager: ConnectionManager, event: ConnEvent)
    requires
        manager.wf(),
        !manager.terminated,
        manager.state == ConnState::Reconnecting || manager.waiting,
    ensures
        manager.next(event).1 == ConnActionView::Connect <==> event == ConnEvent::DelayElapsed,
        event != ConnEvent::DelayElapsed && !(event is Shutdown) ==> manager.next(event) == (
            manager,
            ConnActionView::Idle,
        ),
{
}

/// Success resets: a tick that goes through sets the count of failed ticks to
/// zero, and a connection attempt that goes through sets the count of failed
/// attempts to zero.
pub proof fn lemma_success_resets_retries(
    manager: ConnectionManager,
    roster: Roster,
    events: Vec<RawEvent>,
    now: Timestamp,
)
    requires
        !manager.terminated,
    ensures
        manager.state == ConnState::Connected ==> manager.next(
            ConnEvent::TickSucceeded { roster, events, now },
        ).0.tick_retries == 0,
        manager.state == ConnState::Connecting && !manager.waiting ==> manager.next(
            ConnEvent::ConnectSucceeded,
        ).0.connect_retries == 0,
{
}

/// Two failures in a row, with the reconnection between them: the second
/// wait is asked for with a count one higher than the first, hence, with the
/// standard policy, ten seconds longer.
pub proof fn lemma_consecutive_failures_grow(manager: ConnectionManager)
    requires
        !manager.terminated,
        manager.state == ConnState::Connected,
        manager.tick_retries + 2 <= u32::MAX,
        manager.policy == RetryPolicy::spec_standard(),
    ensures
        ({
            let cycle = seq![
                ConnEvent::TickFailed,
                ConnEvent::DelayElapsed,
                ConnEvent::ConnectSucceeded,
            ];
            let again = manager.after(cycle);
            &&& again.state == ConnState::Connected
            &&& again.tick_retries == manager.tick_retries + 1
            &&& manager.next(ConnEvent::TickFailed).1 == (ConnActionView::Wait {
                millis: (RECONNECT_BASE_DELAY_MILLIS * (manager.tick_retries + 1)) as u64,
            })
            &&& again.next(ConnEvent::TickFailed).1 == (ConnActionView::Wait {
                millis: (RECONNECT_BASE_DELAY_MILLIS * (manager.tick_retries + 2)) as u64,
            })
        }),
{
    let cycle = seq![ConnEvent::TickFailed, ConnEvent::DelayElapsed, ConnEvent::ConnectSucceeded];
    let one = cycle.drop_last();
    let zero = one.drop_last();
    assert(zero.drop_last().len() == 0);
    assert(manager.after(zero.drop_last()) == manager);
    assert(zero.last() == ConnEvent::TickFailed);
    assert(one.last() == ConnEvent::DelayElapsed);
    assert(cycle.last() == ConnEvent::ConnectSucceeded);
    reveal_with_fuel(ConnectionManager::after, 4);
    assert(10_000 * (manager.tick_retries + 2) <= u64::MAX);
}

/// As long as no tick goes through, the count of failed ticks never drops.
pub proof fn lemma_retries_hold_until_success(manager: ConnectionManager, events: Seq<ConnEvent>)
    requires
        forall|i: int| 0 <= i < events.len() ==> !(#[trigger] events[i] is TickSucceeded),
    ensures
        manager.after(events).tick_retries >= manager.tick_retries,
    decreases events.len(),
{
    if events.len() > 0 {
        lemma_retries_hold_until_success(manager, events.drop_last());
        assert(!(events[events.len() - 1] is TickSucceeded));
    }
}

/// The snapshot of already-present players goes out at most once: once it
/// has, no later tick hands on anything but its own events.
pub proof fn lemma_snapshot_goes_out_once(
    manager: ConnectionManager,
    events: Seq<ConnEvent>,
    roster: Roster,
    raws: Seq<RawEvent>,
    now: Timestamp,
)
    requires
        manager.seeded,
    ensures
        manager.after(events).seeded,
        manager.after(events).tick_output(roster, raws, now) == normalized_all(roster, raws, now),
    decreases events.len(),
{
    if events.len() > 0 {
        lemma_snapshot_goes_out_once(manager, events.drop_last(), roster, raws, now);
    }
}

} // verus!
