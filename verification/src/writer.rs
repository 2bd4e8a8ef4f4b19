//! The persistence writer: the one place where events become rows, and the
//! only code that changes the presence set.
//!
//! The writer never touches the store. For each event the caller resolves the
//! player, calls [`PersistenceWriter::apply`], writes the row it gets back,
//! and publishes the row's envelope. Where the write fails the caller calls
//! [`PersistenceWriter::abandon`], and presence is as it was.

use crate::event::{VelorenEvent, VelorenEventKind};
use crate::playtime::{lemma_status_is_last_record, online_at_end};
use crate::presence::PresenceSet;
use crate::store::{ActivityRecord, MessageRow};
use crate::time::Timestamp;
use vstd::prelude::*;

verus! {

/// Capacity of the queue between the connector and the writer. A full queue
/// holds the connector back; nothing is dropped on this side.
pub const INGRESS_CAPACITY: usize = 256;

/// How long one attempt to take a queued event may last while draining, in
/// milliseconds.
pub const DRAIN_TIMEOUT_MILLIS: u64 = 100;

/// The row that an event turns into.
#[derive(Debug, Clone, PartialEq, Eq)]
pub enum WriteOp {
    Message(MessageRow),
    /// `was_online` is the player's presence before this event.
    Activity { record: ActivityRecord, was_online: bool },
}

/// Where the writer stands in its life.
#[derive(Debug, Clone, Copy, PartialEq, Eq, Structural)]
pub enum WriterPhase {
    /// Taking events as they come.
    Running,
    /// The queue was closed, or the writer was told to stop: taking what is
    /// still queued.
    Draining,
    Stopped,
}

/// What an attempt to take the next event from the queue gave.
#[derive(Debug, Clone, PartialEq, Eq)]
pub enum IngressPoll {
    Event(VelorenEvent),
    /// The queue is closed and empty.
    Closed,
    /// Nothing came within the time allowed.
    TimedOut,
}

/// What to do with the outcome of a poll.
#[derive(Debug, Clone, PartialEq, Eq)]
pub enum WriterDirective {
    /// Persist and publish this event, then poll again.
    Handle(VelorenEvent),
    /// Poll again.
    Continue,
    /// Stop polling.
    Stop,
}

/// How the next poll is to wait.
#[derive(Debug, Clone, Copy, PartialEq, Eq, Structural)]
pub enum PollMode {
    /// Until an event comes or the queue closes.
    Unbounded,
    /// At most this long.
    Bounded { millis: u64 },
    /// Not at all: the writer has stopped.
    Finished,
}

/// The phase after a poll, and what to do with what the poll gave.
pub open spec fn phase_step(phase: WriterPhase, poll: IngressPoll) -> (
    WriterPhase,
    WriterDirective,
) {
    match phase {
        WriterPhase::Running => match poll {
            IngressPoll::Event(event) => (WriterPhase::Running, WriterDirective::Handle(event)),
            IngressPoll::Closed => (WriterPhase::Draining, WriterDirective::Continue),
            IngressPoll::TimedOut => (WriterPhase::Running, WriterDirective::Continue),
        },
        WriterPhase::Draining => match poll {
            IngressPoll::Event(event) => (WriterPhase::Draining, WriterDirective::Handle(event)),
            IngressPoll::Closed => (WriterPhase::Stopped, WriterDirective::Stop),
            IngressPoll::TimedOut => (WriterPhase::Stopped, WriterDirective::Stop),
        },
        WriterPhase::Stopped => (WriterPhase::Stopped, WriterDirective::Stop),
    }
}

/// The presence set after one activity record.
pub open spec fn presence_step(before: Set<u32>, player_id: u32, online: bool) -> Set<u32> {
    if online {
        before.insert(player_id)
    } else {
        before.remove(player_id)
    }
}

/// The persistence writer's memory: who is online, and the writer's phase.
#[derive(Debug)]
pub struct PersistenceWriter {
    presence: PresenceSet,
    phase: WriterPhase,
}

impl PersistenceWriter {
    /// The ids that are online.
    pub closed spec fn online(&self) -> Set<u32> {
        self.presence@
    }

    /// The writer's phase.
    pub closed spec fn spec_phase(&self) -> WriterPhase {
        self.phase
    }

    /// A running writer that has seen nobody.
    pub fn new() -> (writer: PersistenceWriter)
        ensures
            writer.online() == Set::<u32>::empty(),
            writer.spec_phase() == WriterPhase::Running,
    {
        PersistenceWriter { presence: PresenceSet::new(), phase: WriterPhase::Running }
    }

    /// The writer's phase.
    pub fn phase(&self) -> (phase: WriterPhase)
        ensures
            phase == self.spec_phase(),
    {
        self.phase
    }

    /// The presence set, to read.
    pub fn presence(&self) -> (presence: &PresenceSet)
        ensures
            presence@ == self.online(),
    {
        &self.presence
    }

    /// A copy of the presence set as it is now.
    pub fn snapshot(&self) -> (ids: Vec<u32>)
        ensures
            ids@.to_set() == self.online(),
            ids@.no_duplicates(),
            ids@.len() == self.online().len(),
    {
        self.presence.snapshot()
    }

    /// Turns an event of the player `player_id` into the row to write.
    ///
    /// A message changes nothing in the writer. An activity brings the
    /// presence set up to date first, so that the set and the envelope that
    /// will go out for this row agree.
    pub fn apply(&mut self, player_id: u32, event: VelorenEvent) -> (op: WriteOp)
        ensures
            final(self).spec_phase() == old(self).spec_phase(),
            match event.kind {
                VelorenEventKind::Message { message, ty } => {
                    &&& final(self).online() == old(self).online()
                    &&& op == WriteOp::Message(
                        MessageRow { player_id, time: event.time, content: message, ty },
                    )
                },
                VelorenEventKind::Activity { online } => {
                    &&& final(self).online() == presence_step(
                        old(self).online(),
                        player_id,
                        online,
                    )
                    &&& final(self).online().contains(player_id) == online
                    &&& op == (WriteOp::Activity {
                        record: ActivityRecord { player_id, time: event.time, online },
                        was_online: old(self).online().contains(player_id),
                    })
                },
            },
    {
        match event.kind {
            VelorenEventKind::Message { message, ty } => WriteOp::Message(
                MessageRow { player_id, time: event.time, content: message, ty },
            ),
            VelorenEventKind::Activity { online } => {
                let was_online = self.presence.set(player_id, online);
                WriteOp::Activity {
                    record: ActivityRecord { player_id, time: event.time, online },
                    was_online,
                }
            },
        }
    }

    /// Takes back what `apply` did for `op`, for a row that could not be
    /// written: the player's presence is again what `op` recorded.
    pub fn abandon(&mut self, op: &WriteOp)
        ensures
            final(self).spec_phase() == old(self).spec_phase(),
            match *op {
                WriteOp::Message(_) => final(self).online() == old(self).online(),
                WriteOp::Activity { record, was_online } => final(self).online() == presence_step(
                    old(self).online(),
                    record.player_id,
                    was_online,
                ),
            },
    {
        match op {
            WriteOp::Message(_) => {},
            WriteOp::Activity { record, was_online } => {
                let _ = self.presence.set(record.player_id, *was_online);
            },
        }
    }

    /// Takes the outcome of a poll of the queue.
    ///
    /// While running, every event is handled and a closed queue starts the
    /// drain. While draining, every event is still handled; the first poll
    /// that gives none ends the writer.
    pub fn on_poll(&mut self, poll: IngressPoll) -> (directive: WriterDirective)
        ensures
            (final(self).spec_phase(), directive) == phase_step(old(self).spec_phase(), poll),
            final(self).online() == old(self).online(),
    {
        match self.phase {
            WriterPhase::Running => match poll {
                IngressPoll::Event(event) => WriterDirective::Handle(event),
                IngressPoll::Closed => {
                    self.phase = WriterPhase::Draining;
                    WriterDirective::Continue
                },
                IngressPoll::TimedOut => WriterDirective::Continue,
            },
            WriterPhase::Draining => match poll {
                IngressPoll::Event(event) => WriterDirective::Handle(event),
                IngressPoll::Closed => {
                    self.phase = WriterPhase::Stopped;
                    WriterDirective::Stop
                },
                IngressPoll::TimedOut => {
                    self.phase = WriterPhase::Stopped;
                    WriterDirective::Stop
                },
            },
            WriterPhase::Stopped => WriterDirective::Stop,
        }
    }

    /// Tells a running writer to stop once the queue is drained. A writer
    /// that drains or has stopped stays as it is.
    pub fn begin_drain(&mut self)
        ensures
            final(self).spec_phase() == if old(self).spec_phase() == WriterPhase::Running {
                WriterPhase::Draining
            } else {
                old(self).spec_phase()
            },
            final(self).online() == old(self).online(),
    {
        if self.phase == WriterPhase::Running {
            self.phase = WriterPhase::Draining;
        }
    }

    /// How the next poll is to wait.
    pub fn poll_mode(&self) -> (mode: PollMode)
        ensures
            mode == match self.spec_phase() {
                WriterPhase::Running => PollMode::Unbounded,
                WriterPhase::Draining => PollMode::Bounded { millis: DRAIN_TIMEOUT_MILLIS },
                WriterPhase::Stopped => PollMode::Finished,
            },
    {
        match self.phase {
            WriterPhase::Running => PollMode::Unbounded,
            WriterPhase::Draining => PollMode::Bounded { millis: DRAIN_TIMEOUT_MILLIS },
            WriterPhase::Stopped => PollMode::Finished,
        }
    }
}

/// The presence set after a run of activity records, applied in order.
pub open spec fn presence_after(start: Set<u32>, records: Seq<ActivityRecord>) -> Set<u32>
    decreases records.len(),
{
    if records.len() == 0 {
        start
    } else {
        presence_step(
            presence_after(start, records.drop_last()),
            records.last().player_id,
            records.last().online,
        )
    }
}

/// What the last record about `player_id` in `records` says, if any speaks
/// of that player.
pub open spec fn last_activity(records: Seq<ActivityRecord>, player_id: u32) -> Option<bool>
    decreases records.len(),
{
    if records.len() == 0 {
        None
    } else if records.last().player_id == player_id {
        Some(records.last().online)
    } else {
        last_activity(records.drop_last(), player_id)
    }
}

/// Presence follows the log: after any run of activity records a player is
/// in the set exactly if the last record about that player says online, or,
/// where no record speaks of the player, if the player was in it before.
pub proof fn lemma_presence_follows_last_activity(
    start: Set<u32>,
    records: Seq<ActivityRecord>,
    player_id: u32,
)
    ensures
        presence_after(start, records).contains(player_id) == match last_activity(
            records,
            player_id,
        ) {
            Some(online) => online,
            None => start.contains(player_id),
        },
    decreases records.len(),
{
    if records.len() > 0 {
        lemma_presence_follows_last_activity(start, records.drop_last(), player_id);
    }
}

/// The records about one player among a run of records, in order.
pub open spec fn history_of(records: Seq<ActivityRecord>, player_id: u32) -> Seq<ActivityRecord>
    decreases records.len(),
{
    if records.len() == 0 {
        Seq::empty()
    } else if records.last().player_id == player_id {
        history_of(records.drop_last(), player_id).push(records.last())
    } else {
        history_of(records.drop_last(), player_id)
    }
}

/// Presence agrees with the log: of the records written since the writer
/// started, with nobody online, a player is in the presence set exactly if
/// the player's own history, read back and reconstructed, ends online.
pub proof fn lemma_presence_agrees_with_history(records: Seq<ActivityRecord>, player_id: u32)
    ensures
        presence_after(Set::empty(), records).contains(player_id) == online_at_end(
            history_of(records, player_id),
        ),
    decreases records.len(),
{
    if records.len() > 0 {
        lemma_presence_agrees_with_history(records.drop_last(), player_id);
        if records.last().player_id == player_id {
            let history = history_of(records, player_id);
            assert(history.last() == records.last());
            lemma_status_is_last_record(history);
        }
    }
}

/// One activity record per listed player, all at `time`, all saying `online`.
pub open spec fn uniform_activity(player_ids: Seq<u32>, time: Timestamp, online: bool) -> Seq<
    ActivityRecord,
> {
    Seq::new(
        player_ids.len(),
        |i: int| ActivityRecord { player_id: player_ids[i], time, online },
    )
}

/// The drain leaves nobody online, and the snapshot brings everybody in:
/// once one record per listed player has been applied, all saying the same,
/// the presence of each listed player is what the records say. Players not
/// listed are where they were.
pub proof fn lemma_uniform_activity_settles_presence(
    start: Set<u32>,
    player_ids: Seq<u32>,
    time: Timestamp,
    online: bool,
    player_id: u32,
)
    ensures
        presence_after(start, uniform_activity(player_ids, time, online)).contains(player_id) == (
        if player_ids.contains(player_id) {
            online
        } else {
            start.contains(player_id)
        }),
    decreases player_ids.len(),
{
    let records = uniform_activity(player_ids, time, online);
    if player_ids.len() > 0 {
        let shorter = player_ids.drop_last();
        assert(records.drop_last() =~= uniform_activity(shorter, time, online));
        lemma_uniform_activity_settles_presence(start, shorter, time, online, player_id);
        if player_ids.last() != player_id {
            if player_ids.contains(player_id) {
                let i = choose|i: int| 0 <= i < player_ids.len() && player_ids[i] == player_id;
                assert(shorter[i] == player_id);
            }
            if shorter.contains(player_id) {
                let i = choose|i: int| 0 <= i < shorter.len() && shorter[i] == player_id;
                assert(player_ids[i] == player_id);
            }
        } else {
            assert(player_ids[player_ids.len() - 1] == player_id);
        }
    }
}

/// Abandoning undoes applying: setting a player's presence and then setting
/// it back to what it was leaves the set as it was.
pub proof fn lemma_abandon_restores(before: Set<u32>, player_id: u32, online: bool)
    ensures
        presence_step(
            presence_step(before, player_id, online),
            player_id,
            before.contains(player_id),
        ) == before,
{
    assert(presence_step(
        presence_step(before, player_id, online),
        player_id,
        before.contains(player_id),
    ) =~= before);
}

/// No queued event is lost: until the writer has stopped, every event that a
/// poll gives is handed on to be handled, and the writer keeps going.
pub proof fn lemma_no_event_is_lost(phase: WriterPhase, event: VelorenEvent)
    requires
        phase != WriterPhase::Stopped,
    ensures
        phase_step(phase, IngressPoll::Event(event)) == (phase, WriterDirective::Handle(event)),
{
}

/// A stopped writer stays stopped, whatever a poll gives.
pub proof fn lemma_stopped_is_final(poll: IngressPoll)
    ensures
        phase_step(WriterPhase::Stopped, poll) == (WriterPhase::Stopped, WriterDirective::Stop),
{
}

/// A closed queue does not end a running writer at once: it starts the
/// drain, and only a drain poll that gives no event stops the writer.
pub proof fn lemma_drain_precedes_stop(phase: WriterPhase, poll: IngressPoll)
    requires
        phase_step(phase, poll).0 == WriterPhase::Stopped,
    ensures
        phase == WriterPhase::Stopped || (phase == WriterPhase::Draining && !(poll is Event)),
{
}

} // verus!
