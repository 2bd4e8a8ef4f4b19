//! From raw upstream events to the two canonical kinds.
//!
//! A chat line with world, tell or faction scope becomes a message; a
//! presence notification becomes an activity. Everything else is dropped, and
//! so is any event whose sender the roster does not know.

use crate::event::{event_views, EventKindView, EventView, VelorenEvent, VelorenEventKind};
use crate::kind::MessageType;
use crate::roster::{Roster, RosterEntry};
use crate::text::{strip_sender_prefix, without_sender_prefix};
use crate::time::Timestamp;
use vstd::prelude::*;

verus! {

/// The scope tag of an upstream chat event, with the sender's handle where
/// the scope has one.
#[derive(Debug, Clone, Copy, PartialEq, Eq, Structural)]
pub enum ChatScope {
    Online(u64),
    Offline(u64),
    World(u64),
    Tell(u64),
    Faction(u64),
    Other,
}

/// An event as the upstream session yields it.
#[derive(Debug, Clone, PartialEq, Eq)]
pub enum RawEvent {
    Chat { scope: ChatScope, text: String },
    Other,
}

/// The handle of the participant a scope speaks of.
pub open spec fn scope_sender(scope: ChatScope) -> Option<u64> {
    match scope {
        ChatScope::Online(uid) => Some(uid),
        ChatScope::Offline(uid) => Some(uid),
        ChatScope::World(uid) => Some(uid),
        ChatScope::Tell(uid) => Some(uid),
        ChatScope::Faction(uid) => Some(uid),
        ChatScope::Other => None,
    }
}

/// What a chat event of a given scope and text says, whoever sent it.
pub open spec fn scope_kind(scope: ChatScope, text: Seq<char>) -> Option<EventKindView> {
    match scope {
        ChatScope::Online(_) => Some(EventKindView::Activity { online: true }),
        ChatScope::Offline(_) => Some(EventKindView::Activity { online: false }),
        ChatScope::World(_) => Some(
            EventKindView::Message { message: without_sender_prefix(text), ty: MessageType::World },
        ),
        ChatScope::Tell(_) => Some(
            EventKindView::Message { message: without_sender_prefix(text), ty: MessageType::Tell },
        ),
        ChatScope::Faction(_) => Some(
            EventKindView::Message {
                message: without_sender_prefix(text),
                ty: MessageType::Faction,
            },
        ),
        ChatScope::Other => None,
    }
}

/// The canonical event that a raw event stands for at time `now`, or `None`
/// where it is dropped.
pub open spec fn normalized(roster: Roster, raw: RawEvent, now: Timestamp) -> Option<EventView> {
    match raw {
        RawEvent::Chat { scope, text } => match (scope_sender(scope), scope_kind(scope, text@)) {
            (Some(uid), Some(kind)) => match roster.resolve(uid) {
                Some(entry) => Some(
                    EventView { alias: entry.alias@, uuid: entry.uuid, time: now, kind },
                ),
                None => None,
            },
            _ => None,
        },
        RawEvent::Other => None,
    }
}

/// The canonical events of a batch of raw events, in order, the dropped
/// ones left out.
pub open spec fn normalized_all(roster: Roster, raws: Seq<RawEvent>, now: Timestamp) -> Seq<
    EventView,
>
    decreases raws.len(),
{
    if raws.len() == 0 {
        Seq::empty()
    } else {
        let before = normalized_all(roster, raws.drop_last(), now);
        match normalized(roster, raws.last(), now) {
            Some(event) => before.push(event),
            None => before,
        }
    }
}

/// One activity event per roster entry, in roster order.
pub open spec fn roster_activity_views(roster: Roster, now: Timestamp, online: bool) -> Seq<
    EventView,
> {
    Seq::new(
        roster@.len(),
        |i: int|
            EventView {
                alias: roster@[i].alias@,
                uuid: roster@[i].uuid,
                time: now,
                kind: EventKindView::Activity { online },
            },
    )
}

fn event_for(entry: &RosterEntry, now: Timestamp, kind: VelorenEventKind) -> (event: VelorenEvent)
    ensures
        event@ == (EventView { alias: entry.alias@, uuid: entry.uuid, time: now, kind: kind@ }),
{
    VelorenEvent {
        player_alias: entry.alias.clone(),
        player_uuid: entry.uuid,
        time: now,
        kind,
    }
}

/// Normalizes one raw event against the session's current roster.
pub fn normalize(roster: &Roster, raw: &RawEvent, now: Timestamp) -> (event: Option<VelorenEvent>)
    ensures
        match event {
            Some(e) => normalized(*roster, *raw, now) == Some(e@),
            None => normalized(*roster, *raw, now).is_none(),
        },
{
    match raw {
        RawEvent::Chat { scope, text } => {
            let (uid, ty): (u64, Option<MessageType>) = match scope {
                ChatScope::Online(uid) => (*uid, None),
                ChatScope::Offline(uid) => (*uid, None),
                ChatScope::World(uid) => (*uid, Some(MessageType::World)),
                ChatScope::Tell(uid) => (*uid, Some(MessageType::Tell)),
                ChatScope::Faction(uid) => (*uid, Some(MessageType::Faction)),
                ChatScope::Other => {
                    return None;
                },
            };
            match roster.get(uid) {
                Some(entry) => {
                    let kind = match ty {
                        Some(ty) => VelorenEventKind::Message {
                            message: strip_sender_prefix(text.as_str()),
                            ty,
                        },
                        None => VelorenEventKind::Activity {
                            online: matches!(scope, ChatScope::Online(_)),
                        },
                    };
                    Some(event_for(entry, now, kind))
                },
                None => None,
            }
        },
        RawEvent::Other => None,
    }
}

/// Normalizes a batch of raw events, keeping their order.
pub fn normalize_all(roster: &Roster, raws: &Vec<RawEvent>, now: Timestamp) -> (events: Vec<
    VelorenEvent,
>)
    ensures
        event_views(events@) == normalized_all(*roster, raws@, now),
{
    let mut events: Vec<VelorenEvent> = Vec::new();
    let mut i: usize = 0;
    assert(raws@.take(0) =~= Seq::<RawEvent>::empty());
    assert(event_views(events@) =~= Seq::<EventView>::empty());
    while i < raws.len()
        invariant
            i <= raws.len(),
            event_views(events@) == normalized_all(*roster, raws@.take(i as int), now),
        decreases raws.len() - i,
    {
        let ghost before = events@;
        match normalize(roster, &raws[i], now) {
            Some(event) => {
                events.push(event);
                assert(event_views(events@) =~= event_views(before).push(event@));
            },
            None => {},
        }
        assert(raws@.take(i + 1).drop_last() =~= raws@.take(i as int));
        assert(raws@.take(i + 1).last() == raws@[i as int]);
        i += 1;
    }
    assert(raws@.take(raws.len() as int) =~= raws@);
    events
}

/// One activity event per participant, in roster order: `online` for the
/// snapshot taken when the relay attaches, offline for the drain when it
/// stops.
pub fn roster_activity(roster: &Roster, now: Timestamp, online: bool) -> (events: Vec<
    VelorenEvent,
>)
    ensures
        event_views(events@) == roster_activity_views(*roster, now, online),
{
    let mut events: Vec<VelorenEvent> = Vec::new();
    let mut i: usize = 0;
    while i < roster.entries.len()
        invariant
            i <= roster.entries.len(),
            events@.len() == i,
            forall|j: int|
                0 <= j < i ==> (#[trigger] events@[j])@ == roster_activity_views(
                    *roster,
                    now,
                    online,
                )[j],
        decreases roster.entries.len() - i,
    {
        let event = event_for(&roster.entries[i], now, VelorenEventKind::Activity { online });
        events.push(event);
        i += 1;
    }
    assert(event_views(events@) =~= roster_activity_views(*roster, now, online));
    events
}

} // verus!
