//! The events that flow through the relay: what the connector hands to the
//! writer, and what the writer publishes to subscribers.

use crate::kind::{DecodeError, MessageType};
use crate::store::DbMessage;
use crate::time::Timestamp;
use vstd::prelude::*;

verus! {

/// What happened, as the connector understood it.
#[derive(Debug, Clone, PartialEq, Eq)]
pub enum VelorenEventKind {
    Message { message: String, ty: MessageType },
    Activity { online: bool },
}

/// A normalized upstream event: who, when, what. The player is still named
/// by the upstream identity; the writer assigns the numeric one.
#[derive(Debug, Clone, PartialEq, Eq)]
pub struct VelorenEvent {
    pub player_alias: String,
    pub player_uuid: u128,
    pub time: Timestamp,
    pub kind: VelorenEventKind,
}

/// The mathematical content of a [`VelorenEventKind`].
pub enum EventKindView {
    Message { message: Seq<char>, ty: MessageType },
    Activity { online: bool },
}

/// The mathematical content of a [`VelorenEvent`].
pub struct EventView {
    pub alias: Seq<char>,
    pub uuid: u128,
    pub time: Timestamp,
    pub kind: EventKindView,
}

impl View for VelorenEventKind {
    type V = EventKindView;

    open spec fn view(&self) -> EventKindView {
        match *self {
            VelorenEventKind::Message { message, ty } => EventKindView::Message {
                message: message@,
                ty,
            },
            VelorenEventKind::Activity { online } => EventKindView::Activity { online },
        }
    }
}

impl View for VelorenEvent {
    type V = EventView;

    open spec fn view(&self) -> EventView {
        EventView {
            alias: self.player_alias@,
            uuid: self.player_uuid,
            time: self.time,
            kind: self.kind@,
        }
    }
}

/// The contents of a list of events, one by one.
pub open spec fn event_views(events: Seq<VelorenEvent>) -> Seq<EventView> {
    events.map_values(|e: VelorenEvent| e@)
}

/// A persisted chat message, with the identities the store assigned.
#[derive(Debug, Clone, PartialEq, Eq)]
pub struct Message {
    pub id: u32,
    pub player_id: u32,
    pub message: String,
    pub ty: MessageType,
    pub time: Timestamp,
}

/// A persisted change of a player's presence.
#[derive(Debug, Clone, Copy, PartialEq, Eq, Structural)]
pub struct Activity {
    pub player_id: u32,
    pub online: bool,
}

/// What goes out to subscribers, once per persisted event.
#[derive(Debug, Clone, PartialEq, Eq)]
pub enum NetworkEvent {
    Message(Message),
    Activity(Activity),
}

impl Message {
    /// Decodes a stored row. The row's text and numbers pass through
    /// unchanged; a kind tag that is not canonical is refused.
    pub fn from(row: DbMessage) -> (decoded: Result<Message, DecodeError>)
        ensures
            match MessageType::of_tag(row.ty@) {
                Some(kind) => decoded == Ok::<Message, DecodeError>(
                    Message {
                        id: row.id,
                        player_id: row.player_id,
                        message: row.content,
                        ty: kind,
                        time: row.time,
                    },
                ),
                None => decoded == Err::<Message, DecodeError>(
                    DecodeError::UnknownKind,
                ),
            },
    {
        match MessageType::from(row.ty.as_str()) {
            Ok(ty) => Ok(
                Message {
                    id: row.id,
                    player_id: row.player_id,
                    message: row.content,
                    ty,
                    time: row.time,
                },
            ),
            Err(e) => Err(e),
        }
    }
}

} // verus!
