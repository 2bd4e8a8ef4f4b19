//! Rows, as they go to the store and come back from it.

use crate::event::{Activity, Message, NetworkEvent};
use crate::kind::MessageType;
use crate::time::Timestamp;
use vstd::prelude::*;

verus! {

/// A message row as the store returns it, its kind still a textual tag.
#[derive(Debug, Clone, PartialEq, Eq)]
pub struct DbMessage {
    pub id: u32,
    pub player_id: u32,
    pub time: Timestamp,
    pub content: String,
    pub ty: String,
}

/// A message row about to be written. The store assigns its id.
#[derive(Debug, Clone, PartialEq, Eq)]
pub struct MessageRow {
    pub player_id: u32,
    pub time: Timestamp,
    pub content: String,
    pub ty: MessageType,
}

/// One line of a player's activity history: from `time` on the player was
/// online, or was not.
#[derive(Debug, Clone, Copy, PartialEq, Eq, Structural)]
pub struct ActivityRecord {
    pub player_id: u32,
    pub time: Timestamp,
    pub online: bool,
}

impl MessageRow {
    /// The envelope for this row once the store has written it under `id`.
    pub fn into_envelope(self, id: u32) -> (envelope: NetworkEvent)
        ensures
            envelope == NetworkEvent::Message(
                Message {
                    id,
                    player_id: self.player_id,
                    message: self.content,
                    ty: self.ty,
                    time: self.time,
                },
            ),
    {
        NetworkEvent::Message(
            Message {
                id,
                player_id: self.player_id,
                message: self.content,
                ty: self.ty,
                time: self.time,
            },
        )
    }
}

impl ActivityRecord {
    /// The envelope for this record once the store has written it.
    pub fn envelope(&self) -> (envelope: NetworkEvent)
        ensures
            envelope == NetworkEvent::Activity(
                Activity { player_id: self.player_id, online: self.online },
            ),
    {
        NetworkEvent::Activity(Activity { player_id: self.player_id, online: self.online })
    }
}

} // verus!
