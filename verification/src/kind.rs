//! The closed set of message kinds and their textual tags.

use crate::text::str_equals;
use vstd::prelude::*;
use vstd::string::StringExecFns;

verus! {

/// Broadcast scope of a chat message.
#[derive(Debug, Clone, Copy, PartialEq, Eq, Hash, Structural)]
pub enum MessageType {
    World,
    Tell,
    Faction,
}

/// A textual tag that names no message kind.
#[derive(Debug, Clone, Copy, PartialEq, Eq, Structural)]
pub enum DecodeError {
    UnknownKind,
}

impl MessageType {
    /// The tag under which a kind is stored and sent.
    pub open spec fn tag(self) -> Seq<char> {
        match self {
            MessageType::World => "World"@,
            MessageType::Tell => "Tell"@,
            MessageType::Faction => "Faction"@,
        }
    }

    /// The kind that a tag names, if it names one.
    pub open spec fn of_tag(tag: Seq<char>) -> Option<MessageType> {
        if tag == "World"@ {
            Some(MessageType::World)
        } else if tag == "Tell"@ {
            Some(MessageType::Tell)
        } else if tag == "Faction"@ {
            Some(MessageType::Faction)
        } else {
            None
        }
    }

    /// The tag of this kind, borrowed.
    pub fn as_str(&self) -> (tag: &'static str)
        ensures
            tag@ == self.tag(),
    {
        match self {
            MessageType::World => "World",
            MessageType::Tell => "Tell",
            MessageType::Faction => "Faction",
        }
    }

    /// The tag of this kind, owned.
    pub fn to_string(&self) -> (tag: String)
        ensures
            tag@ == self.tag(),
    {
        String::from_str(self.as_str())
    }

    /// Decodes a tag. Exactly the three canonical tags decode; anything else,
    /// including a tag that differs only in case or spacing, is an error.
    pub fn from(tag: &str) -> (decoded: Result<MessageType, DecodeError>)
        ensures
            decoded == match MessageType::of_tag(tag@) {
                Some(kind) => Ok::<MessageType, DecodeError>(kind),
                None => Err::<MessageType, DecodeError>(DecodeError::UnknownKind),
            },
    {
        if str_equals(tag, "World") {
            Ok(MessageType::World)
        } else if str_equals(tag, "Tell") {
            Ok(MessageType::Tell)
        } else if str_equals(tag, "Faction") {
            Ok(MessageType::Faction)
        } else {
            Err(DecodeError::UnknownKind)
        }
    }
}

/// The three tags are pairwise different, so a tag names at most one kind.
pub proof fn lemma_tags_distinct()
    ensures
        forall|a: MessageType, b: MessageType| a.tag() == b.tag() ==> a == b,
{
    reveal_strlit("World");
    reveal_strlit("Tell");
    reveal_strlit("Faction");
    assert forall|a: MessageType, b: MessageType| a.tag() == b.tag() implies a == b by {
        assert("World"@.len() == 5);
        assert("Tell"@.len() == 4);
        assert("Faction"@.len() == 7);
    }
}

/// Round trip: the tag of every kind decodes back to that kind.
pub proof fn lemma_tag_round_trip(kind: MessageType)
    ensures
        MessageType::of_tag(kind.tag()) == Some(kind),
{
    reveal_strlit("World");
    reveal_strlit("Tell");
    reveal_strlit("Faction");
    assert("World"@.len() == 5);
    assert("Tell"@.len() == 4);
    assert("Faction"@.len() == 7);
}

/// A decoded kind carries exactly the tag it was decoded from, and a tag
/// that is none of the three canonical ones decodes to nothing.
pub proof fn lemma_decode_is_exact(tag: Seq<char>)
    ensures
        match MessageType::of_tag(tag) {
            Some(kind) => kind.tag() == tag,
            None => forall|kind: MessageType| kind.tag() != tag,
        },
{
}

} // verus!
