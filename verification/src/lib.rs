//! Relay core for a multiplayer chat log: the upstream connection state
//! machine, event normalization, the single-writer persistence discipline with
//! its presence set, the subscriber policy of the broadcast fan-out, and the
//! reconstruction of online time from an activity history.
//!
//! Everything here is plain data in, plain data out. Sockets, the database and
//! the async runtime belong to the program that drives these functions.

pub mod connection;
pub mod event;
pub mod fanout;
pub mod kind;
pub mod normalize;
pub mod playtime;
pub mod presence;
pub mod query;
pub mod roster;
pub mod store;
pub mod text;
pub mod time;
pub mod writer;

pub use connection::{ConnAction, ConnEvent, ConnState, ConnectionManager, RetryPolicy};
pub use event::{Activity, Message, NetworkEvent, VelorenEvent, VelorenEventKind};
pub use kind::{DecodeError, MessageType};
pub use playtime::{reconstruct, Playtime, PlaytimeError};
pub use presence::PresenceSet;
pub use time::Timestamp;
pub use writer::PersistenceWriter;
