//! Peer-to-peer turn-based game rooms over a shared replicated document.
//!
//! A room is a set of peers around one key-value document that a gossip
//! network keeps in sync, each key holding the value that was written last.
//! One peer is the host: it alone writes the room's state, the game's state
//! and the records of the peers, and it does so in answer to what the other
//! peers write under keys of their own.
//!
//! This crate is the room's logic, and it touches no network. Whoever embeds
//! it reads the document and hands the room what it read, and makes in the
//! document the writes that the room hands back:
//!
//! - [`room::state`] spells the document's keys and says what a key stands
//!   for; [`StateData`] makes a peer's writes and interprets its reads.
//! - [`room::events`] turns the events of the document's change stream into
//!   writes of the host and news for the user of each peer, and tracks
//!   whether the host is in reach.
//! - [`GameRoom`] is a peer's part in a room; [`GameLogic`] is the game that
//!   the room is given.
//! - [`laws`] states what holds of every room.

pub mod document;
pub mod endpoint;
pub mod error;
pub mod laws;
pub mod logic;
pub mod peer;
pub mod room;
pub mod storage;
pub mod text;

pub use endpoint::EndpointId;
pub use error::AppError;
pub use logic::GameLogic;
pub use peer::{PeerInfo, PeerMap, PeerProfile, PeerStatus};
pub use room::{AppState, ChatMessage, GameRoom, HostEvent, LeaveReason, StateData, UiEvent};
