//! What a room keeps in the shared document, and how it is keyed.

pub mod actions;
pub mod keys;
pub mod queries;

pub use crate::endpoint::endpoint_id_from_str;

use crate::document::Entry;
use crate::endpoint::{endpoint_key_of_text, parsed_from, EndpointId};
use crate::logic::GameLogic;
use crate::peer::{PeerInfo, PeerProfile};
use crate::room::chat::ChatMessage;
use crate::text::{ascii_bytes, hex_text, lemma_hex_text_is_ascii, text_to_bytes};
use keys::{
    chat_key, chat_key_for, find_last_part, has_prefix, id_in_key, id_key, is_key, key_class,
    key_for, key_has_prefix, lemma_schema_is_ascii, text_after, text_after_last_dot, KeyClass,
    KEY_APP_STATE, KEY_GAME_STATE, KEY_HOST_ID, PREFIX_ACTION, PREFIX_CHAT, PREFIX_JOIN,
    PREFIX_PEER, PREFIX_QUIT,
};
use std::marker::PhantomData;
use vstd::prelude::*;

verus! {

/// Why a peer leaves a room.
#[derive(Debug, Clone, PartialEq, Eq)]
pub enum LeaveReason<G: GameLogic> {
    /// The player has closed the application.
    ApplicationClosed,
    /// The player has timed out.
    Timeout,
    /// The player has given up the game.
    Forfeit,
    /// Something went wrong, and this was reported.
    Error(String),
    /// A reason of the game's own.
    Custom(G::PlayerLeaveReason),
    /// The reason is not known.
    Unknown,
}

/// Where a room stands.
///
/// `Paused` is never written to the document: a peer reports it while it
/// cannot reach the host.
#[derive(Clone, Copy, Debug, PartialEq, Eq, Structural)]
pub enum AppState {
    Lobby,
    InGame,
    Paused,
    Finished,
}

/// What reading one key of the document gave: the value, `None` where the key
/// is not there, or the reason why it could not be read or understood.
pub type Read<T> = Result<Option<T>, String>;

/// A value to put under a key of the document.
#[derive(Debug)]
pub enum Write<G: GameLogic> {
    /// The room's state, under `app_state`.
    AppState(AppState),
    /// The game's state, under `game_state`.
    GameState(G::GameState),
    /// The host's identity, under `host_id`.
    HostId(EndpointId),
    /// The host's record of a peer, under `peer.` and the peer's identity.
    Peer { id: EndpointId, info: PeerInfo },
    /// A peer's announcement of itself, under `join_request.` and its identity.
    Join { id: EndpointId, profile: PeerProfile },
    /// A peer's announcement that it leaves, under `quit_request.` and its identity.
    Quit { id: EndpointId, reason: LeaveReason<G> },
    /// A peer's pending action, under `action.` and its identity.
    Action { id: EndpointId, action: G::GameAction },
    /// A chat message, under `chat.`, its time and its sender's identity.
    Chat(ChatMessage),
}

impl<G: GameLogic> Write<G> {
    /// The key under which the value goes.
    pub open spec fn key_bytes(self) -> Seq<u8> {
        match self {
            Write::AppState(_) => ascii_bytes(KEY_APP_STATE@),
            Write::GameState(_) => ascii_bytes(KEY_GAME_STATE@),
            Write::HostId(_) => ascii_bytes(KEY_HOST_ID@),
            Write::Peer { id, .. } => id_key(PREFIX_PEER@, id@),
            Write::Join { id, .. } => id_key(PREFIX_JOIN@, id@),
            Write::Quit { id, .. } => id_key(PREFIX_QUIT@, id@),
            Write::Action { id, .. } => id_key(PREFIX_ACTION@, id@),
            Write::Chat(message) => chat_key(message.timestamp, message.from@),
        }
    }

    /// The value's bytes, where the schema spells them itself: the host's
    /// identity is stored as its text. Every other value goes through the
    /// room's codec.
    pub open spec fn raw_bytes(self) -> Option<Seq<u8>> {
        match self {
            Write::HostId(id) => Some(ascii_bytes(hex_text(id@))),
            _ => None,
        }
    }

    /// Spells the key under which the value goes.
    pub fn key(&self) -> (r: Vec<u8>)
        ensures
            r@ == self.key_bytes(),
    {
        proof {
            lemma_schema_is_ascii();
        }
        match self {
            Write::AppState(_) => text_to_bytes(KEY_APP_STATE),
            Write::GameState(_) => text_to_bytes(KEY_GAME_STATE),
            Write::HostId(_) => text_to_bytes(KEY_HOST_ID),
            Write::Peer { id, .. } => key_for(PREFIX_PEER, id),
            Write::Join { id, .. } => key_for(PREFIX_JOIN, id),
            Write::Quit { id, .. } => key_for(PREFIX_QUIT, id),
            Write::Action { id, .. } => key_for(PREFIX_ACTION, id),
            Write::Chat(message) => chat_key_for(message.timestamp, &message.from),
        }
    }

    /// Spells the value, where the schema spells it itself.
    pub fn raw_value(&self) -> (r: Option<Vec<u8>>)
        ensures
            match r {
                Some(bytes) => self.raw_bytes() == Some(bytes@),
                None => self.raw_bytes() is None,
            },
    {
        match self {
            Write::HostId(id) => {
                let text = id.to_string();
                proof {
                    lemma_hex_text_is_ascii(id@);
                }
                Some(text_to_bytes(text.as_str()))
            },
            _ => None,
        }
    }
}

/// What a peer knows of a room beside the document: who it is itself, and
/// whether it has lost the host.
pub struct StateData<G: GameLogic> {
    pub(crate) host_disconnected: bool,
    pub(crate) phantom: PhantomData<G>,
    /// This peer's identity.
    pub(crate) endpoint_id: EndpointId,
}

impl<G: GameLogic> StateData<G> {
    /// True while the host is taken to be out of reach.
    pub closed spec fn disconnected(&self) -> bool {
        self.host_disconnected
    }

    /// This peer's identity.
    pub closed spec fn endpoint(&self) -> EndpointId {
        self.endpoint_id
    }

    /// The state of a peer that has lost no host.
    pub fn new(endpoint_id: EndpointId) -> (r: StateData<G>)
        ensures
            r.endpoint() == endpoint_id,
            !r.disconnected(),
    {
        StateData { host_disconnected: false, phantom: PhantomData, endpoint_id }
    }

    /// Notes that the host is out of reach: the room is paused.
    pub fn host_offline(&mut self)
        ensures
            final(self).disconnected(),
            final(self).endpoint() == old(self).endpoint(),
    {
        self.host_disconnected = true;
    }

    /// Notes that the host is in reach: the room goes on.
    pub fn host_online(&mut self)
        ensures
            !final(self).disconnected(),
            final(self).endpoint() == old(self).endpoint(),
    {
        self.host_disconnected = false;
    }

    /// This peer's identity.
    pub fn id(&self) -> (r: EndpointId)
        ensures
            r == self.endpoint(),
    {
        self.endpoint_id
    }

    /// Tells whether the host is taken to be out of reach.
    pub fn is_host_disconnected(&self) -> (r: bool)
        ensures
            r == self.disconnected(),
    {
        self.host_disconnected
    }
}

/// True when `r` is what reading an identity from a key gives: nothing where
/// the key is of another kind, and else what parsing `text` gives.
pub open spec fn id_reading(
    r: Option<Result<EndpointId, String>>,
    present: bool,
    text: Seq<char>,
) -> bool {
    match r {
        Some(id) => present && parsed_from(id, text),
        None => !present,
    }
}

impl AppState {
    /// The state's name.
    pub open spec fn name_text(self) -> Seq<char> {
        match self {
            AppState::Lobby => "Lobby"@,
            AppState::InGame => "InGame"@,
            AppState::Paused => "Paused"@,
            AppState::Finished => "Finished"@,
        }
    }

    /// The state's name.
    pub fn name(&self) -> (r: &'static str)
        ensures
            r@ == self.name_text(),
    {
        match self {
            AppState::Lobby => "Lobby",
            AppState::InGame => "InGame",
            AppState::Paused => "Paused",
            AppState::Finished => "Finished",
        }
    }
}

/// What an entry's key says of the entry.
pub trait GameKey {
    /// The key's bytes.
    spec fn key_bytes(&self) -> Seq<u8>;

    /// For a peer's announcement of itself: the peer's identity.
    fn is_join(&self) -> (r: Option<Result<EndpointId, String>>)
        ensures
            id_reading(
                r,
                key_has_prefix(self.key_bytes(), PREFIX_JOIN@),
                text_after(self.key_bytes(), PREFIX_JOIN@),
            ),
    ;

    /// For a request to act in the game: the identity of the peer that asks.
    fn is_action_request(&self) -> (r: Option<Result<EndpointId, String>>)
        ensures
            id_reading(
                r,
                key_has_prefix(self.key_bytes(), PREFIX_ACTION@),
                text_after(self.key_bytes(), PREFIX_ACTION@),
            ),
    ;

    /// For a chat message: the sender's identity.
    fn is_chat_message(&self) -> (r: Option<Result<EndpointId, String>>)
        ensures
            id_reading(
                r,
                key_has_prefix(self.key_bytes(), PREFIX_CHAT@),
                text_after_last_dot(self.key_bytes()),
            ),
    ;

    /// For a peer's announcement that it leaves: the peer's identity.
    fn is_quit_request(&self) -> (r: Option<Result<EndpointId, String>>)
        ensures
            id_reading(
                r,
                key_has_prefix(self.key_bytes(), PREFIX_QUIT@),
                text_after(self.key_bytes(), PREFIX_QUIT@),
            ),
    ;

    /// True for the host's record of a peer.
    fn is_peer_entry(&self) -> (r: bool)
        ensures
            r == key_has_prefix(self.key_bytes(), PREFIX_PEER@),
    ;

    /// True for the game's state.
    fn is_game_state_update(&self) -> (r: bool)
        ensures
            r == (self.key_bytes() == ascii_bytes(KEY_GAME_STATE@)),
    ;

    /// True for the room's state.
    fn is_app_state_update(&self) -> (r: bool)
        ensures
            r == (self.key_bytes() == ascii_bytes(KEY_APP_STATE@)),
    ;

    /// True for the host's identity.
    fn is_host_update(&self) -> (r: bool)
        ensures
            r == (self.key_bytes() == ascii_bytes(KEY_HOST_ID@)),
    ;
}

/// What an entry is, by its key.
#[derive(Clone, Copy, Debug, PartialEq, Eq)]
pub enum EntryKind {
    /// A peer's announcement of itself.
    Join(EndpointId),
    /// A peer's announcement that it leaves.
    QuitRequest(EndpointId),
    /// A peer's request to act in the game.
    ActionRequest(EndpointId),
    /// A chat message of this sender.
    ChatMessage(EndpointId),
    /// The host's record of a peer.
    PeerEntry,
    /// The game's state.
    GameStateUpdate,
    /// The room's state.
    AppStateUpdate,
    /// The host's identity.
    HostUpdate,
    /// Nothing that the room knows, or a key whose identity cannot be read.
    Unknown,
}

/// The identity that a kind of entry holds.
pub open spec fn identity_of(kind: EntryKind) -> Option<EndpointId> {
    match kind {
        EntryKind::Join(id) => Some(id),
        EntryKind::QuitRequest(id) => Some(id),
        EntryKind::ActionRequest(id) => Some(id),
        EntryKind::ChatMessage(id) => Some(id),
        _ => None,
    }
}

/// The text of the identity that a key of this class holds.
pub open spec fn identity_text(class: KeyClass) -> Option<Seq<char>> {
    match class {
        KeyClass::Join(text) => Some(text),
        KeyClass::QuitRequest(text) => Some(text),
        KeyClass::ActionRequest(text) => Some(text),
        KeyClass::ChatMessage(text) => Some(text),
        _ => None,
    }
}

/// True when the kind of an entry is the one that goes with the class of its key.
pub open spec fn kind_of_class(kind: EntryKind, class: KeyClass) -> bool {
    match class {
        KeyClass::Join(_) => kind is Join,
        KeyClass::QuitRequest(_) => kind is QuitRequest,
        KeyClass::ActionRequest(_) => kind is ActionRequest,
        KeyClass::ChatMessage(_) => kind is ChatMessage,
        KeyClass::PeerEntry => kind is PeerEntry,
        KeyClass::GameStateUpdate => kind is GameStateUpdate,
        KeyClass::AppStateUpdate => kind is AppStateUpdate,
        KeyClass::HostUpdate => kind is HostUpdate,
        KeyClass::Unknown => kind is Unknown,
    }
}

/// True when `kind` and `error` are what the schema makes of a key: the kind
/// that goes with the key's class, with the identity that the key holds; or,
/// where the key holds an identity that cannot be read, `Unknown` and a message.
pub open spec fn classified(key: Seq<u8>, kind: EntryKind, error: Option<String>) -> bool {
    let class = key_class(key);
    match identity_text(class) {
        None => kind_of_class(kind, class) && error is None,
        Some(text) => match endpoint_key_of_text(text) {
            Some(named) => kind_of_class(kind, class) && error is None && (identity_of(
                kind,
            ) matches Some(id) && id@ == named),
            None => kind is Unknown && (error matches Some(message) && parsed_from(
                Err(message),
                text,
            )),
        },
    }
}

/// Says what an entry is. Where the key holds an identity that cannot be
/// read, the entry is `Unknown` and the message says why.
pub fn classify(entry: &Entry) -> (r: (EntryKind, Option<String>))
    ensures
        classified(entry.key@, r.0, r.1),
{
    if let Some(id) = entry.is_join() {
        match id {
            Ok(id) => {
                (EntryKind::Join(id), None)
            },
            Err(message) => {
                (EntryKind::Unknown, Some(message))
            },
        }
    } else if let Some(id) = entry.is_action_request() {
        match id {
            Ok(id) => {
                (EntryKind::ActionRequest(id), None)
            },
            Err(message) => {
                (EntryKind::Unknown, Some(message))
            },
        }
    } else if let Some(id) = entry.is_chat_message() {
        match id {
            Ok(id) => {
                (EntryKind::ChatMessage(id), None)
            },
            Err(message) => {
                (EntryKind::Unknown, Some(message))
            },
        }
    } else if entry.is_peer_entry() {
        (EntryKind::PeerEntry, None)
    } else if entry.is_game_state_update() {
        (EntryKind::GameStateUpdate, None)
    } else if entry.is_app_state_update() {
        (EntryKind::AppStateUpdate, None)
    } else if entry.is_host_update() {
        (EntryKind::HostUpdate, None)
    } else if let Some(id) = entry.is_quit_request() {
        match id {
            Ok(id) => {
                (EntryKind::QuitRequest(id), None)
            },
            Err(message) => {
                (EntryKind::Unknown, Some(message))
            },
        }
    } else {
        (EntryKind::Unknown, None)
    }
}

/// Reads the identity behind a prefix, where the key has that prefix.
fn id_behind(key: &[u8], prefix: &str) -> (r: Option<Result<EndpointId, String>>)
    requires
        vstd::utf8::is_ascii_chars(prefix@),
    ensures
        id_reading(
            r,
            key_has_prefix(key@, prefix@),
            text_after(key@, prefix@),
        ),
{
    if !has_prefix(key, prefix) {
        return None;
    }
    proof {
        vstd::utf8::is_ascii_chars_encode_utf8(prefix@);
    }
    Some(id_in_key(key, prefix.len()))
}

impl GameKey for Entry {
    open spec fn key_bytes(&self) -> Seq<u8> {
        self.key@
    }

    fn is_join(&self) -> (r: Option<Result<EndpointId, String>>) {
        proof {
            lemma_schema_is_ascii();
        }
        id_behind(self.key(), PREFIX_JOIN)
    }

    fn is_action_request(&self) -> (r: Option<Result<EndpointId, String>>) {
        proof {
            lemma_schema_is_ascii();
        }
        id_behind(self.key(), PREFIX_ACTION)
    }

    fn is_chat_message(&self) -> (r: Option<Result<EndpointId, String>>) {
        proof {
            lemma_schema_is_ascii();
        }
        if !has_prefix(self.key(), PREFIX_CHAT) {
            return None;
        }
        let from = find_last_part(self.key());
        Some(id_in_key(self.key(), from))
    }

    fn is_quit_request(&self) -> (r: Option<Result<EndpointId, String>>) {
        proof {
            lemma_schema_is_ascii();
        }
        id_behind(self.key(), PREFIX_QUIT)
    }

    fn is_peer_entry(&self) -> (r: bool) {
        proof {
            lemma_schema_is_ascii();
        }
        has_prefix(self.key(), PREFIX_PEER)
    }

    fn is_game_state_update(&self) -> (r: bool) {
        proof {
            lemma_schema_is_ascii();
        }
        is_key(self.key(), KEY_GAME_STATE)
    }

    fn is_app_state_update(&self) -> (r: bool) {
        proof {
            lemma_schema_is_ascii();
        }
        is_key(self.key(), KEY_APP_STATE)
    }

    fn is_host_update(&self) -> (r: bool) {
        proof {
            lemma_schema_is_ascii();
        }
        is_key(self.key(), KEY_HOST_ID)
    }
}

} // verus!
