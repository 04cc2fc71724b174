//! How a room reacts to one entry of the document.

use super::{HostEvent, UiEvent};
use crate::document::Entry;
use crate::endpoint::{endpoint_id_from_str, endpoint_key_of_text, parsed_from, EndpointId};
use crate::logic::GameLogic;
use crate::peer::{PeerInfo, PeerProfile};
use crate::room::chat::ChatMessage;
use crate::room::state::keys::{
    key_has_prefix, text_after, text_after_last_dot, KEY_APP_STATE, KEY_GAME_STATE, KEY_HOST_ID,
    PREFIX_ACTION, PREFIX_CHAT, PREFIX_JOIN, PREFIX_PEER, PREFIX_QUIT,
};
use crate::room::state::queries::{
    name_in_records, names_host, no_game_state_message, peer_order_of, peers_of_records,
    records_fault, reported_order, reported_peers,
};
use crate::room::state::actions::admitted;
use crate::room::state::{AppState, GameKey, Read, StateData, Write};
use crate::text::{about, about_text, ascii_bytes, bytes_to_text, hex_text, labelled, text_of_bytes};
use vstd::prelude::*;

verus! {

/// The content of an entry, as the room's codec read it.
#[derive(Debug)]
pub enum Content<G: GameLogic> {
    /// How a peer presents itself.
    Profile(PeerProfile),
    /// What a peer asks to do in the game.
    Action(G::GameAction),
    /// A chat message.
    Chat(ChatMessage),
    /// The game's state.
    GameState(G::GameState),
    /// The room's state.
    AppState(AppState),
    /// The bytes under `host_id`.
    HostId(Vec<u8>),
    /// The content could not be fetched or understood, for this reason.
    Failed(String),
    /// The content was not read.
    Unread,
}

/// What the content of an entry is to be read as.
#[derive(Clone, Copy, Debug, PartialEq, Eq, Structural)]
pub enum ContentKind {
    Profile,
    Action,
    Chat,
    GameState,
    AppState,
    HostId,
    Unread,
}

/// What a peer has read from the document when an entry arrives.
#[derive(Debug)]
pub struct RoomView<G: GameLogic> {
    /// The bytes under `host_id`.
    pub host: Read<Vec<u8>>,
    /// The value under `app_state`.
    pub app_state: Read<AppState>,
    /// The value under `game_state`.
    pub game_state: Read<G::GameState>,
    /// The keys under `peer.`, each with its record.
    pub peers: Result<Vec<(Vec<u8>, PeerInfo)>, String>,
}

/// What a peer does about an event: at most one write and one message to its user.
#[derive(Debug)]
pub struct Outcome<G: GameLogic> {
    /// What to write into the document.
    pub write: Option<Write<G>>,
    /// What to tell the user.
    pub event: Option<UiEvent<G>>,
}

/// The reason given where content is of a kind that its key does not ask for.
pub open spec fn unexpected_content_message() -> Seq<char> {
    "unexpected content"@
}

/// Why content is of no use: the reason the codec gave, or that it is of another kind.
pub open spec fn failure_text<G: GameLogic>(content: Content<G>) -> Seq<char> {
    match content {
        Content::Failed(reason) => reason@,
        _ => unexpected_content_message(),
    }
}

impl<G: GameLogic> Outcome<G> {
    /// True when nothing is written and nothing told.
    pub open spec fn is_nothing(self) -> bool {
        self.write is None && self.event is None
    }

    /// True when nothing is written and the user is told this event.
    pub open spec fn tells(self, event: UiEvent<G>) -> bool {
        self.write is None && self.event == Some(event)
    }

    /// True when this is written and the user is told nothing.
    pub open spec fn writes(self, write: Write<G>) -> bool {
        self.write == Some(write) && self.event is None
    }

    /// True when nothing is written and the user is told of an error, in these words.
    pub open spec fn reports(self, text: Seq<char>) -> bool {
        self.write is None && (self.event matches Some(UiEvent::Error(message)) && message@
            == text)
    }

    /// Nothing to do.
    pub fn nothing() -> (r: Outcome<G>)
        ensures
            r.is_nothing(),
    {
        Outcome { write: None, event: None }
    }

    /// Tell the user.
    pub fn tell(event: UiEvent<G>) -> (r: Outcome<G>)
        ensures
            r.tells(event),
    {
        Outcome { write: None, event: Some(event) }
    }

    /// Write into the document.
    pub fn put(write: Write<G>) -> (r: Outcome<G>)
        ensures
            r.writes(write),
    {
        Outcome { write: Some(write), event: None }
    }

    /// Tell the user of an error.
    pub fn report(message: String) -> (r: Outcome<G>)
        ensures
            r.reports(message@),
            r.tells(UiEvent::Error(message)),
    {
        Outcome { write: None, event: Some(UiEvent::Error(message)) }
    }
}

/// Why content is of no use.
pub fn failure_reason<G: GameLogic>(content: Content<G>) -> (r: String)
    ensures
        r@ == failure_text(content),
{
    match content {
        Content::Failed(reason) => reason,
        _ => "unexpected content".to_owned(),
    }
}

/// What the content behind a key is to be read as.
pub open spec fn content_kind_of(key: Seq<u8>) -> ContentKind {
    if key_has_prefix(key, PREFIX_JOIN@) {
        ContentKind::Profile
    } else if key_has_prefix(key, PREFIX_ACTION@) {
        ContentKind::Action
    } else if key_has_prefix(key, PREFIX_CHAT@) {
        ContentKind::Chat
    } else if key_has_prefix(key, PREFIX_PEER@) {
        ContentKind::Unread
    } else if key == ascii_bytes(KEY_GAME_STATE@) {
        ContentKind::GameState
    } else if key == ascii_bytes(KEY_APP_STATE@) {
        ContentKind::AppState
    } else if key == ascii_bytes(KEY_HOST_ID@) {
        ContentKind::HostId
    } else {
        ContentKind::Unread
    }
}

/// Tells what the content of an entry is to be read as, before the entry is processed.
pub fn expected_content(entry: &Entry) -> (r: ContentKind)
    ensures
        r == content_kind_of(entry.key@),
{
    if entry.is_join().is_some() {
        ContentKind::Profile
    } else if entry.is_action_request().is_some() {
        ContentKind::Action
    } else if entry.is_chat_message().is_some() {
        ContentKind::Chat
    } else if entry.is_peer_entry() {
        ContentKind::Unread
    } else if entry.is_game_state_update() {
        ContentKind::GameState
    } else if entry.is_app_state_update() {
        ContentKind::AppState
    } else if entry.is_host_update() {
        ContentKind::HostId
    } else {
        ContentKind::Unread
    }
}

/// What the host does about a peer's announcement of itself; other peers do nothing.
pub open spec fn join_outcome<G: GameLogic>(
    r: Outcome<G>,
    hosting: Result<bool, String>,
    joiner: Result<EndpointId, String>,
    content: Content<G>,
    app_state: Read<AppState>,
) -> bool {
    match hosting {
        Err(reason) => r.reports(reason@),
        Ok(false) => r.is_nothing(),
        Ok(true) => match joiner {
            Err(message) => r.reports(message@),
            Ok(id) => match content {
                Content::Profile(profile) => r.writes(
                    Write::Peer { id, info: admitted(id, profile, app_state) },
                ),
                _ => r.reports(
                    about_text(
                        "Failed to parse PeerInfo for "@,
                        hex_text(id@),
                        failure_text(content),
                    ),
                ),
            },
        },
    }
}

/// Reacts to a peer's announcement of itself.
pub fn on_join<G: GameLogic>(
    data: &StateData<G>,
    joiner: Result<EndpointId, String>,
    content: Content<G>,
    host: &Read<Vec<u8>>,
    app_state: &Read<AppState>,
) -> (r: Outcome<G>)
    ensures
        join_outcome(r, names_host(*host, data.endpoint()@), joiner, content, *app_state),
{
    match data.is_host(host) {
        Err(reason) => Outcome::report(reason),
        Ok(false) => Outcome::nothing(),
        Ok(true) => match joiner {
            Err(message) => Outcome::report(message),
            Ok(id) => match content {
                Content::Profile(profile) => Outcome::put(
                    data.insert_peer(&id, profile, app_state),
                ),
                other => {
                    let reason = failure_reason(other);
                    let who = id.to_string();
                    Outcome::report(
                        about("Failed to parse PeerInfo for ", who.as_str(), reason.as_str()),
                    )
                },
            },
        },
    }
}

/// What the host does once the game has judged an action: it writes the
/// state that the game made, or tells its user what the game objected to.
pub open spec fn judged_outcome<G: GameLogic>(
    r: Outcome<G>,
    verdict: Result<(), String>,
    next: G::GameState,
    actor: EndpointId,
    peers: Result<Vec<(Vec<u8>, PeerInfo)>, String>,
) -> bool {
    match verdict {
        Ok(()) => r.writes(Write::GameState(next)),
        Err(objection) => match peers {
            Err(reason) => r.reports(reason@),
            Ok(records) => r.reports(
                about_text("Invalid action from "@, name_in_records(records@, actor@), objection@),
            ),
        },
    }
}

/// Reacts to the game's verdict on an action. `next` is the state as the
/// game left it; `verdict` holds the game's objection in words.
pub fn after_action<G: GameLogic>(
    data: &StateData<G>,
    verdict: Result<(), String>,
    next: G::GameState,
    actor: &EndpointId,
    peers: &Result<Vec<(Vec<u8>, PeerInfo)>, String>,
) -> (r: Outcome<G>)
    ensures
        judged_outcome(r, verdict, next, *actor, *peers),
{
    match verdict {
        Ok(()) => Outcome::put(data.set_game_state(next)),
        Err(objection) => match peers {
            Err(reason) => Outcome::report(reason.clone()),
            Ok(records) => {
                let who = data.get_peer_name(records, actor);
                Outcome::report(about("Invalid action from ", who.as_str(), objection.as_str()))
            },
        },
    }
}

/// What the host does about a peer's request to act, as far as the game has
/// no say in it; `None` where the request goes to the game.
pub open spec fn action_outcome_before_game<G: GameLogic>(
    r: Outcome<G>,
    hosting: Result<bool, String>,
    actor: Result<EndpointId, String>,
    content: Content<G>,
    game_state: Read<G::GameState>,
    peers: Result<Vec<(Vec<u8>, PeerInfo)>, String>,
) -> Option<bool> {
    match hosting {
        Err(reason) => Some(r.reports(reason@)),
        Ok(false) => Some(r.is_nothing()),
        Ok(true) => match actor {
            Err(message) => Some(r.reports(message@)),
            Ok(id) => match game_state {
                Err(reason) => Some(r.reports(reason@)),
                Ok(None) => Some(r.reports(no_game_state_message())),
                Ok(Some(_)) => match content {
                    Content::Action(_) => None,
                    _ => match peers {
                        Err(reason) => Some(r.reports(reason@)),
                        Ok(records) => Some(
                            r.reports(
                                about_text(
                                    "Failed to parse GameAction from "@,
                                    name_in_records(records@, id@),
                                    failure_text(content),
                                ),
                            ),
                        ),
                    },
                },
            },
        },
    }
}

/// What the host does once the game has answered a request to act: it
/// writes the state that the game made, or reports the game's objection, in
/// the game's words, with the name of the peer.
pub open spec fn answered_outcome<G: GameLogic>(
    r: Outcome<G>,
    answer: Result<G::GameState, G::GameError>,
    before: G::GameState,
    actor: EndpointId,
    peers: Result<Vec<(Vec<u8>, PeerInfo)>, String>,
) -> bool {
    match answer {
        Ok(next) => judged_outcome(r, Ok(()), next, actor, peers),
        Err(objection) => exists|words: String| #[trigger]
            vstd::string::to_string_from_display_ensures::<G::GameError>(&objection, words)
                && judged_outcome(r, Err(words), before, actor, peers),
    }
}

/// What the host does about a peer's request to act. Where the request is in
/// order, the game is asked: the host applies the action to the state that
/// the document holds, in the name of the peer that asks.
pub open spec fn action_outcome<G: GameLogic>(
    r: Outcome<G>,
    game: G,
    hosting: Result<bool, String>,
    actor: Result<EndpointId, String>,
    content: Content<G>,
    game_state: Read<G::GameState>,
    peers: Result<Vec<(Vec<u8>, PeerInfo)>, String>,
) -> bool {
    match action_outcome_before_game(r, hosting, actor, content, game_state, peers) {
        Some(holds) => holds,
        None => match (actor, game_state, content) {
            (Ok(id), Ok(Some(state)), Content::Action(action)) => answered_outcome(
                r,
                game.state_after(state, id, action),
                state,
                id,
                peers,
            ),
            _ => true,
        },
    }
}

/// Reacts to a peer's request to act in the game.
pub fn on_action<G: GameLogic>(
    data: &StateData<G>,
    logic: &G,
    actor: Result<EndpointId, String>,
    content: Content<G>,
    host: &Read<Vec<u8>>,
    game_state: Read<G::GameState>,
    peers: &Result<Vec<(Vec<u8>, PeerInfo)>, String>,
) -> (r: Outcome<G>)
    ensures
        action_outcome(
            r,
            *logic,
            names_host(*host, data.endpoint()@),
            actor,
            content,
            game_state,
            *peers,
        ),
{
    match data.is_host(host) {
        Err(reason) => Outcome::report(reason),
        Ok(false) => Outcome::nothing(),
        Ok(true) => match actor {
            Err(message) => Outcome::report(message),
            Ok(id) => match data.get_game_state(game_state) {
                Err(reason) => Outcome::report(reason),
                Ok(state) => match content {
                    Content::Action(action) => {
                        let mut current = state;
                        match logic.apply_action(&mut current, &id, &action) {
                            Ok(()) => after_action(data, Ok(()), current, &id, peers),
                            Err(objection) => {
                                let words = objection.to_string();
                                let r = after_action(data, Err(words), current, &id, peers);
                                assert(vstd::string::to_string_from_display_ensures::<G::GameError>(
                                    &objection,
                                    words,
                                ) && judged_outcome(r, Err(words), state, id, *peers));
                                r
                            },
                        }
                    },
                    other => match peers {
                        Err(reason) => Outcome::report(reason.clone()),
                        Ok(records) => {
                            let who = data.get_peer_name(records, &id);
                            let reason = failure_reason(other);
                            Outcome::report(
                                about(
                                    "Failed to parse GameAction from ",
                                    who.as_str(),
                                    reason.as_str(),
                                ),
                            )
                        },
                    },
                },
            },
        },
    }
}

/// What a peer does about a chat message: it tells its user, with the sender's name.
pub open spec fn chat_outcome<G: GameLogic>(
    r: Outcome<G>,
    sender: Result<EndpointId, String>,
    content: Content<G>,
    peers: Result<Vec<(Vec<u8>, PeerInfo)>, String>,
) -> bool {
    match sender {
        Err(message) => r.reports(message@),
        Ok(id) => match peers {
            Err(reason) => r.reports(reason@),
            Ok(records) => match content {
                Content::Chat(sent) => r.write is None && (r.event matches Some(
                    UiEvent::Chat { sender: name, msg },
                ) && name@ == name_in_records(records@, id@) && msg == sent),
                _ => r.reports(
                    about_text(
                        "Failed to parse ChatMessage from "@,
                        name_in_records(records@, id@),
                        failure_text(content),
                    ),
                ),
            },
        },
    }
}

/// Reacts to a chat message.
pub fn on_chat<G: GameLogic>(
    data: &StateData<G>,
    sender: Result<EndpointId, String>,
    content: Content<G>,
    peers: &Result<Vec<(Vec<u8>, PeerInfo)>, String>,
) -> (r: Outcome<G>)
    ensures
        chat_outcome(r, sender, content, *peers),
{
    match sender {
        Err(message) => Outcome::report(message),
        Ok(id) => match peers {
            Err(reason) => Outcome::report(reason.clone()),
            Ok(records) => {
                let name = data.get_peer_name(records, &id);
                match content {
                    Content::Chat(sent) => Outcome::tell(UiEvent::Chat { sender: name, msg: sent }),
                    other => {
                        let reason = failure_reason(other);
                        Outcome::report(
                            about(
                                "Failed to parse ChatMessage from ",
                                name.as_str(),
                                reason.as_str(),
                            ),
                        )
                    },
                }
            },
        },
    }
}

/// What a peer does when the host's record of a peer changed: it tells its
/// user the peers of the room as it now sees them.
pub open spec fn peer_entry_outcome<G: GameLogic>(
    r: Outcome<G>,
    peers: Result<Vec<(Vec<u8>, PeerInfo)>, String>,
    host: Read<Vec<u8>>,
    disconnected: bool,
) -> bool {
    match peers {
        Err(reason) => r.reports("Failed to get peers list after update: "@ + reason@),
        Ok(records) => match peers_of_records(records@) {
            Some(found) => r.write is None && (r.event matches Some(UiEvent::Peer(list))
                && list@ == reported_peers(found, host, disconnected) && peer_order_of(records@)
                is Some && list.order() == reported_order(
                peer_order_of(records@)->0,
                host,
                disconnected,
            )),
            None => r.write is None && (r.event matches Some(UiEvent::Error(message))
                && peer_list_failure(records@, message@)),
        },
    }
}

/// True when `text` is what is reported where the records do not stand for
/// peers: a label, and then what is reported of the first such record.
pub open spec fn peer_list_failure(records: Seq<(Vec<u8>, PeerInfo)>, text: Seq<char>) -> bool {
    exists|detail: Seq<char>| #[trigger]
        records_fault(records, detail) && text == "Failed to get peers list after update: "@
            + detail
}

/// Reacts to a change of the host's record of a peer.
pub fn on_peer_entry<G: GameLogic>(
    data: &StateData<G>,
    peers: Result<Vec<(Vec<u8>, PeerInfo)>, String>,
    host: &Read<Vec<u8>>,
) -> (r: Outcome<G>)
    ensures
        peer_entry_outcome(r, peers, *host, data.disconnected()),
{
    match peers {
        Err(reason) => Outcome::report(
            labelled("Failed to get peers list after update: ", reason.as_str()),
        ),
        Ok(records) => match data.get_peer_list(records, host) {
            Ok(list) => Outcome::tell(UiEvent::Peer(list)),
            Err(reason) => {
                let text = labelled("Failed to get peers list after update: ", reason.as_str());
                assert(records_fault(records@, reason@));
                Outcome::report(text)
            },
        },
    }
}

/// What a peer does when the game's state changed: it tells its user the state.
pub open spec fn game_state_outcome<G: GameLogic>(r: Outcome<G>, content: Content<G>) -> bool {
    match content {
        Content::GameState(state) => r.tells(UiEvent::GameState(state)),
        _ => r.reports("Failed to parse GameState: "@ + failure_text(content)),
    }
}

/// Reacts to a change of the game's state.
pub fn on_game_state<G: GameLogic>(content: Content<G>) -> (r: Outcome<G>)
    ensures
        game_state_outcome(r, content),
{
    match content {
        Content::GameState(state) => Outcome::tell(UiEvent::GameState(state)),
        other => {
            let reason = failure_reason(other);
            Outcome::report(labelled("Failed to parse GameState: ", reason.as_str()))
        },
    }
}

/// What a peer does when the room's state changed: it tells its user the
/// state that the document holds.
pub open spec fn app_state_outcome<G: GameLogic>(r: Outcome<G>, content: Content<G>) -> bool {
    match content {
        Content::AppState(state) => r.tells(UiEvent::AppState(state)),
        _ => r.reports("Failed to parse AppState: "@ + failure_text(content)),
    }
}

/// Reacts to a change of the room's state.
pub fn on_app_state<G: GameLogic>(content: Content<G>) -> (r: Outcome<G>)
    ensures
        app_state_outcome(r, content),
{
    match content {
        Content::AppState(state) => Outcome::tell(UiEvent::AppState(state)),
        other => {
            let reason = failure_reason(other);
            Outcome::report(labelled("Failed to parse AppState: ", reason.as_str()))
        },
    }
}

/// What a peer tells its user when the room got a host.
pub open spec fn host_update_outcome<G: GameLogic>(
    r: Outcome<G>,
    content: Content<G>,
    peers: Result<Vec<(Vec<u8>, PeerInfo)>, String>,
) -> bool {
    match content {
        Content::HostId(bytes) => match endpoint_key_of_text(text_of_bytes(bytes@)) {
            None => r.write is None && (r.event matches Some(UiEvent::Error(message))
                && parsed_from(Err(message), text_of_bytes(bytes@))),
            Some(id) => match peers {
                Err(reason) => r.reports(reason@),
                Ok(records) => r.write is None && (r.event matches Some(
                    UiEvent::Host(HostEvent::Changed { to }),
                ) && to@ == name_in_records(records@, id)),
            },
        },
        _ => r.reports("Failed to parse HostId: "@ + failure_text(content)),
    }
}

/// Reacts to a change of the host: the host is in reach again, and the user
/// is told the new host's name.
pub fn on_host_update<G: GameLogic>(
    data: &mut StateData<G>,
    content: Content<G>,
    peers: &Result<Vec<(Vec<u8>, PeerInfo)>, String>,
) -> (r: Outcome<G>)
    ensures
        host_update_outcome(r, content, *peers),
        final(data).endpoint() == old(data).endpoint(),
        final(data).disconnected() == (old(data).disconnected() && !(content is HostId)),
{
    match content {
        Content::HostId(bytes) => {
            data.host_online();
            let text = bytes_to_text(bytes.as_slice());
            match endpoint_id_from_str(text.as_str()) {
                Err(message) => Outcome::report(message),
                Ok(id) => match peers {
                    Err(reason) => Outcome::report(reason.clone()),
                    Ok(records) => {
                        let name = data.get_peer_name(records, &id);
                        Outcome::tell(UiEvent::Host(HostEvent::Changed { to: name }))
                    },
                },
            }
        },
        other => {
            let reason = failure_reason(other);
            Outcome::report(labelled("Failed to parse HostId: ", reason.as_str()))
        },
    }
}

/// What a peer does about an announcement that a peer leaves: nothing yet.
pub open spec fn quit_outcome<G: GameLogic>(r: Outcome<G>, quitter: Result<EndpointId, String>) -> bool {
    match quitter {
        Err(message) => r.reports(message@),
        Ok(_) => r.is_nothing(),
    }
}

/// Reacts to an announcement that a peer leaves.
pub fn on_quit<G: GameLogic>(quitter: Result<EndpointId, String>) -> (r: Outcome<G>)
    ensures
        quit_outcome(r, quitter),
{
    match quitter {
        Err(message) => Outcome::report(message),
        Ok(_) => Outcome::nothing(),
    }
}

/// What a peer does about an entry, by the entry's key.
pub open spec fn entry_outcome<G: GameLogic>(
    r: Outcome<G>,
    game: G,
    key: Seq<u8>,
    content: Content<G>,
    view: RoomView<G>,
    me: EndpointId,
    disconnected: bool,
) -> bool {
    let hosting = names_host(view.host, me@);
    if key_has_prefix(key, PREFIX_JOIN@) {
        exists|joiner: Result<EndpointId, String>| #[trigger]
            parsed_from(joiner, text_after(key, PREFIX_JOIN@)) && join_outcome(
                r,
                hosting,
                joiner,
                content,
                view.app_state,
            )
    } else if key_has_prefix(key, PREFIX_ACTION@) {
        exists|actor: Result<EndpointId, String>| #[trigger]
            parsed_from(actor, text_after(key, PREFIX_ACTION@)) && action_outcome(
                r,
                game,
                hosting,
                actor,
                content,
                view.game_state,
                view.peers,
            )
    } else if key_has_prefix(key, PREFIX_CHAT@) {
        exists|sender: Result<EndpointId, String>| #[trigger]
            parsed_from(sender, text_after_last_dot(key)) && chat_outcome(
                r,
                sender,
                content,
                view.peers,
            )
    } else if key_has_prefix(key, PREFIX_PEER@) {
        peer_entry_outcome(r, view.peers, view.host, disconnected)
    } else if key == ascii_bytes(KEY_GAME_STATE@) {
        game_state_outcome(r, content)
    } else if key == ascii_bytes(KEY_APP_STATE@) {
        app_state_outcome(r, content)
    } else if key == ascii_bytes(KEY_HOST_ID@) {
        host_update_outcome(r, content, view.peers)
    } else if key_has_prefix(key, PREFIX_QUIT@) {
        exists|quitter: Result<EndpointId, String>| #[trigger]
            parsed_from(quitter, text_after(key, PREFIX_QUIT@)) && quit_outcome(r, quitter)
    } else {
        r.is_nothing()
    }
}

/// True when the entry is the news of a host and its content was read as such.
pub open spec fn is_host_news<G: GameLogic>(key: Seq<u8>, content: Content<G>) -> bool {
    content_kind_of(key) == ContentKind::HostId && content is HostId
}

/// Reacts to an entry of the document whose content was read as
/// [`expected_content`] asks.
///
/// Only the host reacts to announcements and requests, and its reaction is a
/// write; every peer turns the host's writes into news for its user. News of
/// a host puts the host in reach again.
pub fn process_entry<G: GameLogic>(
    entry: &Entry,
    content: Content<G>,
    view: RoomView<G>,
    data: &mut StateData<G>,
    logic: &G,
) -> (r: Outcome<G>)
    ensures
        entry_outcome(
            r,
            *logic,
            entry.key@,
            content,
            view,
            old(data).endpoint(),
            old(data).disconnected(),
        ),
        final(data).endpoint() == old(data).endpoint(),
        final(data).disconnected() == (old(data).disconnected() && !is_host_news(
            entry.key@,
            content,
        )),
{
    let RoomView { host, app_state, game_state, peers } = view;
    if let Some(joiner) = entry.is_join() {
        return on_join(data, joiner, content, &host, &app_state);
    } else if let Some(actor) = entry.is_action_request() {
        return on_action(data, logic, actor, content, &host, game_state, &peers);
    }
    if let Some(sender) = entry.is_chat_message() {
        on_chat(data, sender, content, &peers)
    } else if entry.is_peer_entry() {
        on_peer_entry(data, peers, &host)
    } else if entry.is_game_state_update() {
        on_game_state(content)
    } else if entry.is_app_state_update() {
        on_app_state(content)
    } else if entry.is_host_update() {
        on_host_update(data, content, &peers)
    } else if let Some(quitter) = entry.is_quit_request() {
        on_quit(quitter)
    } else {
        Outcome::nothing()
    }
}

} // verus!
