//! The room: the state machine that coordinates peers over the shared document.

pub mod chat;
pub mod events;
pub mod state;

pub use chat::ChatMessage;
pub use events::{HostEvent, UiEvent};
pub use state::{classify, AppState, EntryKind, GameKey, LeaveReason, StateData};

use crate::document::{Entry, LiveEvent};
use crate::endpoint::EndpointId;
use crate::error::AppError;
use crate::logic::{verdict_of, GameLogic};
use crate::peer::PeerMap;
use events::pipeline::{disconnected_after, event_outcome, handle_event};
use events::process::{Content, Outcome, RoomView};
use events::{parsed_event, pending_after, NetworkEvent, PendingEntries};
use state::queries::{
    names_host, no_app_state_message, no_game_state_message, peer_order_of, peers_of_records,
    records_fault,
};
use state::{Read, Write};
use vstd::prelude::*;

verus! {

/// What a peer is told that asks to start a game without being the host.
pub open spec fn not_host_message() -> Seq<char> {
    "Only the host can start the game"@
}

/// What the host is told that asks to start a game outside the lobby.
pub open spec fn already_started_message() -> Seq<char> {
    "Game has already started"@
}

/// Why a game cannot be started, as far as the game has no say in it;
/// `None` where the room is in order for a start.
pub open spec fn start_refusal<G: GameLogic>(
    hosting: Result<bool, String>,
    app_state: Read<AppState>,
    disconnected: bool,
    r: Result<Vec<Write<G>>, AppError<G>>,
) -> Option<bool> {
    match hosting {
        Err(reason) => Some(r matches Err(AppError::Network(message)) && message == reason),
        Ok(false) => Some(
            r matches Err(AppError::InvalidAction(message)) && message@ == not_host_message(),
        ),
        Ok(true) => if disconnected {
            Some(
                r matches Err(AppError::InvalidAction(message)) && message@
                    == already_started_message(),
            )
        } else {
            match app_state {
                Err(reason) => Some(
                    r matches Err(AppError::StateParse(message)) && message == reason,
                ),
                Ok(None) => Some(
                    r matches Err(AppError::StateParse(message)) && message@
                        == no_app_state_message(),
                ),
                Ok(Some(state)) => if state == AppState::Lobby {
                    None
                } else {
                    Some(
                        r matches Err(AppError::InvalidAction(message)) && message@
                            == already_started_message(),
                    )
                },
            }
        },
    }
}

/// What starting a game comes to once the game has said whether it can
/// start: the game's first state is written before the room's new state, so
/// that a peer that sees the room in the game finds a game state; or the
/// game's objection is handed back.
pub open spec fn start_result<G: GameLogic>(
    r: Result<Vec<Write<G>>, AppError<G>>,
    verdict: Result<(), G::GameError>,
    initial: G::GameState,
) -> bool {
    match verdict {
        Ok(()) => r matches Ok(writes) && writes@ == seq![
            Write::<G>::GameState(initial),
            Write::<G>::AppState(AppState::InGame),
        ],
        Err(objection) => r matches Err(AppError::Game(found)) && found == objection,
    }
}

/// The writes that start a game, or the game's objection.
pub fn start_writes<G: GameLogic>(verdict: Result<(), G::GameError>, initial: G::GameState) -> (r:
    Result<Vec<Write<G>>, AppError<G>>)
    ensures
        start_result(r, verdict, initial),
{
    match verdict {
        Ok(()) => {
            let mut writes: Vec<Write<G>> = Vec::new();
            writes.push(Write::GameState(initial));
            writes.push(Write::AppState(AppState::InGame));
            assert(writes@ =~= seq![
                Write::<G>::GameState(initial),
                Write::<G>::AppState(AppState::InGame),
            ]);
            Ok(writes)
        },
        Err(objection) => Err(AppError::Game(objection)),
    }
}

/// What starting a game comes to with these players, who stand in the order
/// of their first records in the document: the game gives them
/// their roles, makes its first state from the roles, and says whether it can
/// start with them.
pub open spec fn started_with<G: GameLogic>(
    r: Result<Vec<Write<G>>, AppError<G>>,
    game: G,
    players: PeerMap,
) -> bool {
    let initial = game.state_from(game.roles_for(players));
    start_result(r, game.start_verdict(players, initial), initial)
}

/// What asking for an action comes to once the game has judged the action:
/// the request to the host, or the game's objection and no request.
pub open spec fn submitted<G: GameLogic>(
    r: Result<Write<G>, AppError<G>>,
    verdict: Result<(), G::GameError>,
    id: EndpointId,
    action: G::GameAction,
) -> bool {
    match verdict {
        Ok(()) => r == Ok::<Write<G>, AppError<G>>(Write::Action { id, action }),
        Err(objection) => r matches Err(AppError::Game(found)) && found == objection,
    }
}

/// The request of the peer `id` for an action that the game has judged here,
/// or the game's objection.
pub fn action_write<G: GameLogic>(
    id: EndpointId,
    verdict: Result<(), G::GameError>,
    action: G::GameAction,
) -> (r: Result<Write<G>, AppError<G>>)
    ensures
        submitted(r, verdict, id, action),
{
    match verdict {
        Ok(()) => Ok(Write::Action { id, action }),
        Err(objection) => Err(AppError::Game(objection)),
    }
}

/// A peer's part in a room: what it knows beside the document, the game, and
/// the entries that wait for their content.
pub struct GameRoom<G: GameLogic> {
    state: StateData<G>,
    logic: G,
    pending: PendingEntries,
}

impl<G: GameLogic> std::ops::Deref for GameRoom<G> {
    type Target = StateData<G>;

    /// What this peer knows beside the document; its methods make this peer's writes.
    fn deref(&self) -> (r: &StateData<G>)
        ensures
            *r == self.data(),
    {
        &self.state
    }
}

impl<G: GameLogic> GameRoom<G> {
    /// What this peer knows beside the document.
    pub closed spec fn data(&self) -> StateData<G> {
        self.state
    }

    /// The game that is played in the room.
    pub closed spec fn game(&self) -> G {
        self.logic
    }

    /// The entries that wait for their content.
    pub closed spec fn waiting(&self) -> Seq<Entry> {
        self.pending@
    }

    fn new(state: StateData<G>, logic: G) -> (r: GameRoom<G>)
        ensures
            r.data() == state,
            r.game() == logic,
            r.waiting() == Seq::<Entry>::empty(),
    {
        GameRoom { state, logic, pending: PendingEntries::new() }
    }

    /// This peer's identity.
    pub fn id(&self) -> (r: EndpointId)
        ensures
            r == self.data().endpoint(),
    {
        self.state.id()
    }

    /// What this peer knows beside the document; its methods make this peer's writes.
    pub fn state(&self) -> (r: &StateData<G>)
        ensures
            *r == self.data(),
    {
        &self.state
    }

    /// The game that is played in the room.
    pub fn logic(&self) -> (r: &G)
        ensures
            *r == self.game(),
    {
        &self.logic
    }

    /// Opens a room as its host: the room begins in the lobby, and this peer
    /// claims it. The writes are to be made in their order.
    pub fn create(logic: G, endpoint_id: EndpointId) -> (r: (GameRoom<G>, Vec<Write<G>>))
        ensures
            r.0.data().endpoint() == endpoint_id,
            r.0.game() == logic,
            !r.0.data().disconnected(),
            r.0.waiting() == Seq::<Entry>::empty(),
            r.1@ == seq![Write::<G>::AppState(AppState::Lobby), Write::<G>::HostId(endpoint_id)],
    {
        let state = StateData::new(endpoint_id);
        let mut writes: Vec<Write<G>> = Vec::new();
        writes.push(state.set_app_state(&AppState::Lobby));
        writes.push(state.claim_host());
        assert(writes@ =~= seq![
            Write::<G>::AppState(AppState::Lobby),
            Write::<G>::HostId(endpoint_id),
        ]);
        (GameRoom::new(state, logic), writes)
    }

    /// Enters a room that another peer opened. Nothing is written: the peer
    /// announces itself when it sees fit.
    pub fn join(logic: G, endpoint_id: EndpointId) -> (r: GameRoom<G>)
        ensures
            r.data().endpoint() == endpoint_id,
            r.game() == logic,
            !r.data().disconnected(),
            r.waiting() == Seq::<Entry>::empty(),
    {
        GameRoom::new(StateData::new(endpoint_id), logic)
    }

    /// Starts the game. Only the host can, and only from the lobby; the game
    /// is asked whether it can start with the peers of the room.
    pub fn start_game(&self, view: RoomView<G>) -> (r: Result<Vec<Write<G>>, AppError<G>>)
        ensures
            match start_refusal(
                names_host(view.host, self.data().endpoint()@),
                view.app_state,
                self.data().disconnected(),
                r,
            ) {
                Some(holds) => holds,
                None => match view.peers {
                    Err(reason) => r matches Err(AppError::Network(message)) && message == reason,
                    Ok(records) => match peers_of_records(records@) {
                        None => r matches Err(AppError::StateParse(message)) && records_fault(
                            records@,
                            message@,
                        ),
                        Some(found) => exists|players: PeerMap| #[trigger]
                            started_with(r, self.game(), players) && players@ == found
                                && peer_order_of(records@) == Some(players.order()),
                    },
                },
            },
    {
        let RoomView { host, app_state, game_state: _, peers } = view;
        match self.state.is_host(&host) {
            Err(reason) => {
                return Err(AppError::Network(reason));
            },
            Ok(false) => {
                return Err(AppError::InvalidAction("Only the host can start the game".to_owned()));
            },
            Ok(true) => {},
        }
        match self.state.get_app_state(app_state) {
            Err(reason) => {
                return Err(AppError::StateParse(reason));
            },
            Ok(AppState::Lobby) => {},
            Ok(_) => {
                return Err(AppError::InvalidAction("Game has already started".to_owned()));
            },
        }
        let records = match peers {
            Err(reason) => {
                return Err(AppError::Network(reason));
            },
            Ok(records) => records,
        };
        let players = match self.state.get_peer_list(records, &host) {
            Err(reason) => {
                return Err(AppError::StateParse(reason));
            },
            Ok(players) => players,
        };
        let roles = self.logic.assign_roles(&players);
        let initial = self.logic.initial_state(&roles);
        let verdict = self.logic.start_conditions_met(&players, &initial);
        let r = start_writes(verdict, initial);
        assert(!self.state.disconnected());
        assert(started_with(r, self.game(), players) && players@ == peers_of_records(
            records@,
        )->0 && peer_order_of(records@) == Some(players.order()));
        r
    }

    /// Asks for an action in the game. The action is first judged here, on
    /// the game state that the document holds: where the game objects, the
    /// objection comes back and nothing is to be written. `stored` is what
    /// this peer read under `game_state`.
    pub fn submit_action(&self, stored: Read<G::GameState>, action: G::GameAction) -> (r: Result<
        Write<G>,
        AppError<G>,
    >)
        ensures
            match stored {
                Err(reason) => r matches Err(AppError::StateParse(message)) && message == reason,
                Ok(None) => r matches Err(AppError::StateParse(message)) && message@
                    == no_game_state_message(),
                Ok(Some(state)) => submitted(
                    r,
                    verdict_of(self.game().state_after(state, self.data().endpoint(), action)),
                    self.data().endpoint(),
                    action,
                ),
            },
    {
        let mut trial = match self.state.get_game_state(stored) {
            Ok(state) => state,
            Err(reason) => {
                return Err(AppError::StateParse(reason));
            },
        };
        let me = self.state.id();
        let verdict = self.logic.apply_action(&mut trial, &me, &action);
        action_write(me, verdict, action)
    }

    /// Takes an event of the document's change stream. What comes back are
    /// the events for the room, in the order in which the room is to handle
    /// them: an entry whose content is not here yet waits in the room until
    /// its content is ready, and then every entry that waits for that
    /// content comes back, in the order of arrival.
    pub fn receive(&mut self, event: LiveEvent) -> (r: Vec<NetworkEvent>)
        ensures
            r@ == parsed_event(event, old(self).waiting()),
            final(self).waiting() == pending_after(event, old(self).waiting()),
            final(self).data() == old(self).data(),
            final(self).game() == old(self).game(),
    {
        NetworkEvent::parse(event, &mut self.pending)
    }

    /// Reacts to an event. For an entry, `content` is the entry's content read
    /// as its key asks, and `view` what the document holds now.
    pub fn handle(&mut self, event: NetworkEvent, content: Content<G>, view: RoomView<G>) -> (r:
        Outcome<G>)
        ensures
            event_outcome(
                r,
                old(self).game(),
                event,
                content,
                view,
                old(self).data().endpoint(),
                old(self).data().disconnected(),
            ),
            final(self).data().endpoint() == old(self).data().endpoint(),
            final(self).data().disconnected() == disconnected_after(
                old(self).data().disconnected(),
                event,
                content,
                view.host,
                old(self).data().endpoint(),
            ),
            final(self).waiting() == old(self).waiting(),
            final(self).game() == old(self).game(),
    {
        handle_event(event, content, view, &mut self.state, &self.logic)
    }
}

} // verus!
