//! What a peer writes into the document.

use super::{AppState, LeaveReason, Read, StateData, Write};
use crate::endpoint::EndpointId;
use crate::error::AppError;
use crate::logic::GameLogic;
use crate::peer::{PeerInfo, PeerProfile, PeerStatus};
use crate::room::chat::ChatMessage;
use crate::room::{action_write, submitted};
use vstd::prelude::*;

verus! {

/// The record that the host writes for a peer that announces itself: online,
/// not ready, and an observer exactly where the game is already running.
pub open spec fn admitted(id: EndpointId, profile: PeerProfile, app_state: Read<AppState>) -> PeerInfo {
    PeerInfo {
        id,
        profile,
        status: PeerStatus::Online,
        ready: false,
        is_observer: app_state == Ok::<Option<AppState>, String>(Some(AppState::InGame)),
    }
}

impl<G: GameLogic> StateData<G> {
    /// The write that sets the room's state. `Paused` is no state of the
    /// document: a peer reports it of itself, and nobody writes it.
    pub fn set_app_state(&self, state: &AppState) -> (r: Write<G>)
        requires
            *state != AppState::Paused,
        ensures
            r == Write::<G>::AppState(*state),
    {
        Write::AppState(*state)
    }

    /// The write that sets the game's state.
    pub fn set_game_state(&self, state: G::GameState) -> (r: Write<G>)
        ensures
            r == Write::<G>::GameState(state),
    {
        Write::GameState(state)
    }

    /// The write by which this peer takes the host's authority. It depends on
    /// this peer's identity alone, so that claiming again writes the same.
    pub fn claim_host(&self) -> (r: Write<G>)
        ensures
            r == Write::<G>::HostId(self.endpoint()),
    {
        Write::HostId(self.endpoint_id)
    }

    /// The write that sends a chat message now, in this peer's name.
    pub fn send_chat(&self, message: &str) -> (r: Result<Write<G>, String>)
        ensures
            r matches Ok(write) ==> write matches Write::Chat(sent) && sent.from
                == self.endpoint() && sent.message@ == message@,
    {
        self.chat_write(ChatMessage::new(self.endpoint_id, message))
    }

    /// The write that sends a message, once the message is made: a chat write
    /// of that message, or the reason why no message could be made.
    pub fn chat_write(&self, sent: Result<ChatMessage, String>) -> (r: Result<Write<G>, String>)
        ensures
            r == (match sent {
                Ok(message) => Ok::<Write<G>, String>(Write::Chat(message)),
                Err(reason) => Err::<Write<G>, String>(reason),
            }),
    {
        match sent {
            Ok(message) => Ok(Write::Chat(message)),
            Err(reason) => Err(reason),
        }
    }

    /// The write that adds a peer that has just been seen, or sets its
    /// record anew: the peer is online and not ready, and it observes exactly
    /// where the document says that the room is in the game.
    pub fn insert_peer(
        &self,
        peer_id: &EndpointId,
        profile: PeerProfile,
        app_state: &Read<AppState>,
    ) -> (r: Write<G>)
        ensures
            r == (Write::<G>::Peer { id: *peer_id, info: admitted(*peer_id, profile, *app_state) }),
    {
        let in_game = match app_state {
            Ok(Some(AppState::InGame)) => true,
            _ => false,
        };
        let info = PeerInfo {
            id: *peer_id,
            profile,
            status: PeerStatus::Online,
            ready: false,
            is_observer: in_game,
        };
        self.update_peer(peer_id, info)
    }

    /// The write that sets a peer's record, or adds the peer.
    pub fn update_peer(&self, peer_id: &EndpointId, peer_info: PeerInfo) -> (r: Write<G>)
        ensures
            r == (Write::<G>::Peer { id: *peer_id, info: peer_info }),
    {
        Write::Peer { id: *peer_id, info: peer_info }
    }

    /// The write that sets a peer's status, where the peer has a record;
    /// nothing is written for a peer that has none.
    pub fn set_peer_status(
        &self,
        peer_id: &EndpointId,
        status: PeerStatus,
        record: Option<PeerInfo>,
    ) -> (r: Option<Write<G>>)
        ensures
            r == match record {
                Some(info) => Some(Write::<G>::Peer { id: *peer_id, info: PeerInfo { status, ..info } }),
                None => None,
            },
    {
        match record {
            Some(info) => Some(self.update_peer(peer_id, info.with_status(status))),
            None => None,
        }
    }

    /// The write by which this peer says that it leaves, and why.
    pub fn announce_leave(self, reason: LeaveReason<G>) -> (r: Write<G>)
        ensures
            r == (Write::<G>::Quit { id: self.endpoint(), reason }),
    {
        Write::Quit { id: self.endpoint_id, reason }
    }

    /// The write by which this peer says that it is here.
    pub fn announce_presence(&self, introduction: PeerProfile) -> (r: Write<G>)
        ensures
            r == (Write::<G>::Join { id: self.endpoint(), profile: introduction }),
    {
        Write::Join { id: self.endpoint_id, profile: introduction }
    }

    /// The write by which this peer asks for an action in the game, once the
    /// game has judged the action here: the request, which takes the place of
    /// this peer's earlier one, or the game's objection and no write.
    pub fn submit_action(&self, verdict: Result<(), G::GameError>, action: G::GameAction) -> (r:
        Result<Write<G>, AppError<G>>)
        ensures
            submitted(r, verdict, self.endpoint(), action),
    {
        action_write(self.endpoint_id, verdict, action)
    }
}

} // verus!
