//! The contract between a room and the game that is played in it.

use crate::endpoint::EndpointId;
use crate::peer::PeerMap;
use vstd::prelude::*;

verus! {

/// A turn-based game, as far as a room needs to know it.
///
/// The room never looks into the game's values: it hands them to the game and
/// stores what comes back. A game is deterministic: what an operation gives
/// depends on what it is given and on nothing else. The `spec` functions name
/// what each operation gives, and the room's contracts speak of the game
/// through them. An implementation that is not verified writes each of them
/// as the operation itself on values of its own; what is proved of a room
/// holds of a game that keeps to this.
pub trait GameLogic: Sized + core::fmt::Debug + Send + Sync + 'static {
    /// The state of a game.
    type GameState: Clone + core::fmt::Debug + Send + Sync;

    /// What a player can do.
    type GameAction: Clone + core::fmt::Debug + Send + Sync;

    /// The part that a player has in a game.
    type PlayerRole: Clone + core::fmt::Debug + Send + Sync;

    /// The game's own reasons for a player to leave.
    type PlayerLeaveReason: Clone + core::fmt::Debug + Send + Sync;

    /// What the game can object to.
    type GameError: core::fmt::Display + core::fmt::Debug + Send + Sync;

    /// The roles that `assign_roles` gives to these peers.
    spec fn roles_for(&self, players: PeerMap) -> Vec<(EndpointId, Self::PlayerRole)>;

    /// The state that `initial_state` makes from these roles.
    spec fn state_from(&self, roles: Vec<(EndpointId, Self::PlayerRole)>) -> Self::GameState;

    /// What `apply_action` makes of a state: the next state, or the objection.
    spec fn state_after(
        &self,
        state: Self::GameState,
        player: EndpointId,
        action: Self::GameAction,
    ) -> Result<Self::GameState, Self::GameError>;

    /// What `start_conditions_met` says of these peers and this state.
    spec fn start_verdict(&self, players: PeerMap, state: Self::GameState) -> Result<
        (),
        Self::GameError,
    >;

    /// Gives each player its role, once, when the host starts the game. No
    /// identity gets two roles.
    fn assign_roles(&self, players: &PeerMap) -> (r: Vec<(EndpointId, Self::PlayerRole)>)
        ensures
            r == self.roles_for(*players),
            each_identity_once(r@),
    ;

    /// Makes the state in which the game begins.
    fn initial_state(&self, roles: &Vec<(EndpointId, Self::PlayerRole)>) -> (r: Self::GameState)
        ensures
            r == self.state_from(*roles),
    ;

    /// Checks an action and, where it is in order, applies it to the state.
    /// Where the game objects, the state is of no account.
    fn apply_action(
        &self,
        current_state: &mut Self::GameState,
        player_id: &EndpointId,
        action: &Self::GameAction,
    ) -> (r: Result<(), Self::GameError>)
        ensures
            match self.state_after(*old(current_state), *player_id, *action) {
                Ok(next) => r is Ok && *final(current_state) == next,
                Err(objection) => r == Err::<(), Self::GameError>(objection),
            },
    ;

    /// Says whether the game can start with these peers.
    fn start_conditions_met(&self, players: &PeerMap, current_state: &Self::GameState) -> (r:
        Result<(), Self::GameError>)
        ensures
            r == self.start_verdict(*players, *current_state),
    ;

    /// Lets the game react to a player that is gone.
    fn handle_player_disconnect(
        &self,
        players: &mut PeerMap,
        player_id: &EndpointId,
        current_state: &mut Self::GameState,
    ) -> (r: Result<(), Self::GameError>);

    /// Lets the game react to a player that is back.
    fn handle_player_reconnect(
        &self,
        players: &mut PeerMap,
        player_id: &EndpointId,
        current_state: &mut Self::GameState,
    ) -> (r: Result<(), Self::GameError>);
}

/// True when no identity stands twice in a list of roles.
pub open spec fn each_identity_once<R>(roles: Seq<(EndpointId, R)>) -> bool {
    forall|i: int, j: int|
        0 <= i < j < roles.len() ==> (#[trigger] roles[i]).0@ != (#[trigger] roles[j]).0@
}

/// The game's verdict on an action, without the state that it made.
pub open spec fn verdict_of<S, E>(answer: Result<S, E>) -> Result<(), E> {
    match answer {
        Ok(_) => Ok(()),
        Err(objection) => Err(objection),
    }
}

} // verus!
