//! How a room reacts to each event of the document's change stream.

use super::process::{entry_outcome, is_host_news, process_entry, Content, Outcome, RoomView};
use super::{HostEvent, NetworkEvent, UiEvent};
use crate::endpoint::EndpointId;
use crate::logic::GameLogic;
use crate::peer::{PeerInfo, PeerStatus};
use crate::room::state::queries::{names_host, record_of};
use crate::room::state::{Read, StateData, Write};
use crate::text::labelled;
use vstd::prelude::*;

verus! {

/// The news of the host that goes with a status.
pub open spec fn host_news(status: PeerStatus) -> HostEvent {
    match status {
        PeerStatus::Online => HostEvent::Online,
        PeerStatus::Offline => HostEvent::Offline,
    }
}

/// True when the value under `host_id` is known to name the peer `id`.
pub open spec fn known_host(host: Read<Vec<u8>>, id: EndpointId) -> bool {
    names_host(host, id@) == Ok::<bool, String>(true)
}

/// What a peer does when the peer `id` comes into reach or goes out of it.
///
/// The host sets the status in its record of that peer, where it has one.
/// Another peer cares for the host alone, and tells its user.
pub open spec fn neighbor_outcome<G: GameLogic>(
    r: Outcome<G>,
    id: EndpointId,
    status: PeerStatus,
    host: Read<Vec<u8>>,
    peers: Result<Vec<(Vec<u8>, PeerInfo)>, String>,
    me: EndpointId,
) -> bool {
    if known_host(host, me) {
        match peers {
            Ok(records) => match record_of(records@, id@) {
                Some(info) => r.writes(Write::Peer { id, info: PeerInfo { status, ..info } }),
                None => r.is_nothing(),
            },
            Err(_) => r.is_nothing(),
        }
    } else if known_host(host, id) {
        r.tells(UiEvent::Host(host_news(status)))
    } else {
        r.is_nothing()
    }
}

/// Whether a peer takes the host to be out of reach after the peer `id` came
/// into reach or went out of it.
pub open spec fn disconnected_after_neighbor(
    before: bool,
    id: EndpointId,
    status: PeerStatus,
    host: Read<Vec<u8>>,
    me: EndpointId,
) -> bool {
    if !known_host(host, me) && known_host(host, id) {
        status == PeerStatus::Offline
    } else {
        before
    }
}

/// Reacts to a peer that comes into reach (`Online`) or goes out of it (`Offline`).
pub fn on_neighbor<G: GameLogic>(
    data: &mut StateData<G>,
    id: EndpointId,
    status: PeerStatus,
    host: &Read<Vec<u8>>,
    peers: &Result<Vec<(Vec<u8>, PeerInfo)>, String>,
) -> (r: Outcome<G>)
    ensures
        neighbor_outcome(r, id, status, *host, *peers, old(data).endpoint()),
        final(data).endpoint() == old(data).endpoint(),
        final(data).disconnected() == disconnected_after_neighbor(
            old(data).disconnected(),
            id,
            status,
            *host,
            old(data).endpoint(),
        ),
{
    let hosting = match data.is_host(host) {
        Ok(hosting) => hosting,
        Err(_) => false,
    };
    if hosting {
        let record = match peers {
            Ok(records) => data.get_peer_info(records, &id),
            Err(_) => None,
        };
        return match data.set_peer_status(&id, status, record) {
            Some(write) => Outcome::put(write),
            None => Outcome::nothing(),
        };
    }
    let of_host = match data.is_peer_host(&id, host) {
        Ok(of_host) => of_host,
        Err(_) => false,
    };
    if of_host {
        match status {
            PeerStatus::Online => {
                data.host_online();
                Outcome::tell(UiEvent::Host(HostEvent::Online))
            },
            PeerStatus::Offline => {
                data.host_offline();
                Outcome::tell(UiEvent::Host(HostEvent::Offline))
            },
        }
    } else {
        Outcome::nothing()
    }
}

/// What a peer tells its user when a sync failed.
pub fn on_sync_failed<G: GameLogic>(reason: String) -> (r: Outcome<G>)
    ensures
        r.reports("Sync failed: "@ + reason@),
{
    Outcome::report(labelled("Sync failed: ", reason.as_str()))
}

/// What a peer does about an event.
pub open spec fn event_outcome<G: GameLogic>(
    r: Outcome<G>,
    game: G,
    event: NetworkEvent,
    content: Content<G>,
    view: RoomView<G>,
    me: EndpointId,
    disconnected: bool,
) -> bool {
    match event {
        NetworkEvent::Update(entry) => entry_outcome(
            r,
            game,
            entry.key@,
            content,
            view,
            me,
            disconnected,
        ),
        NetworkEvent::Joiner(id) => neighbor_outcome(
            r,
            id,
            PeerStatus::Online,
            view.host,
            view.peers,
            me,
        ),
        NetworkEvent::Leaver(id) => neighbor_outcome(
            r,
            id,
            PeerStatus::Offline,
            view.host,
            view.peers,
            me,
        ),
        NetworkEvent::SyncFailed(reason) => r.reports("Sync failed: "@ + reason@),
        NetworkEvent::SyncSucceeded => r.is_nothing(),
    }
}

/// Whether a peer takes the host to be out of reach after an event.
pub open spec fn disconnected_after<G: GameLogic>(
    before: bool,
    event: NetworkEvent,
    content: Content<G>,
    host: Read<Vec<u8>>,
    me: EndpointId,
) -> bool {
    match event {
        NetworkEvent::Update(entry) => before && !is_host_news(entry.key@, content),
        NetworkEvent::Joiner(id) => disconnected_after_neighbor(
            before,
            id,
            PeerStatus::Online,
            host,
            me,
        ),
        NetworkEvent::Leaver(id) => disconnected_after_neighbor(
            before,
            id,
            PeerStatus::Offline,
            host,
            me,
        ),
        _ => before,
    }
}

/// Reacts to one event. For an entry, `content` is the entry's content, read
/// as its key asks; for every other event it is not looked at.
pub fn handle_event<G: GameLogic>(
    event: NetworkEvent,
    content: Content<G>,
    view: RoomView<G>,
    data: &mut StateData<G>,
    logic: &G,
) -> (r: Outcome<G>)
    ensures
        event_outcome(
            r,
            *logic,
            event,
            content,
            view,
            old(data).endpoint(),
            old(data).disconnected(),
        ),
        final(data).endpoint() == old(data).endpoint(),
        final(data).disconnected() == disconnected_after(
            old(data).disconnected(),
            event,
            content,
            view.host,
            old(data).endpoint(),
        ),
{
    match event {
        NetworkEvent::Update(entry) => process_entry(&entry, content, view, data, logic),
        NetworkEvent::Joiner(id) => on_neighbor(
            data,
            id,
            PeerStatus::Online,
            &view.host,
            &view.peers,
        ),
        NetworkEvent::Leaver(id) => on_neighbor(
            data,
            id,
            PeerStatus::Offline,
            &view.host,
            &view.peers,
        ),
        NetworkEvent::SyncFailed(reason) => on_sync_failed(reason),
        NetworkEvent::SyncSucceeded => Outcome::nothing(),
    }
}

} // verus!
