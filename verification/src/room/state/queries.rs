//! What a peer reads from the document.

use super::keys::{
    has_prefix, id_in_key, id_key, key_for, key_has_prefix, lemma_schema_is_ascii, text_after,
    PREFIX_PEER,
};
use super::{AppState, Read, StateData};
use crate::endpoint::{
    endpoint_id_from_str, endpoint_key_of_text, is_invalid_id_message, parsed_from, EndpointId,
};
use crate::logic::GameLogic;
use crate::peer::{order_with, place_in, stands_in, PeerInfo, PeerMap, PeerStatus};
use crate::text::{bytes_to_text, hex_text, text_of_bytes};
use vstd::prelude::*;

verus! {

/// What is reported where the document holds no room state.
pub open spec fn no_app_state_message() -> Seq<char> {
    "No AppState found"@
}

/// What is reported where the document holds no game state.
pub open spec fn no_game_state_message() -> Seq<char> {
    "No GameState found"@
}

/// What is reported for a record that is not keyed as a peer's.
pub open spec fn not_a_peer_key_message() -> Seq<char> {
    "Not a peer key"@
}

/// The name under which a peer without a record goes.
pub open spec fn unknown_peer_name() -> Seq<char> {
    "Unknown"@
}

/// Whether the value under `host_id` names the peer `id`.
pub open spec fn names_host(host: Read<Vec<u8>>, id: Seq<u8>) -> Result<bool, String> {
    match host {
        Ok(Some(bytes)) => Ok(text_of_bytes(bytes@) == hex_text(id)),
        Ok(None) => Ok(false),
        Err(reason) => Err(reason),
    }
}

/// The identity that the value under `host_id` names, if it names one.
pub open spec fn host_key(host: Read<Vec<u8>>) -> Option<Seq<u8>> {
    match host {
        Ok(Some(bytes)) => endpoint_key_of_text(text_of_bytes(bytes@)),
        _ => None,
    }
}

/// The peers that a list of keyed records stands for, a later record of an
/// identity in place of an earlier one; `None` where a key is not a peer's
/// key or holds no identity.
pub open spec fn peers_of_records(records: Seq<(Vec<u8>, PeerInfo)>) -> Option<
    Map<Seq<u8>, PeerInfo>,
>
    decreases records.len(),
{
    if records.len() == 0 {
        Some(Map::empty())
    } else {
        let key = records.last().0@;
        match peers_of_records(records.drop_last()) {
            Some(peers) => if key_has_prefix(key, PREFIX_PEER@) {
                match endpoint_key_of_text(text_after(key, PREFIX_PEER@)) {
                    Some(id) => Some(peers.insert(id, records.last().1)),
                    None => None,
                }
            } else {
                None
            },
            None => None,
        }
    }
}

/// The peers that a list of keyed records stands for, in their order: a
/// peer stands where its first record stands, with its latest record; `None`
/// where a key is not a peer's key or holds no identity.
pub open spec fn peer_order_of(records: Seq<(Vec<u8>, PeerInfo)>) -> Option<
    Seq<(Seq<u8>, PeerInfo)>,
>
    decreases records.len(),
{
    if records.len() == 0 {
        Some(Seq::empty())
    } else {
        let key = records.last().0@;
        match peer_order_of(records.drop_last()) {
            Some(order) => if key_has_prefix(key, PREFIX_PEER@) {
                match endpoint_key_of_text(text_after(key, PREFIX_PEER@)) {
                    Some(id) => Some(order_with(order, id, records.last().1)),
                    None => None,
                }
            } else {
                None
            },
            None => None,
        }
    }
}

/// The peers in their order, as a peer reports them: while it has lost the
/// host, the host's record says offline, in its place.
pub open spec fn reported_order(
    order: Seq<(Seq<u8>, PeerInfo)>,
    host: Read<Vec<u8>>,
    disconnected: bool,
) -> Seq<(Seq<u8>, PeerInfo)> {
    if disconnected {
        match host_key(host) {
            Some(id) => if stands_in(order, id) {
                order_with(
                    order,
                    id,
                    PeerInfo { status: PeerStatus::Offline, ..order[place_in(order, id)].1 },
                )
            } else {
                order
            },
            None => order,
        }
    } else {
        order
    }
}

/// True when `message` is what is reported of a key that is not the key of a
/// peer's record, or holds no identity.
pub open spec fn record_fault(key: Seq<u8>, message: Seq<char>) -> bool {
    if key_has_prefix(key, PREFIX_PEER@) {
        endpoint_key_of_text(text_after(key, PREFIX_PEER@)) is None && is_invalid_id_message(
            message,
            text_after(key, PREFIX_PEER@),
        )
    } else {
        message == not_a_peer_key_message()
    }
}

/// True when `message` is what is reported of the first record of the list
/// that does not stand for a peer.
pub open spec fn records_fault(records: Seq<(Vec<u8>, PeerInfo)>, message: Seq<char>) -> bool {
    exists|i: int|
        0 <= i < records.len() && peers_of_records(records.take(i)) is Some && #[trigger] record_fault(
            records[i].0@,
            message,
        )
}

/// The peers as a peer that has lost the host sees them: the host is offline.
pub open spec fn with_host_offline(
    peers: Map<Seq<u8>, PeerInfo>,
    host: Option<Seq<u8>>,
) -> Map<Seq<u8>, PeerInfo> {
    match host {
        Some(id) => if peers.contains_key(id) {
            peers.insert(id, PeerInfo { status: PeerStatus::Offline, ..peers[id] })
        } else {
            peers
        },
        None => peers,
    }
}

/// The peers as this peer reports them.
pub open spec fn reported_peers(
    peers: Map<Seq<u8>, PeerInfo>,
    host: Read<Vec<u8>>,
    disconnected: bool,
) -> Map<Seq<u8>, PeerInfo> {
    if disconnected {
        with_host_offline(peers, host_key(host))
    } else {
        peers
    }
}

/// True when `r` is the room's state as a peer sees it: `Paused` while the
/// peer has lost the host, whatever the document holds, and else what the
/// document holds.
pub open spec fn seen_app_state(
    r: Result<AppState, String>,
    stored: Read<AppState>,
    disconnected: bool,
) -> bool {
    if disconnected {
        r == Ok::<AppState, String>(AppState::Paused)
    } else {
        match stored {
            Ok(Some(state)) => r == Ok::<AppState, String>(state),
            Ok(None) => r matches Err(message) && message@ == no_app_state_message(),
            Err(reason) => r == Err::<AppState, String>(reason),
        }
    }
}

/// True when `r` is the game's state as a peer reads it: the state that the
/// document holds, as it stands.
pub open spec fn seen_game_state<S>(r: Result<S, String>, stored: Read<S>) -> bool {
    match stored {
        Ok(Some(state)) => r == Ok::<S, String>(state),
        Ok(None) => r matches Err(message) && message@ == no_game_state_message(),
        Err(reason) => r == Err::<S, String>(reason),
    }
}

/// The record under the key of the peer `id`: the latest of the list, if there is one.
pub open spec fn record_of(records: Seq<(Vec<u8>, PeerInfo)>, id: Seq<u8>) -> Option<PeerInfo>
    decreases records.len(),
{
    if records.len() == 0 {
        None
    } else if records.last().0@ == id_key(PREFIX_PEER@, id) {
        Some(records.last().1)
    } else {
        record_of(records.drop_last(), id)
    }
}

/// The name under which the peer `id` goes in a list of records.
pub open spec fn name_in_records(records: Seq<(Vec<u8>, PeerInfo)>, id: Seq<u8>) -> Seq<char> {
    match record_of(records, id) {
        Some(info) => info.profile.nickname@,
        None => unknown_peer_name(),
    }
}

/// Compares two byte strings.
pub fn same_key(a: &[u8], b: &[u8]) -> (r: bool)
    ensures
        r == (a@ == b@),
{
    if a.len() != b.len() {
        return false;
    }
    let mut i: usize = 0;
    while i < a.len()
        invariant
            i <= a.len(),
            a.len() == b.len(),
            forall|j: int| 0 <= j < i ==> a@[j] == b@[j],
        decreases a.len() - i,
    {
        if a[i] != b[i] {
            return false;
        }
        i = i + 1;
    }
    assert(a@ =~= b@);
    true
}

impl<G: GameLogic> StateData<G> {
    /// The record of a peer, if the records hold one under the peer's key.
    pub fn get_peer_info(&self, records: &Vec<(Vec<u8>, PeerInfo)>, peer_id: &EndpointId) -> (r:
        Option<PeerInfo>)
        ensures
            r == record_of(records@, peer_id@),
    {
        proof {
            lemma_schema_is_ascii();
        }
        let wanted = key_for(PREFIX_PEER, peer_id);
        let mut end: usize = records.len();
        proof {
            assert(records@.take(end as int) =~= records@);
        }
        while end > 0
            invariant
                end <= records@.len(),
                wanted@ == id_key(PREFIX_PEER@, peer_id@),
                record_of(records@, peer_id@) == record_of(records@.take(end as int), peer_id@),
            decreases end,
        {
            proof {
                assert(records@.take(end as int).drop_last() =~= records@.take(end - 1));
                assert(records@.take(end as int).last() == records@[end - 1]);
            }
            if same_key(records[end - 1].0.as_slice(), wanted.as_slice()) {
                return Some(records[end - 1].1.duplicate());
            }
            end = end - 1;
        }
        None
    }

    /// The name under which a peer goes: its nickname, or `Unknown` where it has no record.
    pub fn get_peer_name(&self, records: &Vec<(Vec<u8>, PeerInfo)>, peer_id: &EndpointId) -> (r:
        String)
        ensures
            r@ == name_in_records(records@, peer_id@),
    {
        match self.get_peer_info(records, peer_id) {
            Some(info) => info.profile.nickname,
            None => "Unknown".to_owned(),
        }
    }

    /// Tells whether this peer is the host.
    pub fn is_host(&self, host: &Read<Vec<u8>>) -> (r: Result<bool, String>)
        ensures
            r == names_host(*host, self.endpoint()@),
    {
        self.is_peer_host(&self.endpoint_id, host)
    }

    /// Tells whether a peer is the host: whether the value under `host_id` is its text.
    pub fn is_peer_host(&self, peer_id: &EndpointId, host: &Read<Vec<u8>>) -> (r: Result<
        bool,
        String,
    >)
        ensures
            r == names_host(*host, peer_id@),
    {
        match host {
            Ok(Some(bytes)) => {
                let host_text = bytes_to_text(bytes.as_slice());
                let peer_text = peer_id.to_string();
                Ok(peer_text == host_text)
            },
            Ok(None) => Ok(false),
            Err(reason) => Err(reason.clone()),
        }
    }

    /// The host's identity: `None` where no peer has claimed the room yet.
    pub fn get_host_id(&self, host: &Read<Vec<u8>>) -> (r: Result<Option<EndpointId>, String>)
        ensures
            match *host {
                Ok(Some(bytes)) => match r {
                    Ok(found) => found matches Some(id) && parsed_from(
                        Ok(id),
                        text_of_bytes(bytes@),
                    ),
                    Err(message) => parsed_from(Err(message), text_of_bytes(bytes@)),
                },
                Ok(None) => r == Ok::<Option<EndpointId>, String>(None),
                Err(reason) => r == Err::<Option<EndpointId>, String>(reason),
            },
    {
        match host {
            Ok(Some(bytes)) => {
                let host_text = bytes_to_text(bytes.as_slice());
                match endpoint_id_from_str(host_text.as_str()) {
                    Ok(id) => Ok(Some(id)),
                    Err(message) => Err(message),
                }
            },
            Ok(None) => Ok(None),
            Err(reason) => Err(reason.clone()),
        }
    }

    /// The room's state as this peer sees it: `Paused` while the host is out
    /// of reach, whatever the document holds, and else what the document holds.
    pub fn get_app_state(&self, stored: Read<AppState>) -> (r: Result<AppState, String>)
        ensures
            seen_app_state(r, stored, self.disconnected()),
    {
        if self.host_disconnected {
            return Ok(AppState::Paused);
        }
        match stored {
            Ok(Some(state)) => Ok(state),
            Ok(None) => Err("No AppState found".to_owned()),
            Err(reason) => Err(reason),
        }
    }

    /// The game's state.
    pub fn get_game_state(&self, stored: Read<G::GameState>) -> (r: Result<G::GameState, String>)
        ensures
            seen_game_state(r, stored),
    {
        match stored {
            Ok(Some(state)) => Ok(state),
            Ok(None) => Err("No GameState found".to_owned()),
            Err(reason) => Err(reason),
        }
    }

    /// The peers of the room, from the records under `peer.`. While the host
    /// is out of reach it is shown as offline, though nobody wrote that.
    pub fn get_peer_list(&self, records: Vec<(Vec<u8>, PeerInfo)>, host: &Read<Vec<u8>>) -> (r:
        Result<PeerMap, String>)
        ensures
            match peers_of_records(records@) {
                Some(peers) => r matches Ok(list) && list@ == reported_peers(
                    peers,
                    *host,
                    self.disconnected(),
                ) && peer_order_of(records@) is Some && list.order() == reported_order(
                    peer_order_of(records@)->0,
                    *host,
                    self.disconnected(),
                ),
                None => r matches Err(message) && records_fault(records@, message@),
            },
    {
        let mut peers = PeerMap::new();
        let mut i: usize = 0;
        proof {
            lemma_schema_is_ascii();
            assert(records@.take(0) =~= Seq::<(Vec<u8>, PeerInfo)>::empty());
        }
        while i < records.len()
            invariant
                i <= records@.len(),
                vstd::utf8::is_ascii_chars(PREFIX_PEER@),
                peers_of_records(records@.take(i as int)) == Some(peers@),
                peer_order_of(records@.take(i as int)) == Some(peers.order()),
            decreases records@.len() - i,
        {
            let ghost upto = records@.take(i + 1);
            proof {
                assert(upto.drop_last() =~= records@.take(i as int));
                assert(upto.last() == records@[i as int]);
                vstd::utf8::is_ascii_chars_encode_utf8(PREFIX_PEER@);
            }
            let key = records[i].0.as_slice();
            if !has_prefix(key, PREFIX_PEER) {
                proof {
                    lemma_peers_of_records_fails(records@, i + 1);
                    assert(record_fault(records@[i as int].0@, not_a_peer_key_message()));
                }
                return Err("Not a peer key".to_owned());
            }
            match id_in_key(key, PREFIX_PEER.len()) {
                Ok(id) => {
                    let info = records[i].1.duplicate();
                    peers.insert(id, info);
                },
                Err(message) => {
                    proof {
                        lemma_peers_of_records_fails(records@, i + 1);
                        assert(record_fault(records@[i as int].0@, message@));
                    }
                    return Err(message);
                },
            }
            i = i + 1;
        }
        proof {
            assert(records@.take(i as int) =~= records@);
        }
        if self.host_disconnected {
            match self.get_host_id(host) {
                Ok(Some(host_id)) => {
                    let known = match peers.get(&host_id) {
                        Some(info) => Some(info.duplicate()),
                        None => None,
                    };
                    match known {
                        Some(info) => {
                            peers.insert(host_id, info.with_status(PeerStatus::Offline));
                        },
                        None => {},
                    }
                },
                _ => {},
            }
        }
        Ok(peers)
    }
}

/// Once a list of records has failed to stand for peers, so does every longer one.
pub proof fn lemma_peers_of_records_fails(records: Seq<(Vec<u8>, PeerInfo)>, upto: int)
    requires
        0 <= upto <= records.len(),
        peers_of_records(records.take(upto)) is None,
    ensures
        peers_of_records(records) is None,
    decreases records.len() - upto,
{
    if upto < records.len() {
        assert(records.take(upto + 1).drop_last() =~= records.take(upto));
        lemma_peers_of_records_fails(records, upto + 1);
    } else {
        assert(records.take(upto) =~= records);
    }
}

} // verus!
