//! What holds of a room, whatever the peers and the game do.

use crate::document::{ContentHash, Entry, LiveEvent};
use crate::endpoint::{is_endpoint_key, EndpointId};
use crate::logic::GameLogic;
use crate::peer::{PeerInfo, PeerProfile, PeerStatus};
use crate::room::events::pipeline::{disconnected_after_neighbor, known_host};
use crate::room::events::process::{
    action_outcome, entry_outcome, join_outcome, Content, Outcome, RoomView,
};
use crate::room::events::{
    entries_beside, entries_under, parsed_event, pending_after, NetworkEvent, UiEvent,
};
use crate::room::state::keys::{
    chat_key, id_key, key_class, lemma_chat_key_parts, lemma_key_classes, KeyClass, DOT,
    KEY_APP_STATE, KEY_GAME_STATE, KEY_HOST_ID, PREFIX_ACTION, PREFIX_CHAT, PREFIX_JOIN,
    PREFIX_PEER, PREFIX_QUIT,
};
use crate::room::state::queries::{
    names_host, peers_of_records, record_of, reported_peers, seen_app_state, seen_game_state,
};
use crate::room::state::{classified, identity_of, AppState, EntryKind, Read, Write};
use crate::text::{
    ascii_bytes, decimal_text, digit_char, hex_text, lemma_decimal_text_digits,
    lemma_hex_text_is_ascii, lemma_text_of_ascii_bytes,
};
use vstd::prelude::*;

verus! {

/// The document after a write: the written value stands under its key, in
/// the place of what stood there.
pub open spec fn document_after<G: GameLogic>(
    document: Map<Seq<u8>, Write<G>>,
    write: Write<G>,
) -> Map<Seq<u8>, Write<G>> {
    document.insert(write.key_bytes(), write)
}

/// The document after the first `count` of some writes, made in their order.
pub open spec fn document_after_first<G: GameLogic>(
    document: Map<Seq<u8>, Write<G>>,
    writes: Seq<Write<G>>,
    count: nat,
) -> Map<Seq<u8>, Write<G>>
    decreases count,
{
    if count == 0 || count > writes.len() {
        document
    } else {
        document_after(
            document_after_first(document, writes, (count - 1) as nat),
            writes[count - 1],
        )
    }
}

/// True when the document says that the room is in the game.
pub open spec fn says_in_game<G: GameLogic>(document: Map<Seq<u8>, Write<G>>) -> bool {
    document.contains_key(ascii_bytes(KEY_APP_STATE@)) && document[ascii_bytes(KEY_APP_STATE@)]
        == Write::<G>::AppState(AppState::InGame)
}

/// True when the document holds a game state.
pub open spec fn holds_game_state<G: GameLogic>(document: Map<Seq<u8>, Write<G>>) -> bool {
    document.contains_key(ascii_bytes(KEY_GAME_STATE@)) && document[ascii_bytes(
        KEY_GAME_STATE@,
    )] is GameState
}

/// A key that was spelled for a peer is read back as that peer's: whatever
/// the classifier makes of the key that a write of a peer goes under, it is
/// the kind of that write, with that peer's identity, and no error.
pub proof fn law_keys_name_their_peer(
    id: EndpointId,
    timestamp: u64,
    kind: EntryKind,
    error: Option<String>,
)
    requires
        is_endpoint_key(id@),
    ensures
        classified(id_key(PREFIX_JOIN@, id@), kind, error) ==> kind == EntryKind::Join(id)
            && error is None,
        classified(id_key(PREFIX_QUIT@, id@), kind, error) ==> kind == EntryKind::QuitRequest(id)
            && error is None,
        classified(id_key(PREFIX_ACTION@, id@), kind, error) ==> kind == EntryKind::ActionRequest(
            id,
        ) && error is None,
        classified(chat_key(timestamp, id@), kind, error) ==> kind == EntryKind::ChatMessage(id)
            && error is None,
        classified(id_key(PREFIX_PEER@, id@), kind, error) ==> kind == EntryKind::PeerEntry
            && error is None,
{
    lemma_key_classes(id@, timestamp);
    match identity_of(kind) {
        Some(found) => {
            EndpointId::lemma_view_injective(found, id);
        },
        None => {},
    }
}

/// When the host accepts a peer's announcement, it writes a record of that
/// peer, and the entry of that write makes every peer that can read the
/// records tell its user the peers of the room.
pub proof fn law_join_is_followed_by_peer_news<G: GameLogic>(
    game: G,
    host_outcome: Outcome<G>,
    joiner: EndpointId,
    profile: PeerProfile,
    app_state: Read<AppState>,
    peer_outcome: Outcome<G>,
    content: Content<G>,
    view: RoomView<G>,
    me: EndpointId,
    disconnected: bool,
)
    requires
        join_outcome(
            host_outcome,
            Ok(true),
            Ok(joiner),
            Content::Profile(profile),
            app_state,
        ),
        view.peers matches Ok(records) && peers_of_records(records@) is Some,
        forall|write: Write<G>|
            host_outcome.write == Some(write) ==> entry_outcome(
                peer_outcome,
                game,
                write.key_bytes(),
                content,
                view,
                me,
                disconnected,
            ),
    ensures
        host_outcome.write matches Some(Write::Peer { id, info }) && id == joiner && info.id
            == joiner && info.profile == profile && info.status == PeerStatus::Online,
        peer_outcome.write is None,
        peer_outcome.event matches Some(UiEvent::Peer(list)) && list@ == reported_peers(
            peers_of_records(view.peers->Ok_0@)->0,
            view.host,
            disconnected,
        ),
{
    lemma_key_classes(joiner@, 0);
    let write = host_outcome.write->0;
    assert(write.key_bytes() == id_key(PREFIX_PEER@, joiner@));
    assert(key_class(write.key_bytes()) == KeyClass::PeerEntry);
}

/// When the game accepts a peer's action, the host writes the state that the
/// game makes of the stored state, the peer and the action, and the entry of
/// that write makes every peer tell its user that state, once. Where the
/// game objects, the host writes nothing.
pub proof fn law_action_is_followed_by_state_news<G: GameLogic>(
    game: G,
    host_outcome: Outcome<G>,
    stored: G::GameState,
    actor: EndpointId,
    action: G::GameAction,
    peers: Result<Vec<(Vec<u8>, PeerInfo)>, String>,
    next: G::GameState,
    peer_outcome: Outcome<G>,
    view: RoomView<G>,
    me: EndpointId,
    disconnected: bool,
)
    requires
        action_outcome(
            host_outcome,
            game,
            Ok(true),
            Ok(actor),
            Content::Action(action),
            Ok(Some(stored)),
            peers,
        ),
        forall|write: Write<G>|
            host_outcome.write == Some(write) ==> entry_outcome(
                peer_outcome,
                game,
                write.key_bytes(),
                Content::GameState(next),
                view,
                me,
                disconnected,
            ),
    ensures
        game.state_after(stored, actor, action) is Err ==> host_outcome.write is None,
        game.state_after(stored, actor, action) == Ok::<G::GameState, G::GameError>(next) ==> {
            &&& host_outcome.write == Some(Write::<G>::GameState(next))
            &&& host_outcome.event is None
            &&& peer_outcome.write is None
            &&& peer_outcome.event == Some(UiEvent::<G>::GameState(next))
        },
{
    lemma_key_classes(actor@, 0);
    let write = Write::<G>::GameState(next);
    assert(key_class(write.key_bytes()) == KeyClass::GameStateUpdate);
}

/// A peer reports the room as paused exactly while it has lost the host,
/// whatever the document holds. (`Paused` itself is never in the document.)
pub proof fn law_paused_iff_host_lost(
    seen: Result<AppState, String>,
    stored: Read<AppState>,
    disconnected: bool,
)
    requires
        seen_app_state(seen, stored, disconnected),
        stored != Ok::<Option<AppState>, String>(Some(AppState::Paused)),
    ensures
        seen == Ok::<AppState, String>(AppState::Paused) <==> disconnected,
{
}

/// After the host went out of a peer's reach, that peer's list of peers shows
/// the host as offline, though no peer wrote that, and shows every other
/// peer as the document holds it.
pub proof fn law_lost_host_is_shown_offline(
    host: Read<Vec<u8>>,
    host_id: EndpointId,
    me: EndpointId,
    before: bool,
    peers: Map<Seq<u8>, PeerInfo>,
)
    requires
        is_endpoint_key(host_id@),
        known_host(host, host_id),
        !known_host(host, me),
        peers.contains_key(host_id@),
    ensures
        disconnected_after_neighbor(before, host_id, PeerStatus::Offline, host, me),
        reported_peers(peers, host, true).dom() == peers.dom(),
        reported_peers(peers, host, true)[host_id@] == (PeerInfo {
            status: PeerStatus::Offline,
            ..peers[host_id@]
        }),
        forall|id: Seq<u8>|
            peers.contains_key(id) && id != host_id@ ==> #[trigger] reported_peers(
                peers,
                host,
                true,
            )[id] == peers[id],
{
    assert(reported_peers(peers, host, true).dom() =~= peers.dom());
}

/// The entries that wait for some content among two lists, one behind the
/// other, are those of the first and then those of the second.
pub proof fn lemma_entries_under_concat(front: Seq<Entry>, back: Seq<Entry>, hash: Seq<u8>)
    ensures
        entries_under(front + back, hash) == entries_under(front, hash) + entries_under(back, hash),
    decreases back.len(),
{
    if back.len() == 0 {
        assert(front + back =~= front);
        assert(entries_under(front, hash) + entries_under(back, hash) =~= entries_under(
            front,
            hash,
        ));
    } else {
        assert((front + back).drop_last() =~= front + back.drop_last());
        assert((front + back).last() == back.last());
        lemma_entries_under_concat(front, back.drop_last(), hash);
        if back.last().content_hash@ == hash {
            assert(entries_under(front, hash) + entries_under(back.drop_last(), hash).push(
                back.last(),
            ) =~= (entries_under(front, hash) + entries_under(back.drop_last(), hash)).push(
                back.last(),
            ));
        }
    }
}

/// The place at which the entry that waits at `at` is handed on when its
/// content is ready: behind the entries that came before it for that content.
pub open spec fn turn_of(pending: Seq<Entry>, at: int) -> int {
    entries_under(pending.take(at), pending[at].content_hash@).len() as int
}

/// No entry that waits is lost. When the content that an entry waits for is
/// ready, the entry is handed on, once, at its turn; entries that wait for
/// the same content are handed on in the order in which they came; and the
/// entry waits no more.
pub proof fn law_every_waiting_entry_is_handed_on(
    pending: Seq<Entry>,
    hash: ContentHash,
    at: int,
    later: int,
)
    requires
        0 <= at < pending.len(),
        pending[at].content_hash@ == hash@,
    ensures
        0 <= turn_of(pending, at) < parsed_event(LiveEvent::ContentReady { hash }, pending).len(),
        parsed_event(LiveEvent::ContentReady { hash }, pending)[turn_of(pending, at)]
            == NetworkEvent::Update(pending[at]),
        at < later < pending.len() && pending[later].content_hash@ == hash@ ==> turn_of(
            pending,
            at,
        ) < turn_of(pending, later),
        entries_under(pending_after(LiveEvent::ContentReady { hash }, pending), hash@).len() == 0,
{
    let front = pending.take(at);
    let one = seq![pending[at]];
    let back = pending.skip(at + 1);
    assert(pending =~= front + one + back);
    lemma_entries_under_concat(front + one, back, hash@);
    lemma_entries_under_concat(front, one, hash@);
    assert(one.drop_last() =~= Seq::<Entry>::empty());
    assert(one.last() == pending[at]);
    assert(entries_under(one.drop_last(), hash@) =~= Seq::<Entry>::empty());
    assert(entries_under(one, hash@) == entries_under(one.drop_last(), hash@).push(one.last()));
    assert(entries_under(one, hash@) =~= one);
    let released = entries_under(pending, hash@);
    assert(released == entries_under(front, hash@) + one + entries_under(back, hash@));
    assert(released[turn_of(pending, at)] == pending[at]);
    if at < later < pending.len() && pending[later].content_hash@ == hash@ {
        let upto = pending.take(later);
        assert(upto =~= front + one + pending.subrange(at + 1, later));
        lemma_entries_under_concat(front + one, pending.subrange(at + 1, later), hash@);
    }
    lemma_none_waits_beside(pending, hash@);
}

/// Among the entries that wait for other content, none waits for this one.
pub proof fn lemma_none_waits_beside(pending: Seq<Entry>, hash: Seq<u8>)
    ensures
        entries_under(entries_beside(pending, hash), hash).len() == 0,
    decreases pending.len(),
{
    if pending.len() > 0 {
        lemma_none_waits_beside(pending.drop_last(), hash);
        if pending.last().content_hash@ != hash {
            let kept = entries_beside(pending.drop_last(), hash).push(pending.last());
            assert(kept.drop_last() =~= entries_beside(pending.drop_last(), hash));
        }
    }
}

/// The game state that a document holds, as a peer reads it.
pub open spec fn stored_game_state<G: GameLogic>(document: Map<Seq<u8>, Write<G>>) -> Read<
    G::GameState,
> {
    if document.contains_key(ascii_bytes(KEY_GAME_STATE@)) {
        match document[ascii_bytes(KEY_GAME_STATE@)] {
            Write::GameState(state) => Ok(Some(state)),
            _ => Err(arbitrary()),
        }
    } else {
        Ok(None)
    }
}

/// A game state is read as it was written: after the write of a state, and
/// until the next write under `game_state`, a peer that reads the game's
/// state gets that state, and the write has changed nothing else in the
/// document. (The bytes in which the state travels are the codec's.)
pub proof fn law_game_state_is_read_as_written<G: GameLogic>(
    document: Map<Seq<u8>, Write<G>>,
    state: G::GameState,
    seen: Result<G::GameState, String>,
)
    requires
        seen_game_state(seen, stored_game_state(document_after(document, Write::GameState(state)))),
    ensures
        seen == Ok::<G::GameState, String>(state),
        forall|key: Seq<u8>|
            key != ascii_bytes(KEY_GAME_STATE@) ==> document_after(
                document,
                Write::GameState(state),
            ).contains_key(key) == document.contains_key(key) && #[trigger] document_after(
                document,
                Write::GameState(state),
            )[key] == document[key],
{
}

/// The digit of a value below 16 as a byte: `0` to `9`, then `a` to `f`.
pub proof fn lemma_digit_byte(value: int)
    requires
        0 <= value < 16,
    ensures
        digit_char(value) as u8 == (if value < 10 {
            48 + value
        } else {
            87 + value
        }),
{
    reveal_strlit("0123456789abcdef");
    if value == 0 {
    } else if value == 1 {
    } else if value == 2 {
    } else if value == 3 {
    } else if value == 4 {
    } else if value == 5 {
    } else if value == 6 {
    } else if value == 7 {
    } else if value == 8 {
    } else if value == 9 {
    } else if value == 10 {
    } else if value == 11 {
    } else if value == 12 {
    } else if value == 13 {
    } else if value == 14 {
    } else {
    }
}

/// Two identities with the same key under a word are the same identity.
pub proof fn lemma_id_key_injective(prefix: Seq<char>, a: Seq<u8>, b: Seq<u8>)
    requires
        id_key(prefix, a) == id_key(prefix, b),
    ensures
        a == b,
{
    let ka = id_key(prefix, a);
    let kb = id_key(prefix, b);
    assert(ka.len() == prefix.len() + 2 * a.len());
    assert(kb.len() == prefix.len() + 2 * b.len());
    assert forall|i: int| 0 <= i < a.len() implies a[i] == b[i] by {
        let high = prefix.len() + 2 * i;
        let low = high + 1;
        assert(ka[high] == hex_text(a)[2 * i] as u8);
        assert(kb[high] == hex_text(b)[2 * i] as u8);
        assert(ka[low] == hex_text(a)[2 * i + 1] as u8);
        assert(kb[low] == hex_text(b)[2 * i + 1] as u8);
        assert(hex_text(a)[2 * i] == digit_char(a[i] as int / 16));
        assert(hex_text(b)[2 * i] == digit_char(b[i] as int / 16));
        assert(hex_text(a)[2 * i + 1] == digit_char(a[i] as int % 16));
        assert(hex_text(b)[2 * i + 1] == digit_char(b[i] as int % 16));
        lemma_digit_byte(a[i] as int / 16);
        lemma_digit_byte(b[i] as int / 16);
        lemma_digit_byte(a[i] as int % 16);
        lemma_digit_byte(b[i] as int % 16);
    }
    assert(a =~= b);
}

/// A peer's record is read as it was written: after the write of a record
/// under a peer's key, and until the next write under that key, the lookup
/// of that peer gives that record, in every field; the lookup of every other
/// peer gives what it gave before; and a peer under whose key nothing was
/// ever written has no record. (The bytes in which a record travels are the
/// codec's.)
pub proof fn law_peer_record_is_read_as_written(
    records: Seq<(Vec<u8>, PeerInfo)>,
    key: Vec<u8>,
    id: EndpointId,
    record: PeerInfo,
    other: EndpointId,
)
    requires
        key@ == id_key(PREFIX_PEER@, id@),
    ensures
        record_of(records.push((key, record)), id@) == Some(record),
        other@ != id@ ==> record_of(records.push((key, record)), other@) == record_of(
            records,
            other@,
        ),
        (forall|i: int|
            0 <= i < records.len() ==> (#[trigger] records[i]).0@ != id_key(PREFIX_PEER@, other@))
            ==> record_of(records, other@) is None,
{
    let after = records.push((key, record));
    assert(after.last() == (key, record));
    assert(after.drop_last() =~= records);
    if other@ != id@ {
        if id_key(PREFIX_PEER@, other@) == id_key(PREFIX_PEER@, id@) {
            lemma_id_key_injective(PREFIX_PEER@, other@, id@);
        }
    }
    if forall|i: int|
        0 <= i < records.len() ==> (#[trigger] records[i]).0@ != id_key(PREFIX_PEER@, other@) {
        lemma_no_record_without_a_write(records, other@);
    }
}

/// Where no record stands under a peer's key, the peer has no record.
pub proof fn lemma_no_record_without_a_write(records: Seq<(Vec<u8>, PeerInfo)>, id: Seq<u8>)
    requires
        forall|i: int|
            0 <= i < records.len() ==> (#[trigger] records[i]).0@ != id_key(PREFIX_PEER@, id),
    ensures
        record_of(records, id) is None,
    decreases records.len(),
{
    if records.len() > 0 {
        assert(records.last() == records[records.len() - 1]);
        assert forall|i: int| 0 <= i < records.drop_last().len() implies (
        #[trigger] records.drop_last()[i]).0@ != id_key(PREFIX_PEER@, id) by {
            assert(records.drop_last()[i] == records[i]);
        }
        lemma_no_record_without_a_write(records.drop_last(), id);
    }
}

/// The order of two bytes strings as keys: `a` stands before `b` where it is
/// a proper prefix of `b`, or has the smaller byte where the two first differ.
pub open spec fn key_before(a: Seq<u8>, b: Seq<u8>) -> bool {
    exists|k: int| stands_first_at(a, b, k)
}

/// True when `a` and `b` are the same up to place `k`, where `a` ends or has
/// the smaller byte.
pub open spec fn stands_first_at(a: Seq<u8>, b: Seq<u8>, k: int) -> bool {
    0 <= k <= a.len() && k < b.len() && a.take(k) == b.take(k) && (k == a.len() || a[k] < b[k])
}

/// Of two numbers with equally many digits, the smaller has the smaller
/// digit where their texts first differ.
pub proof fn lemma_decimal_text_order(a: nat, b: nat) -> (k: int)
    requires
        a < b,
        decimal_text(a).len() == decimal_text(b).len(),
    ensures
        0 <= k < decimal_text(a).len(),
        decimal_text(a).take(k) == decimal_text(b).take(k),
        (decimal_text(a)[k] as u8) < (decimal_text(b)[k] as u8),
    decreases b,
{
    reveal_strlit("0123456789abcdef");
    if b < 10 {
        assert(decimal_text(a).take(0) =~= decimal_text(b).take(0));
        0
    } else {
        assert(a >= 10) by {
            if a < 10 {
                assert(decimal_text(a).len() == 1);
                assert(decimal_text(b).len() == decimal_text(b / 10).len() + 1);
                lemma_decimal_text_digits(b / 10);
            }
        }
        let front_a = decimal_text(a / 10);
        let front_b = decimal_text(b / 10);
        assert(decimal_text(a) == front_a.push(digit_char((a % 10) as int)));
        assert(decimal_text(b) == front_b.push(digit_char((b % 10) as int)));
        if a / 10 == b / 10 {
            let k = front_a.len() as int;
            assert(decimal_text(a).take(k) =~= decimal_text(b).take(k));
            assert(a % 10 < b % 10);
            k
        } else {
            let k = lemma_decimal_text_order(a / 10, b / 10);
            assert(decimal_text(a).take(k) =~= front_a.take(k));
            assert(decimal_text(b).take(k) =~= front_b.take(k));
            k
        }
    }
}

/// Two numbers with the same text are the same number.
pub proof fn lemma_decimal_text_injective(a: nat, b: nat)
    requires
        decimal_text(a) == decimal_text(b),
    ensures
        a == b,
    decreases a,
{
    reveal_strlit("0123456789abcdef");
    lemma_decimal_text_digits(a / 10);
    lemma_decimal_text_digits(b / 10);
    lemma_digit_byte((a % 10) as int);
    lemma_digit_byte((b % 10) as int);
    if a < 10 {
        assert(decimal_text(a).len() == 1);
        assert(b < 10);
        assert(decimal_text(a)[0] == digit_char(a as int));
        assert(decimal_text(b)[0] == digit_char(b as int));
        assert(a == b);
    } else {
        assert(decimal_text(a).len() >= 2);
        assert(b >= 10);
        let front_a = decimal_text(a / 10);
        let front_b = decimal_text(b / 10);
        assert(decimal_text(a).drop_last() =~= front_a);
        assert(decimal_text(b).drop_last() =~= front_b);
        assert(decimal_text(a).last() == digit_char((a % 10) as int));
        assert(decimal_text(b).last() == digit_char((b % 10) as int));
        lemma_decimal_text_injective(a / 10, b / 10);
        assert(a % 10 == b % 10);
        assert(a == 10 * (a / 10) + a % 10);
        assert(b == 10 * (b / 10) + b % 10);
        assert(a == b);
    }
}

/// The bytes of a time in a chat key: its digits and the dot behind them.
pub open spec fn time_part(timestamp: u64) -> Seq<u8> {
    ascii_bytes(decimal_text(timestamp as nat)) + seq![DOT]
}

/// The time parts of two different times differ at a place that both have,
/// and are the same before it.
pub proof fn lemma_time_parts_differ(first: u64, second: u64) -> (k: int)
    requires
        first != second,
    ensures
        0 <= k < time_part(first).len(),
        k < time_part(second).len(),
        time_part(first).take(k) == time_part(second).take(k),
        time_part(first)[k] != time_part(second)[k],
    decreases time_part(first).len(),
{
    let x = time_part(first);
    let y = time_part(second);
    lemma_decimal_text_digits(first as nat);
    lemma_decimal_text_digits(second as nat);
    assert(x.take(0) =~= y.take(0));
    lemma_first_difference(x, y, 0);
    let k = first_difference(x, y, 0);
    if k >= x.len() || k >= y.len() {
        let dx = decimal_text(first as nat);
        let dy = decimal_text(second as nat);
        if x.len() == y.len() {
            assert(x =~= y) by {
                assert(x.take(k) =~= x);
                assert(y.take(k) =~= y);
            }
            assert(dx =~= dy) by {
                assert forall|i: int| 0 <= i < dx.len() implies dx[i] == dy[i] by {
                    assert(x[i] == dx[i] as u8);
                    assert(y[i] == dy[i] as u8);
                }
            }
            lemma_decimal_text_injective(first as nat, second as nat);
        } else if x.len() < y.len() {
            assert(k == x.len());
            assert(x.take(k)[k - 1] == y.take(k)[k - 1]);
            assert(x[k - 1] == DOT);
            assert(y[k - 1] == dy[k - 1] as u8);
        } else {
            assert(k == y.len());
            assert(x.take(k)[k - 1] == y.take(k)[k - 1]);
            assert(y[k - 1] == DOT);
            assert(x[k - 1] == dx[k - 1] as u8);
        }
    }
    k
}

/// The first place from `from` on at which two byte strings differ, or the
/// length of the shorter where they do not.
pub open spec fn first_difference(a: Seq<u8>, b: Seq<u8>, from: int) -> int
    decreases a.len() - from,
{
    if from < 0 || from >= a.len() || from >= b.len() || a[from] != b[from] {
        from
    } else {
        first_difference(a, b, from + 1)
    }
}

/// Up to their first difference two byte strings are the same.
pub proof fn lemma_first_difference(a: Seq<u8>, b: Seq<u8>, from: int)
    requires
        0 <= from <= a.len(),
        from <= b.len(),
        a.take(from) == b.take(from),
    ensures
        from <= first_difference(a, b, from) <= a.len(),
        first_difference(a, b, from) <= b.len(),
        a.take(first_difference(a, b, from)) == b.take(first_difference(a, b, from)),
        first_difference(a, b, from) < a.len() && first_difference(a, b, from) < b.len()
            ==> a[first_difference(a, b, from)] != b[first_difference(a, b, from)],
    decreases a.len() - from,
{
    if from >= a.len() || from >= b.len() || a[from] != b[from] {
    } else {
        assert(a.take(from + 1) =~= a.take(from).push(a[from]));
        assert(b.take(from + 1) =~= b.take(from).push(b[from]));
        lemma_first_difference(a, b, from + 1);
    }
}

/// Where two byte strings differ at a place before which they are the same,
/// the one with the smaller byte there stands first.
pub proof fn lemma_order_by_difference(a: Seq<u8>, b: Seq<u8>, k: int)
    requires
        0 <= k < a.len(),
        k < b.len(),
        a.take(k) == b.take(k),
        a[k] != b[k],
    ensures
        key_before(a, b) <==> a[k] < b[k],
{
    if a[k] < b[k] {
        assert(stands_first_at(a, b, k));
    }
    if key_before(a, b) {
        let j = choose|j: int| stands_first_at(a, b, j);
        assert(stands_first_at(a, b, j));
        if j > k {
            assert(a.take(j)[k] == b.take(j)[k]);
            assert(a.take(j)[k] == a[k]);
            assert(b.take(j)[k] == b[k]);
            assert(false);
        } else if j < k {
            assert(a.take(k)[j] == b.take(k)[j]);
            assert(a.take(k)[j] == a[j]);
            assert(b.take(k)[j] == b[j]);
            assert(false);
        }
        assert(a[k] < b[k]);
    }
}

/// Chat keys sort as the times of their messages are spelled: whoever sent
/// them, of two messages with different times the one whose time part stands
/// first has the key that stands first.
pub proof fn law_chat_keys_sort_by_time_part(
    first: u64,
    second: u64,
    first_sender: Seq<u8>,
    second_sender: Seq<u8>,
)
    requires
        first != second,
    ensures
        key_before(chat_key(first, first_sender), chat_key(second, second_sender)) <==> key_before(
            time_part(first),
            time_part(second),
        ),
{
    let a = chat_key(first, first_sender);
    let b = chat_key(second, second_sender);
    let x = time_part(first);
    let y = time_part(second);
    let word = ascii_bytes(PREFIX_CHAT@);
    lemma_chat_key_parts(first, first_sender);
    lemma_chat_key_parts(second, second_sender);
    let k = lemma_time_parts_differ(first, second);
    let at = word.len() + k;
    assert(a =~= word + x + ascii_bytes(hex_text(first_sender)));
    assert(b =~= word + y + ascii_bytes(hex_text(second_sender)));
    assert(a.take(at) =~= word + x.take(k));
    assert(b.take(at) =~= word + y.take(k));
    assert(a[at] == x[k]);
    assert(b[at] == y[k]);
    lemma_order_by_difference(a, b, at);
    lemma_order_by_difference(x, y, k);
}

/// Chat keys sort by the time of their messages: of two messages whose times
/// have equally many digits, the earlier has the key that stands first,
/// whoever sent them.
pub proof fn law_chat_keys_in_time_order(
    earlier: u64,
    later: u64,
    first_sender: Seq<u8>,
    second_sender: Seq<u8>,
)
    requires
        earlier < later,
        decimal_text(earlier as nat).len() == decimal_text(later as nat).len(),
    ensures
        key_before(chat_key(earlier, first_sender), chat_key(later, second_sender)),
{
    let a = chat_key(earlier, first_sender);
    let b = chat_key(later, second_sender);
    let ta = ascii_bytes(decimal_text(earlier as nat));
    let tb = ascii_bytes(decimal_text(later as nat));
    let word = ascii_bytes(PREFIX_CHAT@);
    lemma_chat_key_parts(earlier, first_sender);
    lemma_chat_key_parts(later, second_sender);
    let k = lemma_decimal_text_order(earlier as nat, later as nat);
    let at = word.len() + k;
    assert(a.take(at) =~= word + ta.take(k));
    assert(b.take(at) =~= word + tb.take(k));
    assert(ta.take(k) =~= ascii_bytes(decimal_text(earlier as nat).take(k)));
    assert(tb.take(k) =~= ascii_bytes(decimal_text(later as nat).take(k)));
    assert(a[at] == ta[k]);
    assert(b[at] == tb[k]);
    assert(a.take(at) == b.take(at));
    assert(stands_first_at(a, b, at));
}

/// Claiming the room again changes nothing: after a peer's claim, the
/// document holds that peer under `host_id`, and a second claim by the same
/// peer leaves the document as the first one made it.
pub proof fn law_claim_host_is_idempotent<G: GameLogic>(
    document: Map<Seq<u8>, Write<G>>,
    claimant: EndpointId,
)
    ensures
        document_after(document, Write::HostId(claimant))[ascii_bytes(KEY_HOST_ID@)]
            == Write::<G>::HostId(claimant),
        document_after(document_after(document, Write::HostId(claimant)), Write::HostId(claimant))
            == document_after(document, Write::HostId(claimant)),
{
    let once = document_after(document, Write::<G>::HostId(claimant));
    assert(document_after(once, Write::<G>::HostId(claimant)) =~= once);
}

/// A peer that has claimed the room is its host: the bytes that its claim
/// puts under `host_id` name it, and no other peer.
pub proof fn law_claimant_is_host<G: GameLogic>(claimant: EndpointId, other: EndpointId)
    ensures
        Write::<G>::HostId(claimant).raw_bytes() matches Some(bytes) && (forall|stored: Vec<u8>|
            stored@ == bytes ==> #[trigger] names_host(Ok(Some(stored)), claimant@) == Ok::<
                bool,
                String,
            >(true) && (names_host(Ok(Some(stored)), other@) == Ok::<bool, String>(true)
                <==> hex_text(other@) == hex_text(claimant@))),
{
    lemma_hex_text_is_ascii(claimant@);
    lemma_text_of_ascii_bytes(hex_text(claimant@));
}

/// A peer that sees the room in the game finds a game state: the writes that
/// start a game put the game's state into the document before they put the
/// room into the game.
pub proof fn law_game_state_is_written_first<G: GameLogic>(
    document: Map<Seq<u8>, Write<G>>,
    initial: G::GameState,
    count: nat,
)
    requires
        says_in_game(document) ==> holds_game_state(document),
        count <= 2,
    ensures
        ({
            let writes = seq![Write::<G>::GameState(initial), Write::<G>::AppState(AppState::InGame)];
            let seen = document_after_first(document, writes, count);
            &&& says_in_game(seen) ==> holds_game_state(seen)
            &&& count == 2 ==> says_in_game(seen) && seen[ascii_bytes(KEY_GAME_STATE@)]
                == Write::<G>::GameState(initial)
        }),
{
    let writes = seq![Write::<G>::GameState(initial), Write::<G>::AppState(AppState::InGame)];
    lemma_key_classes(Seq::<u8>::empty(), 0);
    assert(ascii_bytes(KEY_GAME_STATE@) != ascii_bytes(KEY_APP_STATE@));
    reveal_with_fuel(document_after_first, 3);
    assert(writes[0].key_bytes() == ascii_bytes(KEY_GAME_STATE@));
    assert(writes[1].key_bytes() == ascii_bytes(KEY_APP_STATE@));
}

} // verus!
