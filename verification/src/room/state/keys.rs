//! The document's key schema: how keys are spelled and what a key stands for.

use crate::endpoint::{endpoint_id_from_str, parsed_from, EndpointId};
use crate::text::{
    ascii_bytes, bytes_to_text, decimal_text, hex_text, is_ascii_text, lemma_ascii_bytes_concat,
    lemma_ascii_utf8, lemma_decimal_text_digits, lemma_hex_text_is_ascii,
    lemma_text_of_ascii_bytes, text_of_bytes, text_to_bytes, to_decimal, utf8_bytes,
};
use vstd::prelude::*;
use vstd::slice::slice_subrange;
use vstd::string::*;

verus! {

/// The key of the room's state.
pub const KEY_APP_STATE: &'static str = "app_state";

/// The key of the current host's identity.
pub const KEY_HOST_ID: &'static str = "host_id";

/// The key of the game's state.
pub const KEY_GAME_STATE: &'static str = "game_state";

/// Before an identity: the key under which that peer announces itself.
pub const PREFIX_JOIN: &'static str = "join_request.";

/// Before an identity: the key under which that peer announces that it leaves.
pub const PREFIX_QUIT: &'static str = "quit_request.";

/// Before an identity: the key of that peer's latest pending action.
pub const PREFIX_ACTION: &'static str = "action.";

/// Before a time and an identity: the key of one chat message.
pub const PREFIX_CHAT: &'static str = "chat.";

/// Before an identity: the key of the host's record of that peer.
pub const PREFIX_PEER: &'static str = "peer.";

/// The byte that parts a key.
pub const DOT: u8 = 46;

/// The key that is a prefix followed by an identity's text.
pub open spec fn id_key(prefix: Seq<char>, id: Seq<u8>) -> Seq<u8> {
    ascii_bytes(prefix + hex_text(id))
}

/// The key of the chat message that the peer `id` sent at `timestamp`.
pub open spec fn chat_key(timestamp: u64, id: Seq<u8>) -> Seq<u8> {
    ascii_bytes(PREFIX_CHAT@ + decimal_text(timestamp as nat) + "."@ + hex_text(id))
}

/// True when the key begins with the prefix.
pub open spec fn key_has_prefix(key: Seq<u8>, prefix: Seq<char>) -> bool {
    ascii_bytes(prefix).is_prefix_of(key)
}

/// The text after a prefix of the given length.
pub open spec fn text_after(key: Seq<u8>, prefix: Seq<char>) -> Seq<char> {
    text_of_bytes(key.skip(prefix.len() as int))
}

/// The number of bytes up to and including the last dot, 0 where there is none.
pub open spec fn last_part_start(key: Seq<u8>) -> int
    decreases key.len(),
{
    if key.len() == 0 {
        0
    } else if key.last() == DOT {
        key.len() as int
    } else {
        last_part_start(key.drop_last())
    }
}

/// The text after the key's last dot.
pub open spec fn text_after_last_dot(key: Seq<u8>) -> Seq<char> {
    text_of_bytes(key.skip(last_part_start(key)))
}

/// What a key stands for, with the text of the identity that it holds.
pub enum KeyClass {
    Join(Seq<char>),
    QuitRequest(Seq<char>),
    ActionRequest(Seq<char>),
    ChatMessage(Seq<char>),
    PeerEntry,
    GameStateUpdate,
    AppStateUpdate,
    HostUpdate,
    Unknown,
}

/// What the key stands for in the schema.
pub open spec fn key_class(key: Seq<u8>) -> KeyClass {
    if key_has_prefix(key, PREFIX_JOIN@) {
        KeyClass::Join(text_after(key, PREFIX_JOIN@))
    } else if key_has_prefix(key, PREFIX_ACTION@) {
        KeyClass::ActionRequest(text_after(key, PREFIX_ACTION@))
    } else if key_has_prefix(key, PREFIX_CHAT@) {
        KeyClass::ChatMessage(text_after_last_dot(key))
    } else if key_has_prefix(key, PREFIX_PEER@) {
        KeyClass::PeerEntry
    } else if key == ascii_bytes(KEY_GAME_STATE@) {
        KeyClass::GameStateUpdate
    } else if key == ascii_bytes(KEY_APP_STATE@) {
        KeyClass::AppStateUpdate
    } else if key == ascii_bytes(KEY_HOST_ID@) {
        KeyClass::HostUpdate
    } else if key_has_prefix(key, PREFIX_QUIT@) {
        KeyClass::QuitRequest(text_after(key, PREFIX_QUIT@))
    } else {
        KeyClass::Unknown
    }
}

/// The schema's words hold characters below 128 only.
pub proof fn lemma_schema_is_ascii()
    ensures
        is_ascii_text(KEY_APP_STATE@),
        is_ascii_text(KEY_HOST_ID@),
        is_ascii_text(KEY_GAME_STATE@),
        is_ascii_text(PREFIX_JOIN@),
        is_ascii_text(PREFIX_QUIT@),
        is_ascii_text(PREFIX_ACTION@),
        is_ascii_text(PREFIX_CHAT@),
        is_ascii_text(PREFIX_PEER@),
        is_ascii_text("."@),
        ascii_bytes("."@) == seq![DOT],
{
    reveal_strlit("app_state");
    reveal_strlit("host_id");
    reveal_strlit("game_state");
    reveal_strlit("join_request.");
    reveal_strlit("quit_request.");
    reveal_strlit("action.");
    reveal_strlit("chat.");
    reveal_strlit("peer.");
    reveal_strlit(".");
    assert(ascii_bytes("."@) =~= seq![DOT]);
}

/// A key whose first byte is not the first of a word does not begin with the word.
pub proof fn lemma_first_byte_differs(key: Seq<u8>, word: Seq<char>)
    requires
        word.len() > 0,
        key.len() > 0 ==> key[0] != word[0] as u8,
    ensures
        !key_has_prefix(key, word),
        key != ascii_bytes(word),
{
    if key.len() > 0 && key_has_prefix(key, word) {
        assert(key.subrange(0, word.len() as int)[0] == ascii_bytes(word)[0]);
    }
    if key.len() > 0 && key == ascii_bytes(word) {
        assert(key[0] == ascii_bytes(word)[0]);
    }
}

/// A key whose second byte is not the second of a word does not begin with the word.
pub proof fn lemma_second_byte_differs(key: Seq<u8>, word: Seq<char>)
    requires
        word.len() > 1,
        key.len() > 1 ==> key[1] != word[1] as u8,
    ensures
        !key_has_prefix(key, word),
        key != ascii_bytes(word),
{
    if key.len() > 1 && key_has_prefix(key, word) {
        assert(key.subrange(0, word.len() as int)[1] == ascii_bytes(word)[1]);
    }
    if key.len() > 1 && key == ascii_bytes(word) {
        assert(key[1] == ascii_bytes(word)[1]);
    }
}

/// A key that is spelled from a word and an identity begins with the word,
/// and the text behind the word is the identity's text.
pub proof fn lemma_id_key_parts(prefix: Seq<char>, id: Seq<u8>)
    requires
        is_ascii_text(prefix),
    ensures
        id_key(prefix, id) == ascii_bytes(prefix) + ascii_bytes(hex_text(id)),
        key_has_prefix(id_key(prefix, id), prefix),
        text_after(id_key(prefix, id), prefix) == hex_text(id),
{
    let key = id_key(prefix, id);
    lemma_ascii_bytes_concat(prefix, hex_text(id));
    assert(key.subrange(0, prefix.len() as int) =~= ascii_bytes(prefix));
    assert(key.skip(prefix.len() as int) =~= ascii_bytes(hex_text(id)));
    lemma_hex_text_is_ascii(id);
    lemma_text_of_ascii_bytes(hex_text(id));
}

/// The identity's text holds no dot.
pub proof fn lemma_hex_text_has_no_dot(id: Seq<u8>)
    ensures
        forall|i: int|
            0 <= i < ascii_bytes(hex_text(id)).len() ==> #[trigger] ascii_bytes(hex_text(id))[i]
                != DOT,
{
    reveal_strlit("0123456789abcdef");
    assert forall|i: int| 0 <= i < ascii_bytes(hex_text(id)).len() implies #[trigger] ascii_bytes(
        hex_text(id),
    )[i] != DOT by {
        let v = if i % 2 == 0 {
            id[i / 2] as int / 16
        } else {
            id[i / 2] as int % 16
        };
        assert(0 <= v < 16);
        assert(hex_text(id)[i] == crate::text::DIGITS@[v]);
    }
}

/// Behind a dot that no dot follows, the last part begins.
pub proof fn lemma_last_part_start(front: Seq<u8>, back: Seq<u8>)
    requires
        front.len() > 0,
        front.last() == DOT,
        forall|i: int| 0 <= i < back.len() ==> #[trigger] back[i] != DOT,
    ensures
        last_part_start(front + back) == front.len(),
    decreases back.len(),
{
    if back.len() == 0 {
        assert(front + back =~= front);
    } else {
        assert((front + back).last() == back.last());
        assert((front + back).drop_last() =~= front + back.drop_last());
        lemma_last_part_start(front, back.drop_last());
    }
}

/// The key of a chat message begins with the chat's word, and the text
/// behind its last dot is the sender's text.
pub proof fn lemma_chat_key_parts(timestamp: u64, id: Seq<u8>)
    ensures
        chat_key(timestamp, id) == ascii_bytes(PREFIX_CHAT@) + ascii_bytes(
            decimal_text(timestamp as nat),
        ) + seq![DOT] + ascii_bytes(hex_text(id)),
        key_has_prefix(chat_key(timestamp, id), PREFIX_CHAT@),
        text_after_last_dot(chat_key(timestamp, id)) == hex_text(id),
{
    lemma_schema_is_ascii();
    let key = chat_key(timestamp, id);
    let time = decimal_text(timestamp as nat);
    let front = ascii_bytes(PREFIX_CHAT@) + ascii_bytes(time) + seq![DOT];
    lemma_ascii_bytes_concat(PREFIX_CHAT@, time);
    lemma_ascii_bytes_concat(PREFIX_CHAT@ + time, "."@);
    lemma_ascii_bytes_concat(PREFIX_CHAT@ + time + "."@, hex_text(id));
    assert(key == front + ascii_bytes(hex_text(id)));
    assert(key.subrange(0, PREFIX_CHAT@.len() as int) =~= ascii_bytes(PREFIX_CHAT@));
    lemma_hex_text_has_no_dot(id);
    lemma_last_part_start(front, ascii_bytes(hex_text(id)));
    assert(key.skip(front.len() as int) =~= ascii_bytes(hex_text(id)));
    lemma_hex_text_is_ascii(id);
    lemma_text_of_ascii_bytes(hex_text(id));
}

/// Each key that the schema spells stands for what it was spelled for.
pub proof fn lemma_key_classes(id: Seq<u8>, timestamp: u64)
    ensures
        key_class(id_key(PREFIX_JOIN@, id)) == KeyClass::Join(hex_text(id)),
        key_class(id_key(PREFIX_ACTION@, id)) == KeyClass::ActionRequest(hex_text(id)),
        key_class(chat_key(timestamp, id)) == KeyClass::ChatMessage(hex_text(id)),
        key_class(id_key(PREFIX_PEER@, id)) == KeyClass::PeerEntry,
        key_class(id_key(PREFIX_QUIT@, id)) == KeyClass::QuitRequest(hex_text(id)),
        key_class(ascii_bytes(KEY_GAME_STATE@)) == KeyClass::GameStateUpdate,
        key_class(ascii_bytes(KEY_APP_STATE@)) == KeyClass::AppStateUpdate,
        key_class(ascii_bytes(KEY_HOST_ID@)) == KeyClass::HostUpdate,
{
    lemma_schema_is_ascii();
    reveal_strlit("app_state");
    reveal_strlit("host_id");
    reveal_strlit("game_state");
    reveal_strlit("join_request.");
    reveal_strlit("quit_request.");
    reveal_strlit("action.");
    reveal_strlit("chat.");
    reveal_strlit("peer.");
    lemma_id_key_parts(PREFIX_JOIN@, id);
    lemma_id_key_parts(PREFIX_ACTION@, id);
    lemma_id_key_parts(PREFIX_PEER@, id);
    lemma_id_key_parts(PREFIX_QUIT@, id);
    lemma_chat_key_parts(timestamp, id);
    let join = id_key(PREFIX_JOIN@, id);
    let action = id_key(PREFIX_ACTION@, id);
    let chat = chat_key(timestamp, id);
    let peer = id_key(PREFIX_PEER@, id);
    let quit = id_key(PREFIX_QUIT@, id);
    let game = ascii_bytes(KEY_GAME_STATE@);
    let app = ascii_bytes(KEY_APP_STATE@);
    let host = ascii_bytes(KEY_HOST_ID@);
    assert(join[0] == 106 && action[0] == 97 && action[1] == 99 && chat[0] == 99 && peer[0] == 112
        && quit[0] == 113 && game[0] == 103 && app[0] == 97 && app[1] == 112 && host[0] == 104);
    lemma_first_byte_differs(action, PREFIX_JOIN@);
    lemma_first_byte_differs(chat, PREFIX_JOIN@);
    lemma_first_byte_differs(chat, PREFIX_ACTION@);
    lemma_first_byte_differs(peer, PREFIX_JOIN@);
    lemma_first_byte_differs(peer, PREFIX_ACTION@);
    lemma_first_byte_differs(peer, PREFIX_CHAT@);
    lemma_first_byte_differs(quit, PREFIX_JOIN@);
    lemma_first_byte_differs(quit, PREFIX_ACTION@);
    lemma_first_byte_differs(quit, PREFIX_CHAT@);
    lemma_first_byte_differs(quit, PREFIX_PEER@);
    lemma_first_byte_differs(quit, KEY_GAME_STATE@);
    lemma_first_byte_differs(quit, KEY_APP_STATE@);
    lemma_first_byte_differs(quit, KEY_HOST_ID@);
    lemma_first_byte_differs(game, PREFIX_JOIN@);
    lemma_first_byte_differs(game, PREFIX_ACTION@);
    lemma_first_byte_differs(game, PREFIX_CHAT@);
    lemma_first_byte_differs(game, PREFIX_PEER@);
    lemma_first_byte_differs(app, PREFIX_JOIN@);
    lemma_second_byte_differs(app, PREFIX_ACTION@);
    lemma_first_byte_differs(app, PREFIX_CHAT@);
    lemma_first_byte_differs(app, PREFIX_PEER@);
    lemma_first_byte_differs(app, KEY_GAME_STATE@);
    lemma_first_byte_differs(host, PREFIX_JOIN@);
    lemma_first_byte_differs(host, PREFIX_ACTION@);
    lemma_first_byte_differs(host, PREFIX_CHAT@);
    lemma_first_byte_differs(host, PREFIX_PEER@);
    lemma_first_byte_differs(host, KEY_GAME_STATE@);
    lemma_first_byte_differs(host, KEY_APP_STATE@);
}

/// Tells whether a key begins with the bytes of a word.
pub fn has_prefix(key: &[u8], prefix: &str) -> (r: bool)
    ensures
        r == utf8_bytes(prefix@).is_prefix_of(key@),
        is_ascii_text(prefix@) ==> r == key_has_prefix(key@, prefix@),
{
    proof {
        if is_ascii_text(prefix@) {
            lemma_ascii_utf8(prefix@);
        }
    }
    let word = prefix.as_bytes();
    if word.len() > key.len() {
        return false;
    }
    let mut i: usize = 0;
    while i < word.len()
        invariant
            i <= word.len() <= key.len(),
            word@ == utf8_bytes(prefix@),
            is_ascii_text(prefix@) ==> utf8_bytes(prefix@) == ascii_bytes(prefix@),
            forall|j: int| 0 <= j < i ==> key@[j] == word@[j],
        decreases word.len() - i,
    {
        if key[i] != word[i] {
            assert(key@.subrange(0, word@.len() as int)[i as int] != word@[i as int]);
            return false;
        }
        i = i + 1;
    }
    assert(word@ =~= key@.subrange(0, word@.len() as int));
    true
}

/// Tells whether a key is the bytes of a word.
pub fn is_key(key: &[u8], word: &str) -> (r: bool)
    ensures
        r == (key@ == utf8_bytes(word@)),
        is_ascii_text(word@) ==> r == (key@ == ascii_bytes(word@)),
{
    let begins = has_prefix(key, word);
    proof {
        if is_ascii_text(word@) {
            lemma_ascii_utf8(word@);
        }
        if begins && key@.len() == utf8_bytes(word@).len() {
            assert(key@ =~= key@.subrange(0, utf8_bytes(word@).len() as int));
        }
    }
    begins && key.len() == word.len()
}

/// Finds where the part after the key's last dot begins.
pub fn find_last_part(key: &[u8]) -> (r: usize)
    ensures
        r == last_part_start(key@),
        r <= key.len(),
{
    let mut end: usize = key.len();
    assert(key@.take(end as int) =~= key@);
    while end > 0
        invariant
            end <= key.len(),
            last_part_start(key@) == last_part_start(key@.take(end as int)),
        decreases end,
    {
        if key[end - 1] == DOT {
            return end;
        }
        assert(key@.take(end as int).drop_last() =~= key@.take(end - 1));
        end = end - 1;
    }
    0
}

/// Reads the identity that a key holds from position `from` on.
pub fn id_in_key(key: &[u8], from: usize) -> (r: Result<EndpointId, String>)
    requires
        from <= key.len(),
    ensures
        parsed_from(r, text_of_bytes(key@.skip(from as int))),
{
    let part = slice_subrange(key, from, key.len());
    assert(part@ =~= key@.skip(from as int));
    let text = bytes_to_text(part);
    endpoint_id_from_str(text.as_str())
}

/// Spells a key from a word and an identity: the bytes of the word and of
/// the identity's text behind it.
pub fn key_for(prefix: &str, id: &EndpointId) -> (r: Vec<u8>)
    ensures
        r@ == utf8_bytes(prefix@ + hex_text(id@)),
        is_ascii_text(prefix@) ==> r@ == id_key(prefix@, id@),
{
    let mut text = prefix.to_owned();
    let id_text = id.to_string();
    text.append(id_text.as_str());
    proof {
        lemma_hex_text_is_ascii(id@);
        if is_ascii_text(prefix@) {
            vstd::utf8::is_ascii_chars_concat(text@, prefix@, hex_text(id@));
        }
    }
    text_to_bytes(text.as_str())
}

/// Spells the key of a chat message.
pub fn chat_key_for(timestamp: u64, id: &EndpointId) -> (r: Vec<u8>)
    ensures
        r@ == chat_key(timestamp, id@),
{
    let mut text = PREFIX_CHAT.to_owned();
    let time_text = to_decimal(timestamp);
    text.append(time_text.as_str());
    let ghost first = text@;
    text.append(".");
    let ghost second = text@;
    let id_text = id.to_string();
    text.append(id_text.as_str());
    proof {
        lemma_schema_is_ascii();
        lemma_hex_text_is_ascii(id@);
        lemma_decimal_text_digits(timestamp as nat);
        vstd::utf8::is_ascii_chars_concat(first, PREFIX_CHAT@, decimal_text(timestamp as nat));
        vstd::utf8::is_ascii_chars_concat(second, first, "."@);
        vstd::utf8::is_ascii_chars_concat(text@, second, hex_text(id@));
    }
    text_to_bytes(text.as_str())
}

} // verus!
