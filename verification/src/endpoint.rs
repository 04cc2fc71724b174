//! Endpoint identities: the stable 32-byte keys by which participants are known.

use crate::text::{hex_text, same_bytes, to_hex};
use std::str::FromStr;
use vstd::prelude::*;

verus! {

/// `iroh::KeyParsingError`: why a text names no key. It is carried through unread.
#[verifier::external_type_specification]
#[verifier::external_body]
pub struct ExKeyParsingError(iroh::KeyParsingError);

/// The key that a text names: the result of `iroh::EndpointId::from_str` on it,
/// as the key's 32 bytes, or `None` where the text names no key.
pub uninterp spec fn endpoint_key_of_text(text: Seq<char>) -> Option<Seq<u8>>;

/// Calls `iroh::EndpointId::from_str` and hands out the key's bytes.
///
/// Trusted: the result is the one named by [`endpoint_key_of_text`], and a key
/// that was parsed is named by its own lower-case hexadecimal text too (the
/// form that the key's `Display` writes and that `from_str` reads back).
#[verifier::external_body]
fn parse_key(text: &str) -> (r: Result<[u8; 32], iroh::KeyParsingError>)
    ensures
        match r {
            Ok(bytes) => endpoint_key_of_text(text@) == Some(bytes@) && endpoint_key_of_text(
                hex_text(bytes@),
            ) == Some(bytes@),
            Err(_) => endpoint_key_of_text(text@) is None,
        },
{
    match iroh::EndpointId::from_str(text) {
        Ok(id) => Ok(*id.as_bytes()),
        Err(e) => Err(e),
    }
}

/// True when the bytes are a key: their hexadecimal text names them.
pub open spec fn is_endpoint_key(bytes: Seq<u8>) -> bool {
    endpoint_key_of_text(hex_text(bytes)) == Some(bytes)
}

/// The identity of a participant.
#[derive(Clone, Copy, Debug, Eq, Hash)]
pub struct EndpointId {
    bytes: [u8; 32],
}

impl View for EndpointId {
    type V = Seq<u8>;

    closed spec fn view(&self) -> Seq<u8> {
        self.bytes@
    }
}

impl PartialEq for EndpointId {
    fn eq(&self, other: &Self) -> (r: bool) {
        same_bytes(&self.bytes, &other.bytes)
    }
}

impl vstd::std_specs::cmp::PartialEqSpecImpl for EndpointId {
    open spec fn obeys_eq_spec() -> bool {
        true
    }

    open spec fn eq_spec(&self, other: &Self) -> bool {
        self@ == other@
    }
}

/// What `endpoint_id_from_str` reports for a text that names no key.
pub open spec fn invalid_id_message(text: Seq<char>, reason: Seq<char>) -> Seq<char> {
    "Invalid EndpointId from key "@ + text + ": "@ + reason
}

/// True when `r` is what parsing `text` as an identity gives: the identity that
/// the text names, or a message that holds the text where it names none.
pub open spec fn parsed_from(r: Result<EndpointId, String>, text: Seq<char>) -> bool {
    match r {
        Ok(id) => endpoint_key_of_text(text) == Some(id@),
        Err(message) => endpoint_key_of_text(text) is None && is_invalid_id_message(
            message@,
            text,
        ),
    }
}

/// True when `message` is what is reported for `text`, with some reason.
pub open spec fn is_invalid_id_message(message: Seq<char>, text: Seq<char>) -> bool {
    exists|reason: Seq<char>| message == invalid_id_message(text, reason)
}

/// Parses an identity from its hexadecimal or base-32 text.
pub fn endpoint_id_from_str(id: &str) -> (r: Result<EndpointId, String>)
    ensures
        parsed_from(r, id@),
{
    match parse_key(id) {
        Ok(bytes) => Ok(EndpointId { bytes }),
        Err(e) => {
            let reason = e.to_string();
            let mut message = "Invalid EndpointId from key ".to_owned();
            message.append(id);
            message.append(": ");
            message.append(reason.as_str());
            assert(message@ == invalid_id_message(id@, reason@));
            Err(message)
        },
    }
}

impl EndpointId {
    #[verifier::type_invariant]
    spec fn well_formed(self) -> bool {
        is_endpoint_key(self.bytes@)
    }

    /// An identity has 32 bytes.
    pub proof fn lemma_view_len(id: EndpointId)
        ensures
            id@.len() == 32,
    {
    }

    /// Two identities with the same bytes are the same identity.
    pub proof fn lemma_view_injective(a: EndpointId, b: EndpointId)
        ensures
            a@ == b@ <==> a == b,
    {
        if a@ == b@ {
            assert(a.bytes =~= b.bytes);
        }
    }

    /// The identity with the given bytes, where they are a key.
    pub fn from_bytes(bytes: [u8; 32]) -> (r: Option<EndpointId>)
        ensures
            match r {
                Some(id) => id@ == bytes@ && is_endpoint_key(bytes@),
                None => !is_endpoint_key(bytes@),
            },
    {
        let text = to_hex(bytes.as_slice());
        match parse_key(text.as_str()) {
            Ok(found) => {
                if same_bytes(&found, &bytes) {
                    Some(EndpointId { bytes })
                } else {
                    None
                }
            },
            Err(_) => None,
        }
    }

    /// The identity's 32 bytes.
    pub fn as_bytes(&self) -> (r: &[u8; 32])
        ensures
            r@ == self@,
    {
        &self.bytes
    }

    /// The identity's text: 64 lower-case hexadecimal digits.
    pub fn to_string(&self) -> (r: String)
        ensures
            r@ == hex_text(self@),
            endpoint_key_of_text(r@) == Some(self@),
    {
        proof {
            use_type_invariant(self);
        }
        to_hex(self.bytes.as_slice())
    }
}

} // verus!
