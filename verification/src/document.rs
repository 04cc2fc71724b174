//! What the replicated document hands to a room: entries, content hashes and
//! the events of its change stream, as plain values.

use crate::endpoint::EndpointId;
use crate::text::same_bytes;
use vstd::prelude::*;

verus! {

/// The hash of an entry's content.
#[derive(Clone, Copy, Debug, Eq, Hash)]
pub struct ContentHash {
    pub bytes: [u8; 32],
}

impl View for ContentHash {
    type V = Seq<u8>;

    open spec fn view(&self) -> Seq<u8> {
        self.bytes@
    }
}

impl PartialEq for ContentHash {
    fn eq(&self, other: &Self) -> (r: bool) {
        same_bytes(&self.bytes, &other.bytes)
    }
}

impl vstd::std_specs::cmp::PartialEqSpecImpl for ContentHash {
    open spec fn obeys_eq_spec() -> bool {
        true
    }

    open spec fn eq_spec(&self, other: &Self) -> bool {
        self@ == other@
    }
}

impl ContentHash {
    /// The hash with the given bytes.
    pub fn new(bytes: [u8; 32]) -> (r: ContentHash)
        ensures
            r.bytes == bytes,
    {
        ContentHash { bytes }
    }
}

/// One revision of one key of the document.
#[derive(Clone, Debug, PartialEq, Eq)]
pub struct Entry {
    /// The key that was written.
    pub key: Vec<u8>,
    /// The hash under which the written value can be fetched.
    pub content_hash: ContentHash,
}

impl Entry {
    /// An entry of the given key and content.
    pub fn new(key: Vec<u8>, content_hash: ContentHash) -> (r: Entry)
        ensures
            r.key == key,
            r.content_hash == content_hash,
    {
        Entry { key, content_hash }
    }

    /// The entry's key.
    pub fn key(&self) -> (r: &[u8])
        ensures
            r@ == self.key@,
    {
        self.key.as_slice()
    }

    /// The hash of the entry's content.
    pub fn content_hash(&self) -> (r: ContentHash)
        ensures
            r == self.content_hash,
    {
        self.content_hash
    }
}

/// Whether the local replica holds an entry's content.
#[derive(Clone, Copy, Debug, PartialEq, Eq, Structural)]
pub enum ContentStatus {
    /// All of it is here.
    Complete,
    /// Part of it is here.
    Incomplete,
    /// None of it is here.
    Missing,
}

/// An event of the document's change stream.
#[derive(Clone, Debug, PartialEq, Eq)]
pub enum LiveEvent {
    /// This peer wrote an entry.
    InsertLocal { entry: Entry },
    /// Another peer's entry arrived.
    InsertRemote { from: EndpointId, entry: Entry, content_status: ContentStatus },
    /// The content with this hash can now be read here.
    ContentReady { hash: ContentHash },
    /// All content that was pending after a sync is here.
    PendingContentReady,
    /// A peer became a neighbour.
    NeighborUp(EndpointId),
    /// A peer is a neighbour no more.
    NeighborDown(EndpointId),
    /// A sync with a peer ended; `failure` holds the reason where it failed.
    SyncFinished { peer: EndpointId, failure: Option<String> },
}

} // verus!
