//! What a room tells its user, and how the document's events lead to it.

pub mod pipeline;
pub mod process;

pub use pipeline::handle_event;
pub use process::{expected_content, process_entry, Content, ContentKind, Outcome, RoomView};

use crate::document::{ContentHash, ContentStatus, Entry, LiveEvent};
use crate::endpoint::EndpointId;
use crate::logic::GameLogic;
use crate::peer::{records_text, PeerMap};
use crate::room::chat::ChatMessage;
use crate::room::state::AppState;
use crate::text::labelled;
use vstd::prelude::*;
use vstd::string::*;

verus! {

/// What a room tells its user.
#[derive(Debug, Clone, PartialEq, Eq)]
pub enum UiEvent<G: GameLogic> {
    /// The peers of the room, after one of them changed.
    Peer(PeerMap),
    /// The game's state, after the host changed it.
    GameState(G::GameState),
    /// The room's state, after the host changed it.
    AppState(AppState),
    /// A chat message, with the name of its sender.
    Chat { sender: String, msg: ChatMessage },
    /// News of the host.
    Host(HostEvent),
    /// Something went wrong; the room goes on.
    Error(String),
}

/// Calls `format!` with `{:?}`: the value as its `Debug` writes it. Nothing
/// is claimed of the text.
#[verifier::external_body]
fn debug_text<T: core::fmt::Debug>(value: &T) -> (r: String) {
    format!("{:?}", value)
}

/// True when `text` is the label, some detail and a closing bracket.
pub open spec fn bracketed(text: Seq<char>, label: Seq<char>) -> bool {
    exists|detail: Seq<char>| text == label + detail + ")"@
}

impl<G: GameLogic> UiEvent<G> {
    /// True when `text` stands for the event. A game state and a chat message
    /// stand in the words of their `Debug`.
    pub open spec fn has_text(self, text: Seq<char>) -> bool {
        match self {
            UiEvent::Peer(peers) => text == "PeerUpdated("@ + records_text(peers.records()) + ")"@,
            UiEvent::GameState(_) => bracketed(text, "GameStateUpdated("@),
            UiEvent::AppState(state) => text == "AppStateChanged("@ + state.name_text() + ")"@,
            UiEvent::Chat { .. } => bracketed(text, "Chat("@),
            UiEvent::Host(HostEvent::Changed { to }) => text == "HostSet("@ + to@ + ")"@,
            UiEvent::Host(HostEvent::Offline) => text == "HostOffline"@,
            UiEvent::Host(HostEvent::Online) => text == "HostOnline"@,
            UiEvent::Error(message) => text == "Error("@ + message@ + ")"@,
        }
    }

    /// The event in words.
    pub fn to_string(&self) -> (r: String)
        ensures
            self.has_text(r@),
    {
        match self {
            UiEvent::Peer(peers) => {
                let inner = peers.to_string();
                let mut out = labelled("PeerUpdated(", inner.as_str());
                out.append(")");
                out
            },
            UiEvent::GameState(state) => {
                let inner = debug_text(state);
                let mut out = labelled("GameStateUpdated(", inner.as_str());
                out.append(")");
                assert(out@ == "GameStateUpdated("@ + inner@ + ")"@);
                out
            },
            UiEvent::AppState(state) => {
                let mut out = labelled("AppStateChanged(", state.name());
                out.append(")");
                out
            },
            UiEvent::Chat { sender: _, msg } => {
                let inner = debug_text(msg);
                let mut out = labelled("Chat(", inner.as_str());
                out.append(")");
                assert(out@ == "Chat("@ + inner@ + ")"@);
                out
            },
            UiEvent::Host(HostEvent::Changed { to }) => {
                let mut out = labelled("HostSet(", to.as_str());
                out.append(")");
                out
            },
            UiEvent::Host(HostEvent::Offline) => "HostOffline".to_owned(),
            UiEvent::Host(HostEvent::Online) => "HostOnline".to_owned(),
            UiEvent::Error(message) => {
                let mut out = labelled("Error(", message.as_str());
                out.append(")");
                out
            },
        }
    }
}

/// News of the host.
#[derive(Clone, Debug, PartialEq, Eq)]
pub enum HostEvent {
    /// The host can be reached.
    Online,
    /// The host cannot be reached.
    Offline,
    /// The room has a new host, of this name.
    Changed { to: String },
}

/// An event of the document, as far as a room cares.
#[derive(Debug, PartialEq, Eq)]
pub enum NetworkEvent {
    /// An entry whose content can be read here.
    Update(Entry),
    /// A peer has come into reach.
    Joiner(EndpointId),
    /// A peer has gone out of reach.
    Leaver(EndpointId),
    /// A sync failed, for this reason.
    SyncFailed(String),
    /// A sync succeeded.
    SyncSucceeded,
}

/// The entries of a list that wait for the content with this hash, in the
/// order of the list.
pub open spec fn entries_under(entries: Seq<Entry>, hash: Seq<u8>) -> Seq<Entry>
    decreases entries.len(),
{
    if entries.len() == 0 {
        Seq::empty()
    } else if entries.last().content_hash@ == hash {
        entries_under(entries.drop_last(), hash).push(entries.last())
    } else {
        entries_under(entries.drop_last(), hash)
    }
}

/// The entries of a list that wait for other content than the one with this
/// hash, in the order of the list.
pub open spec fn entries_beside(entries: Seq<Entry>, hash: Seq<u8>) -> Seq<Entry>
    decreases entries.len(),
{
    if entries.len() == 0 {
        Seq::empty()
    } else if entries.last().content_hash@ == hash {
        entries_beside(entries.drop_last(), hash)
    } else {
        entries_beside(entries.drop_last(), hash).push(entries.last())
    }
}

/// The events that hand on a list of entries, one for each, in their order.
pub open spec fn updates_of(entries: Seq<Entry>) -> Seq<NetworkEvent> {
    Seq::new(entries.len(), |i: int| NetworkEvent::Update(entries[i]))
}

/// The entries that wait for their content, in the order in which they came.
/// Entries that wait for the same content wait side by side.
pub struct PendingEntries {
    entries: Vec<Entry>,
}

impl View for PendingEntries {
    type V = Seq<Entry>;

    closed spec fn view(&self) -> Seq<Entry> {
        self.entries@
    }
}

impl PendingEntries {
    /// No entry waits.
    pub fn new() -> (r: PendingEntries)
        ensures
            r@ == Seq::<Entry>::empty(),
    {
        PendingEntries { entries: Vec::new() }
    }

    /// The number of entries that wait.
    pub fn len(&self) -> (r: usize)
        ensures
            r == self@.len(),
    {
        self.entries.len()
    }

    /// Tells whether an entry waits for this content.
    pub fn contains_key(&self, hash: &ContentHash) -> (r: bool)
        ensures
            r == (entries_under(self@, hash@).len() > 0),
    {
        let mut i: usize = 0;
        proof {
            assert(self.entries@.take(0) =~= Seq::<Entry>::empty());
        }
        while i < self.entries.len()
            invariant
                i <= self.entries@.len(),
                entries_under(self.entries@.take(i as int), hash@).len() == 0,
            decreases self.entries@.len() - i,
        {
            proof {
                assert(self.entries@.take(i + 1).drop_last() =~= self.entries@.take(i as int));
                assert(self.entries@.take(i + 1).last() == self.entries@[i as int]);
            }
            if self.entries[i].content_hash == *hash {
                proof {
                    lemma_entries_under_grows(self.entries@, i + 1, hash@);
                }
                return true;
            }
            i = i + 1;
        }
        proof {
            assert(self.entries@.take(i as int) =~= self.entries@);
        }
        false
    }

    /// Lets an entry wait for its content, behind the entries that wait already.
    pub fn insert(&mut self, entry: Entry)
        ensures
            final(self)@ == old(self)@.push(entry),
    {
        self.entries.push(entry);
    }

    /// Takes out the entries that wait for this content, in the order in
    /// which they came; the others wait on, in theirs.
    pub fn remove(&mut self, hash: &ContentHash) -> (r: Vec<Entry>)
        ensures
            r@ == entries_under(old(self)@, hash@),
            final(self)@ == entries_beside(old(self)@, hash@),
    {
        let mut rest: Vec<Entry> = Vec::new();
        std::mem::swap(&mut self.entries, &mut rest);
        let ghost all = rest@;
        let mut released: Vec<Entry> = Vec::new();
        let mut kept: Vec<Entry> = Vec::new();
        let ghost mut done: int = 0;
        proof {
            assert(all.take(0) =~= Seq::<Entry>::empty());
            assert(all.skip(0) =~= all);
        }
        while rest.len() > 0
            invariant
                0 <= done <= all.len(),
                rest@ == all.skip(done),
                released@ == entries_under(all.take(done), hash@),
                kept@ == entries_beside(all.take(done), hash@),
            decreases rest@.len(),
        {
            let entry = rest.remove(0);
            proof {
                assert(entry == all[done]);
                assert(rest@ =~= all.skip(done + 1));
                assert(all.take(done + 1).drop_last() =~= all.take(done));
                assert(all.take(done + 1).last() == all[done]);
                done = done + 1;
            }
            if entry.content_hash == *hash {
                released.push(entry);
            } else {
                kept.push(entry);
            }
        }
        proof {
            assert(all.take(done) =~= all);
        }
        self.entries = kept;
        released
    }
}

/// Once an entry waits for some content, it still does when more entries have come.
pub proof fn lemma_entries_under_grows(entries: Seq<Entry>, upto: int, hash: Seq<u8>)
    requires
        0 <= upto <= entries.len(),
    ensures
        entries_under(entries.take(upto), hash).len() <= entries_under(entries, hash).len(),
    decreases entries.len() - upto,
{
    if upto < entries.len() {
        assert(entries.take(upto + 1).drop_last() =~= entries.take(upto));
        lemma_entries_under_grows(entries, upto + 1, hash);
    } else {
        assert(entries.take(upto) =~= entries);
    }
}

/// What `NetworkEvent::parse` makes of an event, given the entries that
/// wait: the events for the room, in the order in which the room is to take
/// them.
pub open spec fn parsed_event(event: LiveEvent, pending: Seq<Entry>) -> Seq<NetworkEvent> {
    match event {
        LiveEvent::InsertLocal { entry } => seq![NetworkEvent::Update(entry)],
        LiveEvent::InsertRemote { entry, content_status, .. } => if content_status
            == ContentStatus::Complete {
            seq![NetworkEvent::Update(entry)]
        } else {
            Seq::empty()
        },
        LiveEvent::ContentReady { hash } => updates_of(entries_under(pending, hash@)),
        LiveEvent::PendingContentReady => Seq::empty(),
        LiveEvent::NeighborUp(id) => seq![NetworkEvent::Joiner(id)],
        LiveEvent::NeighborDown(id) => seq![NetworkEvent::Leaver(id)],
        LiveEvent::SyncFinished { failure, .. } => match failure {
            Some(reason) => seq![NetworkEvent::SyncFailed(reason)],
            None => seq![NetworkEvent::SyncSucceeded],
        },
    }
}

/// The entries that wait after an event.
pub open spec fn pending_after(event: LiveEvent, pending: Seq<Entry>) -> Seq<Entry> {
    match event {
        LiveEvent::InsertRemote { entry, content_status, .. } => if content_status
            == ContentStatus::Complete {
            pending
        } else {
            pending.push(entry)
        },
        LiveEvent::ContentReady { hash } => entries_beside(pending, hash@),
        _ => pending,
    }
}

/// One event, as a list.
fn only(event: NetworkEvent) -> (r: Vec<NetworkEvent>)
    ensures
        r@ == seq![event],
{
    let mut out: Vec<NetworkEvent> = Vec::new();
    out.push(event);
    assert(out@ =~= seq![event]);
    out
}

/// The events that hand on a list of entries.
fn updates(entries: Vec<Entry>) -> (r: Vec<NetworkEvent>)
    ensures
        r@ == updates_of(entries@),
{
    let mut rest = entries;
    let mut out: Vec<NetworkEvent> = Vec::new();
    let ghost mut done: int = 0;
    proof {
        assert(entries@.skip(0) =~= entries@);
        assert(out@ =~= updates_of(entries@.take(0)));
    }
    while rest.len() > 0
        invariant
            0 <= done <= entries@.len(),
            rest@ == entries@.skip(done),
            out@ == updates_of(entries@.take(done)),
        decreases rest@.len(),
    {
        let entry = rest.remove(0);
        proof {
            assert(entry == entries@[done]);
            assert(rest@ =~= entries@.skip(done + 1));
        }
        out.push(NetworkEvent::Update(entry));
        proof {
            assert(out@ =~= updates_of(entries@.take(done + 1)));
            done = done + 1;
        }
    }
    proof {
        assert(entries@.take(done) =~= entries@);
    }
    out
}

impl NetworkEvent {
    /// Turns an event of the document into events for the room.
    ///
    /// An entry is handed on only once its content can be read here: a remote
    /// entry whose content is not complete waits until the document says that
    /// the content is ready. Then every entry that waits for that content is
    /// handed on, in the order in which the entries came; none is lost.
    pub fn parse(event: LiveEvent, pending_entries: &mut PendingEntries) -> (r: Vec<NetworkEvent>)
        ensures
            r@ == parsed_event(event, old(pending_entries)@),
            final(pending_entries)@ == pending_after(event, old(pending_entries)@),
    {
        match event {
            LiveEvent::InsertLocal { entry } => only(NetworkEvent::Update(entry)),
            LiveEvent::InsertRemote { entry, content_status, from: _ } => {
                match content_status {
                    ContentStatus::Complete => only(NetworkEvent::Update(entry)),
                    _ => {
                        pending_entries.insert(entry);
                        Vec::new()
                    },
                }
            },
            LiveEvent::ContentReady { hash } => updates(pending_entries.remove(&hash)),
            LiveEvent::PendingContentReady => Vec::new(),
            LiveEvent::NeighborUp(id) => only(NetworkEvent::Joiner(id)),
            LiveEvent::NeighborDown(id) => only(NetworkEvent::Leaver(id)),
            LiveEvent::SyncFinished { failure, peer: _ } => match failure {
                Some(reason) => only(NetworkEvent::SyncFailed(reason)),
                None => only(NetworkEvent::SyncSucceeded),
            },
        }
    }
}

} // verus!
