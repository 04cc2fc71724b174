//! Peers of a room: who they are, how they present themselves, whether they are reachable.

use crate::endpoint::EndpointId;
use crate::text::{hex_text, lemma_hex_text_is_ascii};
use vstd::prelude::*;
use vstd::string::*;

verus! {

/// Whether a peer can be reached.
#[derive(Clone, Copy, Debug, PartialEq, Eq, Structural)]
pub enum PeerStatus {
    Online,
    Offline,
}

/// How a peer presents itself.
#[derive(Clone, Debug, PartialEq, Eq)]
pub struct PeerProfile {
    /// The name by which the peer is introduced.
    pub nickname: String,
    /// The address of a picture of the peer.
    pub avatar: Option<String>,
}

impl From<&str> for PeerProfile {
    fn from(nickname: &str) -> (r: PeerProfile)
        ensures
            r.nickname@ == nickname@,
            r.avatar is None,
    {
        PeerProfile { nickname: nickname.to_owned(), avatar: None }
    }
}

impl vstd::std_specs::convert::FromSpecImpl<&str> for PeerProfile {
    open spec fn obeys_from_spec() -> bool {
        false
    }

    open spec fn from_spec(nickname: &str) -> PeerProfile {
        arbitrary()
    }
}

impl PeerProfile {
    /// The profile of that nickname and no picture.
    pub fn new(nickname: &str) -> (r: PeerProfile)
        ensures
            r.nickname@ == nickname@,
            r.avatar is None,
    {
        PeerProfile { nickname: nickname.to_owned(), avatar: None }
    }

    /// A second copy of the profile.
    pub fn duplicate(&self) -> (r: PeerProfile)
        ensures
            r == *self,
    {
        let avatar = match &self.avatar {
            Some(address) => Some(address.clone()),
            None => None,
        };
        PeerProfile { nickname: self.nickname.clone(), avatar }
    }
}

/// The host's record of one peer.
#[derive(Clone, Debug, PartialEq, Eq)]
pub struct PeerInfo {
    pub id: EndpointId,
    pub profile: PeerProfile,
    pub status: PeerStatus,
    pub ready: bool,
    pub is_observer: bool,
}

impl PeerInfo {
    /// The record of a peer that has just been seen: online, not ready, and
    /// an observer until the host says otherwise.
    pub fn new(id: EndpointId, profile: PeerProfile) -> (r: PeerInfo)
        ensures
            r == (PeerInfo {
                id,
                profile,
                status: PeerStatus::Online,
                ready: false,
                is_observer: true,
            }),
    {
        PeerInfo { id, profile, status: PeerStatus::Online, ready: false, is_observer: true }
    }

    /// A second copy of the record.
    pub fn duplicate(&self) -> (r: PeerInfo)
        ensures
            r == *self,
    {
        PeerInfo {
            id: self.id,
            profile: self.profile.duplicate(),
            status: self.status,
            ready: self.ready,
            is_observer: self.is_observer,
        }
    }

    /// The record with another status.
    pub fn with_status(self, status: PeerStatus) -> (r: PeerInfo)
        ensures
            r == (PeerInfo { status, ..self }),
    {
        PeerInfo { status, ..self }
    }

    /// The text that stands for the peer: its nickname.
    pub fn to_string(&self) -> (r: String)
        ensures
            r@ == self.profile.nickname@,
    {
        self.profile.nickname.clone()
    }
}

/// The map that a list of records stands for: each identity with its record,
/// a later record of an identity in place of an earlier one.
pub open spec fn map_of_records(records: Seq<(EndpointId, PeerInfo)>) -> Map<Seq<u8>, PeerInfo>
    decreases records.len(),
{
    if records.len() == 0 {
        Map::empty()
    } else {
        map_of_records(records.drop_last()).insert(records.last().0@, records.last().1)
    }
}

/// True when no identity has two records in the list.
pub open spec fn distinct_ids(records: Seq<(EndpointId, PeerInfo)>) -> bool {
    forall|i: int, j: int|
        0 <= i < j < records.len() ==> (#[trigger] records[i]).0@ != (#[trigger] records[j]).0@
}

/// A list in which no identity occurs twice maps each identity to its record.
pub proof fn lemma_map_of_records(records: Seq<(EndpointId, PeerInfo)>)
    requires
        distinct_ids(records),
    ensures
        forall|i: int|
            0 <= i < records.len() ==> map_of_records(records).contains_key(
                (#[trigger] records[i]).0@,
            ) && map_of_records(records)[records[i].0@] == records[i].1,
        forall|k: Seq<u8>| #[trigger]
            map_of_records(records).contains_key(k) ==> exists|i: int|
                0 <= i < records.len() && (#[trigger] records[i]).0@ == k,
        map_of_records(records).dom().finite(),
        map_of_records(records).len() == records.len(),
    decreases records.len(),
{
    if records.len() > 0 {
        let front = records.drop_last();
        assert(distinct_ids(front)) by {
            assert forall|i: int, j: int| 0 <= i < j < front.len() implies (#[trigger] front[i]).0@
                != (#[trigger] front[j]).0@ by {
                assert(front[i] == records[i]);
                assert(front[j] == records[j]);
            }
        }
        lemma_map_of_records(front);
        let last = records.len() - 1;
        assert forall|i: int| 0 <= i < records.len() implies map_of_records(records).contains_key(
            (#[trigger] records[i]).0@,
        ) && map_of_records(records)[records[i].0@] == records[i].1 by {
            if i < last {
                assert(front[i] == records[i]);
                assert(records[i].0@ != records[last].0@);
            }
        }
        assert forall|k: Seq<u8>| #[trigger]
            map_of_records(records).contains_key(k) implies exists|i: int|
            0 <= i < records.len() && (#[trigger] records[i]).0@ == k by {
            if k == records[last].0@ {
                assert(records[last].0@ == k);
            } else {
                assert(map_of_records(front).contains_key(k));
                let i = choose|i: int| 0 <= i < front.len() && (#[trigger] front[i]).0@ == k;
                assert(records[i].0@ == k);
            }
        }
        assert(!map_of_records(front).contains_key(records[last].0@)) by {
            if map_of_records(front).contains_key(records[last].0@) {
                let i = choose|i: int|
                    0 <= i < front.len() && (#[trigger] front[i]).0@ == records[last].0@;
                assert(front[i] == records[i]);
                assert(records[i].0@ != records[last].0@);
            }
        }
    }
}

/// Putting a record in the place of the one with the same identity changes
/// the map at that identity only.
pub proof fn lemma_map_of_records_update(
    records: Seq<(EndpointId, PeerInfo)>,
    at: int,
    info: PeerInfo,
)
    requires
        distinct_ids(records),
        0 <= at < records.len(),
    ensures
        distinct_ids(records.update(at, (records[at].0, info))),
        map_of_records(records.update(at, (records[at].0, info))) == map_of_records(
            records,
        ).insert(records[at].0@, info),
{
    let after = records.update(at, (records[at].0, info));
    assert(distinct_ids(after)) by {
        assert forall|i: int, j: int| 0 <= i < j < after.len() implies (#[trigger] after[i]).0@ != (
        #[trigger] after[j]).0@ by {
            assert(after[i].0@ == records[i].0@);
            assert(after[j].0@ == records[j].0@);
        }
    }
    lemma_map_of_records(records);
    lemma_map_of_records(after);
    let wanted = map_of_records(records).insert(records[at].0@, info);
    assert forall|k: Seq<u8>| map_of_records(after).contains_key(k) == wanted.contains_key(
        k,
    ) by {
        if map_of_records(after).contains_key(k) {
            let i = choose|i: int| 0 <= i < after.len() && (#[trigger] after[i]).0@ == k;
            assert(records[i].0@ == k);
        }
        if wanted.contains_key(k) && k != records[at].0@ {
            let i = choose|i: int| 0 <= i < records.len() && (#[trigger] records[i]).0@ == k;
            assert(after[i].0@ == k);
        }
        if k == records[at].0@ {
            assert(after[at].0@ == k);
        }
    }
    assert forall|k: Seq<u8>| map_of_records(after).contains_key(k) implies map_of_records(
        after,
    )[k] == wanted[k] by {
        let i = choose|i: int| 0 <= i < after.len() && (#[trigger] after[i]).0@ == k;
        assert(map_of_records(after)[after[i].0@] == after[i].1);
        if i != at {
            assert(records[i].0@ == k);
            assert(map_of_records(records)[records[i].0@] == records[i].1);
            if i < at {
                assert(records[i].0@ != records[at].0@);
            } else {
                assert(records[at].0@ != records[i].0@);
            }
        }
    }
    assert(map_of_records(after) =~= wanted);
}

/// The line that stands for a peer: the first ten digits of its identity and its nickname.
pub open spec fn record_line(id: EndpointId, info: PeerInfo) -> Seq<char> {
    "["@ + hex_text(id@).subrange(0, 10) + "...]: '"@ + info.profile.nickname@ + "'\n"@
}

/// The lines that stand for a list of records.
pub open spec fn records_text(records: Seq<(EndpointId, PeerInfo)>) -> Seq<char>
    decreases records.len(),
{
    if records.len() == 0 {
        Seq::empty()
    } else {
        records_text(records.drop_last()) + record_line(records.last().0, records.last().1)
    }
}

/// A list of records with the bytes of each identity in the identity's place.
pub open spec fn order_of(records: Seq<(EndpointId, PeerInfo)>) -> Seq<(Seq<u8>, PeerInfo)> {
    Seq::new(records.len(), |i: int| (records[i].0@, records[i].1))
}

/// True when the identity has a record in the list.
pub open spec fn stands_in(order: Seq<(Seq<u8>, PeerInfo)>, id: Seq<u8>) -> bool {
    exists|i: int| 0 <= i < order.len() && (#[trigger] order[i]).0 == id
}

/// Where the identity's record stands in the list.
pub open spec fn place_in(order: Seq<(Seq<u8>, PeerInfo)>, id: Seq<u8>) -> int {
    choose|i: int| 0 <= i < order.len() && (#[trigger] order[i]).0 == id
}

/// The list after a record was put under an identity: in the place of the
/// record that the identity had, or behind the others where it had none.
pub open spec fn order_with(order: Seq<(Seq<u8>, PeerInfo)>, id: Seq<u8>, info: PeerInfo) -> Seq<
    (Seq<u8>, PeerInfo),
> {
    if stands_in(order, id) {
        order.update(place_in(order, id), (id, info))
    } else {
        order.push((id, info))
    }
}

/// In a list in which no identity occurs twice, an identity's record stands
/// at one place only.
pub proof fn lemma_place_in(records: Seq<(EndpointId, PeerInfo)>, at: int)
    requires
        distinct_ids(records),
        0 <= at < records.len(),
    ensures
        stands_in(order_of(records), records[at].0@),
        place_in(order_of(records), records[at].0@) == at,
{
    let order = order_of(records);
    let id = records[at].0@;
    assert(order[at].0 == id);
    let found = place_in(order, id);
    assert(order[found].0 == id);
    if found < at {
        assert(records[found].0@ != records[at].0@);
    } else if at < found {
        assert(records[at].0@ != records[found].0@);
    }
}

/// The peers of a room, each identity with one record, in the order in which
/// the identities were first put in.
#[derive(Debug, PartialEq, Eq)]
pub struct PeerMap {
    records: Vec<(EndpointId, PeerInfo)>,
}

impl View for PeerMap {
    type V = Map<Seq<u8>, PeerInfo>;

    closed spec fn view(&self) -> Map<Seq<u8>, PeerInfo> {
        map_of_records(self.records@)
    }
}

impl Clone for PeerMap {
    fn clone(&self) -> (r: PeerMap)
        ensures
            r.records() == self.records(),
            r.order() == self.order(),
            r@ == self@,
    {
        proof {
            use_type_invariant(self);
        }
        let mut records: Vec<(EndpointId, PeerInfo)> = Vec::new();
        let mut i: usize = 0;
        while i < self.records.len()
            invariant
                i <= self.records@.len(),
                records@ == self.records@.take(i as int),
            decreases self.records@.len() - i,
        {
            records.push((self.records[i].0, self.records[i].1.duplicate()));
            assert(records@ =~= self.records@.take(i + 1));
            i = i + 1;
        }
        assert(records@ =~= self.records@);
        PeerMap { records }
    }
}

impl Default for PeerMap {
    fn default() -> (r: PeerMap)
        ensures
            r@ == Map::<Seq<u8>, PeerInfo>::empty(),
            r.records() == Seq::<(EndpointId, PeerInfo)>::empty(),
            r.order() == Seq::<(Seq<u8>, PeerInfo)>::empty(),
    {
        PeerMap::new()
    }
}

impl PeerMap {
    #[verifier::type_invariant]
    spec fn well_formed(self) -> bool {
        distinct_ids(self.records@)
    }

    /// The records in their order.
    pub closed spec fn records(&self) -> Seq<(EndpointId, PeerInfo)> {
        self.records@
    }

    /// The records in their order, each with the bytes of its identity.
    pub closed spec fn order(&self) -> Seq<(Seq<u8>, PeerInfo)> {
        order_of(self.records@)
    }

    /// The order is that of the records.
    pub proof fn lemma_order(&self)
        ensures
            self.order() == order_of(self.records()),
    {
    }

    /// The map is the one that the records stand for.
    pub proof fn lemma_view(&self)
        ensures
            self@ == map_of_records(self.records()),
    {
    }

    /// A map of no peers.
    pub fn new() -> (r: PeerMap)
        ensures
            r@ == Map::<Seq<u8>, PeerInfo>::empty(),
            r.records() == Seq::<(EndpointId, PeerInfo)>::empty(),
            r.order() == Seq::<(Seq<u8>, PeerInfo)>::empty(),
    {
        let r = PeerMap { records: Vec::new() };
        assert(order_of(r.records@) =~= Seq::<(Seq<u8>, PeerInfo)>::empty());
        r
    }

    /// The number of peers.
    pub fn len(&self) -> (r: usize)
        ensures
            r == self@.len(),
            r == self.records().len(),
    {
        proof {
            use_type_invariant(self);
            lemma_map_of_records(self.records@);
        }
        self.records.len()
    }

    /// Where the record of an identity stands, if it has one.
    fn position(&self, id: &EndpointId) -> (r: Option<usize>)
        ensures
            match r {
                Some(at) => at < self.records@.len() && self.records@[at as int].0@ == id@,
                None => forall|i: int|
                    0 <= i < self.records@.len() ==> (#[trigger] self.records@[i]).0@ != id@,
            },
    {
        let mut i: usize = 0;
        while i < self.records.len()
            invariant
                i <= self.records@.len(),
                forall|j: int| 0 <= j < i ==> (#[trigger] self.records@[j]).0@ != id@,
            decreases self.records@.len() - i,
        {
            if self.records[i].0 == *id {
                return Some(i);
            }
            i = i + 1;
        }
        None
    }

    /// Tells whether the identity has a record.
    pub fn contains_key(&self, id: &EndpointId) -> (r: bool)
        ensures
            r == self@.contains_key(id@),
    {
        proof {
            use_type_invariant(self);
            lemma_map_of_records(self.records@);
        }
        self.position(id).is_some()
    }

    /// The record of an identity.
    pub fn get(&self, id: &EndpointId) -> (r: Option<&PeerInfo>)
        ensures
            match r {
                Some(info) => self@.contains_key(id@) && *info == self@[id@] && stands_in(
                    self.order(),
                    id@,
                ) && *info == self.order()[place_in(self.order(), id@)].1,
                None => !self@.contains_key(id@) && !stands_in(self.order(), id@),
            },
    {
        proof {
            use_type_invariant(self);
            lemma_map_of_records(self.records@);
        }
        match self.position(id) {
            Some(at) => {
                proof {
                    lemma_place_in(self.records@, at as int);
                }
                Some(&self.records[at].1)
            },
            None => {
                assert(!stands_in(order_of(self.records@), id@)) by {
                    if stands_in(order_of(self.records@), id@) {
                        let i = place_in(order_of(self.records@), id@);
                        assert(self.records@[i].0@ == id@);
                    }
                }
                None
            },
        }
    }

    /// Puts a record under an identity, in the place of the one that it had,
    /// which is handed back.
    pub fn insert(&mut self, id: EndpointId, info: PeerInfo) -> (r: Option<PeerInfo>)
        ensures
            final(self)@ == old(self)@.insert(id@, info),
            final(self).order() == order_with(old(self).order(), id@, info),
            match r {
                Some(before) => old(self)@.contains_key(id@) && before == old(self)@[id@],
                None => !old(self)@.contains_key(id@),
            },
    {
        let mut taken = PeerMap::new();
        std::mem::swap(self, &mut taken);
        proof {
            use_type_invariant(&taken);
            lemma_map_of_records(taken.records@);
        }
        let found = taken.position(&id);
        let PeerMap { records } = taken;
        let mut records = records;
        match found {
            Some(at) => {
                proof {
                    lemma_map_of_records_update(records@, at as int, info);
                }
                let kept = records[at].0;
                let mut swapped = (kept, info);
                std::mem::swap(&mut records[at], &mut swapped);
                assert(records@ =~= old(self).records@.update(at as int, (kept, info)));
                proof {
                    lemma_place_in(old(self).records@, at as int);
                    assert(order_of(records@) =~= order_of(old(self).records@).update(
                        at as int,
                        (id@, info),
                    ));
                }
                *self = PeerMap { records };
                Some(swapped.1)
            },
            None => {
                records.push((id, info));
                assert(records@.drop_last() =~= old(self).records@);
                proof {
                    assert(!stands_in(order_of(old(self).records@), id@)) by {
                        if stands_in(order_of(old(self).records@), id@) {
                            let i = place_in(order_of(old(self).records@), id@);
                            assert(old(self).records@[i].0@ == id@);
                        }
                    }
                    assert(order_of(records@) =~= order_of(old(self).records@).push((id@, info)));
                }
                assert(distinct_ids(records@)) by {
                    assert forall|i: int, j: int| 0 <= i < j < records@.len() implies (
                    #[trigger] records@[i]).0@ != (#[trigger] records@[j]).0@ by {
                        assert(records@[i] == old(self).records@[i]);
                        if j < records@.len() - 1 {
                            assert(records@[j] == old(self).records@[j]);
                        }
                    }
                }
                *self = PeerMap { records };
                None
            },
        }
    }

    /// The peers in words: a line for each, in the order of the records.
    pub fn to_string(&self) -> (r: String)
        ensures
            r@ == records_text(self.records()),
    {
        let mut out = String::new();
        let mut i: usize = 0;
        proof {
            assert(self.records@.take(0) =~= Seq::<(EndpointId, PeerInfo)>::empty());
        }
        while i < self.records.len()
            invariant
                i <= self.records@.len(),
                out@ == records_text(self.records@.take(i as int)),
            decreases self.records@.len() - i,
        {
            let id_text = self.records[i].0.to_string();
            proof {
                EndpointId::lemma_view_len(self.records@[i as int].0);
                lemma_hex_text_is_ascii(self.records@[i as int].0@);
                assert(self.records@.take(i + 1).drop_last() =~= self.records@.take(i as int));
                assert(self.records@.take(i + 1).last() == self.records@[i as int]);
            }
            let ghost before = out@;
            out.append("[");
            out.append(id_text.as_str().substring_ascii(0, 10));
            out.append("...]: '");
            out.append(self.records[i].1.profile.nickname.as_str());
            out.append("'\n");
            assert(out@ == before + record_line(self.records@[i as int].0, self.records@[i as int].1));
            i = i + 1;
        }
        proof {
            assert(self.records@.take(i as int) =~= self.records@);
        }
        out
    }

    /// The records, in their order.
    pub fn values(&self) -> (r: Vec<PeerInfo>)
        ensures
            r@.len() == self.records().len(),
            forall|i: int| 0 <= i < r@.len() ==> r@[i] == (#[trigger] self.records()[i]).1,
    {
        let mut out: Vec<PeerInfo> = Vec::new();
        let mut i: usize = 0;
        while i < self.records.len()
            invariant
                i <= self.records@.len(),
                out@.len() == i,
                forall|j: int| 0 <= j < i ==> out@[j] == (#[trigger] self.records@[j]).1,
            decreases self.records@.len() - i,
        {
            out.push(self.records[i].1.duplicate());
            i = i + 1;
        }
        out
    }

    /// The identities, in the order of their records.
    pub fn ids(&self) -> (r: Vec<EndpointId>)
        ensures
            r@.len() == self.records().len(),
            forall|i: int| 0 <= i < r@.len() ==> r@[i] == (#[trigger] self.records()[i]).0,
    {
        let mut out: Vec<EndpointId> = Vec::new();
        let mut i: usize = 0;
        while i < self.records.len()
            invariant
                i <= self.records@.len(),
                out@.len() == i,
                forall|j: int| 0 <= j < i ==> out@[j] == (#[trigger] self.records@[j]).0,
            decreases self.records@.len() - i,
        {
            out.push(self.records[i].0);
            i = i + 1;
        }
        out
    }
}

} // verus!
