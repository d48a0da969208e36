//! What the daemon knows of other peers: their addresses and the relays through
//! which they can be reached.
use vstd::prelude::*;
use crate::address::SocketAddressV6;
use crate::identifier::{copy_identifiers, lemma_identifier_view, Identifier};

verus! {

broadcast use lemma_identifier_view;

/// A peer: its identifier, the addresses it can be reached at (the first one is
/// tried) and the identifiers of its relays.
#[derive(Debug)]
pub struct Peer {
    pub id: Identifier,
    pub addresses: Vec<SocketAddressV6>,
    pub relays: Vec<Identifier>,
}

/// What a peer record holds.
pub struct PeerView {
    pub id: Identifier,
    pub addresses: Seq<SocketAddressV6>,
    pub relays: Seq<Identifier>,
}

impl View for Peer {
    type V = PeerView;

    open spec fn view(&self) -> PeerView {
        PeerView { id: self.id, addresses: self.addresses@, relays: self.relays@ }
    }
}

fn copy_addresses(v: &Vec<SocketAddressV6>) -> (r: Vec<SocketAddressV6>)
    ensures
        r@ == v@,
{
    let mut r = Vec::new();
    for i in 0..v.len()
        invariant
            r@ == v@.take(i as int),
    {
        r.push(v[i]);
        assert(r@ =~= v@.take(i + 1));
    }
    assert(v@.take(v@.len() as int) =~= v@);
    r
}

impl Peer {
    /// The peer `id`, reachable at `addresses` and through `relays`.
    pub fn new(id: Identifier, addresses: Vec<SocketAddressV6>, relays: Vec<Identifier>) -> (r: Peer)
        ensures
            r@ == (PeerView { id, addresses: addresses@, relays: relays@ }),
    {
        Peer { id, addresses, relays }
    }
}

impl Clone for Peer {
    fn clone(&self) -> (r: Peer)
        ensures
            r@ == self@,
    {
        Peer {
            id: self.id,
            addresses: copy_addresses(&self.addresses),
            relays: copy_identifiers(&self.relays),
        }
    }
}

impl Default for Peer {
    /// The peer with the all-zero identifier, no addresses and no relays.
    fn default() -> (r: Peer)
        ensures
            r@.id@ == Seq::new(32, |i: int| 0u8),
            r@.addresses.len() == 0,
            r@.relays.len() == 0,
    {
        Peer { id: Identifier::default(), addresses: Vec::new(), relays: Vec::new() }
    }
}

/// The peers that the daemon knows, each under an identifier.
#[derive(Debug)]
pub struct PeerInformationBase {
    peers: Vec<(Identifier, Peer)>,
}

/// The first address of a peer, if it has one.
pub open spec fn first_address(p: PeerView) -> Option<SocketAddressV6> {
    if p.addresses.len() > 0 {
        Some(p.addresses[0])
    } else {
        None
    }
}

/// The address that a lookup of `id` gives: the first address of the peer known under it.
pub open spec fn lookup_spec(m: Map<Identifier, PeerView>, id: Identifier) -> Option<SocketAddressV6> {
    if m.contains_key(id) {
        first_address(m[id])
    } else {
        None
    }
}

/// The peers after `addr` was added to the addresses of the peer known under `id`,
/// or after a peer `id` with only that address was recorded where none was.
pub open spec fn add_address_spec(
    m: Map<Identifier, PeerView>,
    id: Identifier,
    addr: SocketAddressV6,
) -> Map<Identifier, PeerView> {
    if m.contains_key(id) {
        m.insert(id, PeerView { addresses: m[id].addresses.push(addr), ..m[id] })
    } else {
        m.insert(id, PeerView { id, addresses: seq![addr], relays: Seq::empty() })
    }
}

impl View for PeerInformationBase {
    type V = Map<Identifier, PeerView>;

    closed spec fn view(&self) -> Map<Identifier, PeerView> {
        Map::new(
            |id: Identifier| exists|i: int| 0 <= i < self.peers@.len() && self.peers@[i].0 == id,
            |id: Identifier|
                {
                    let i = choose|i: int| 0 <= i < self.peers@.len() && self.peers@[i].0 == id;
                    self.peers@[i].1@
                },
        )
    }
}

impl PeerInformationBase {
    #[verifier::type_invariant]
    spec fn keys_distinct(self) -> bool {
        forall|i: int, j: int|
            0 <= i < j < self.peers@.len() ==> self.peers@[i].0 != self.peers@[j].0
    }

    proof fn lemma_entry(&self, i: int)
        requires
            self.keys_distinct(),
            0 <= i < self.peers@.len(),
        ensures
            self@.contains_key(self.peers@[i].0),
            self@[self.peers@[i].0] == self.peers@[i].1@,
    {
        let id = self.peers@[i].0;
        assert(self@.dom().contains(id));
        let k = choose|k: int| 0 <= k < self.peers@.len() && self.peers@[k].0 == id;
        if k != i {
            if k < i {
                assert(self.peers@[k].0 != self.peers@[i].0);
            } else {
                assert(self.peers@[i].0 != self.peers@[k].0);
            }
        }
    }

    /// The index of the entry under `id`, if there is one.
    fn find(&self, id: &Identifier) -> (r: Option<usize>)
        ensures
            r matches Some(i) ==> i < self.peers@.len() && self.peers@[i as int].0 == *id,
            r is None ==> !self@.contains_key(*id),
    {
        let mut i: usize = 0;
        while i < self.peers.len()
            invariant
                i <= self.peers@.len(),
                forall|j: int| 0 <= j < i ==> self.peers@[j].0 != *id,
            decreases self.peers@.len() - i,
        {
            if self.peers[i].0 == *id {
                return Some(i);
            }
            i = i + 1;
        }
        proof {
            if self@.contains_key(*id) {
                let j = choose|j: int| 0 <= j < self.peers@.len() && self.peers@[j].0 == *id;
                assert(self.peers@[j].0 != *id);
            }
        }
        None
    }

    /// No peers.
    pub fn new() -> (r: PeerInformationBase)
        ensures
            r@ == Map::<Identifier, PeerView>::empty(),
    {
        let r = PeerInformationBase { peers: Vec::new() };
        assert(r@ =~= Map::<Identifier, PeerView>::empty());
        r
    }

    /// The number of peers known.
    pub fn len(&self) -> (n: usize)
        ensures
            n == self@.len(),
    {
        proof {
            use_type_invariant(self);
            self.lemma_len();
        }
        self.peers.len()
    }

    /// Records `peer` under `id`, replacing what was known under it.
    pub fn add_peer(&mut self, id: Identifier, peer: Peer)
        ensures
            final(self)@ == old(self)@.insert(id, peer@),
    {
        proof {
            use_type_invariant(&*self);
        }
        let ghost old_peers = self.peers@;
        let ghost pv = peer@;
        let ghost pval = peer;
        let ghost at: int;
        match self.find(&id) {
            Some(i) => {
                let mut entries = Vec::new();
                std::mem::swap(&mut entries, &mut self.peers);
                entries.set(i, (id, peer));
                self.peers = entries;
                proof {
                    at = i as int;
                }
            },
            None => {
                let mut entries = Vec::new();
                std::mem::swap(&mut entries, &mut self.peers);
                entries.push((id, peer));
                self.peers = entries;
                proof {
                    at = old_peers.len() as int;
                    assert forall|j: int| 0 <= j < old_peers.len() implies old_peers[j].0 != id by {
                        if old_peers[j].0 == id {
                            assert(old(self)@.contains_key(id));
                        }
                    }
                }
            },
        }
        proof {
            use_type_invariant(&*self);
            assert(0 <= at < self.peers@.len() && self.peers@[at] == (id, pval));
            assert(forall|j: int| 0 <= j < old_peers.len() ==> self.peers@[j].0 == old_peers[j].0);
            assert(forall|j: int|
                0 <= j < self.peers@.len() && self.peers@[j].0 != id ==> j < old_peers.len()
                    && self.peers@[j] == old_peers[j]);
        }
        assert(self@ =~= old(self)@.insert(id, pv)) by {
            assert forall|k: Identifier| #![auto] self@.contains_key(k) <==> old(self)@.insert(
                id,
                pv,
            ).contains_key(k) by {
                if old(self)@.contains_key(k) {
                    let j = choose|j: int| 0 <= j < old_peers.len() && old_peers[j].0 == k;
                    assert(self.peers@[j].0 == k);
                }
                if k == id {
                    assert(self.peers@[at].0 == k);
                }
                if self@.contains_key(k) && k != id {
                    let j = choose|j: int| 0 <= j < self.peers@.len() && self.peers@[j].0 == k;
                    assert(old_peers[j].0 == k);
                }
            }
            assert forall|k: Identifier| #![auto] self@.contains_key(k) implies self@[k] == old(
                self,
            )@.insert(id, pv)[k] by {
                if k == id {
                    self.lemma_entry(at);
                } else {
                    let j = choose|j: int| 0 <= j < self.peers@.len() && self.peers@[j].0 == k;
                    self.lemma_entry(j);
                    old(self).lemma_entry(j);
                }
            }
        }
    }

    /// The peer recorded under `id`, if any.
    pub fn get_peer(&self, id: &Identifier) -> (r: Option<&Peer>)
        ensures
            r is Some <==> self@.contains_key(*id),
            r matches Some(p) ==> p@ == self@[*id],
    {
        proof {
            use_type_invariant(self);
        }
        match self.find(id) {
            Some(i) => {
                proof {
                    self.lemma_entry(i as int);
                }
                Some(&self.peers[i].1)
            },
            None => None,
        }
    }

    /// The first address of the peer recorded under `id`, if it is known and has one.
    pub fn lookup_peer_address(&self, id: &Identifier) -> (r: Option<SocketAddressV6>)
        ensures
            r == lookup_spec(self@, *id),
    {
        match self.get_peer(id) {
            Some(peer) => {
                if peer.addresses.len() > 0 {
                    Some(peer.addresses[0])
                } else {
                    None
                }
            },
            None => None,
        }
    }

    /// Adds `addr` after the addresses of the peer recorded under `id`; where no peer is
    /// recorded under it, records a peer `id` with that one address and no relays.
    pub fn add_peer_address(&mut self, id: Identifier, addr: SocketAddressV6)
        ensures
            final(self)@ == add_address_spec(old(self)@, id, addr),
    {
        proof {
            use_type_invariant(&*self);
        }
        let updated = match self.get_peer(&id) {
            Some(peer) => {
                let mut p = peer.clone();
                p.addresses.push(addr);
                p
            },
            None => {
                let mut addresses = Vec::new();
                addresses.push(addr);
                Peer::new(id, addresses, Vec::new())
            },
        };
        proof {
            if old(self)@.contains_key(id) {
                assert(updated@ == (PeerView {
                    addresses: old(self)@[id].addresses.push(addr),
                    ..old(self)@[id]
                }));
            } else {
                assert(updated@.addresses =~= seq![addr]);
                assert(updated@.relays =~= Seq::<Identifier>::empty());
            }
        }
        self.add_peer(id, updated);
    }

    /// The identifier and peer of the `i`-th record.
    pub fn entry(&self, i: usize) -> (r: (&Identifier, &Peer))
        requires
            i < self@.len(),
        ensures
            self@.contains_key(*r.0),
            self@[*r.0] == r.1@,
    {
        proof {
            use_type_invariant(self);
            self.lemma_len();
            self.lemma_entry(i as int);
        }
        (&self.peers[i].0, &self.peers[i].1)
    }

    proof fn lemma_len(&self)
        requires
            self.keys_distinct(),
        ensures
            self@.len() == self.peers@.len(),
            self@.dom().finite(),
    {
        let keys = self.peers@.map_values(|e: (Identifier, Peer)| e.0);
        assert(self@.dom() =~= keys.to_set()) by {
            assert forall|k: Identifier| self@.dom().contains(k) implies keys.to_set().contains(
                k,
            ) by {
                let j = choose|j: int| 0 <= j < self.peers@.len() && self.peers@[j].0 == k;
                assert(keys[j] == k);
            }
            assert forall|k: Identifier| keys.to_set().contains(k) implies self@.dom().contains(
                k,
            ) by {
                let j = choose|j: int| 0 <= j < keys.len() && keys[j] == k;
                assert(self.peers@[j].0 == k);
            }
        }
        assert(keys.no_duplicates()) by {
            assert forall|i: int, j: int| 0 <= i < keys.len() && 0 <= j < keys.len() && i != j implies keys[i]
                != keys[j] by {
                if i < j {
                    assert(self.peers@[i].0 != self.peers@[j].0);
                } else {
                    assert(self.peers@[j].0 != self.peers@[i].0);
                }
            }
        }
        keys.unique_seq_to_set();
    }
}

impl Clone for PeerInformationBase {
    fn clone(&self) -> (r: PeerInformationBase)
        ensures
            r@ == self@,
    {
        proof {
            use_type_invariant(self);
        }
        let mut peers: Vec<(Identifier, Peer)> = Vec::new();
        for i in 0..self.peers.len()
            invariant
                self.keys_distinct(),
                peers@.len() == i,
                forall|j: int|
                    0 <= j < i ==> peers@[j].0 == self.peers@[j].0 && peers@[j].1@
                        == self.peers@[j].1@,
        {
            peers.push((self.peers[i].0, self.peers[i].1.clone()));
        }
        let r = PeerInformationBase { peers };
        assert(r@ =~= self@) by {
            assert forall|k: Identifier| #![auto] r@.contains_key(k) <==> self@.contains_key(k) by {
                if r@.contains_key(k) {
                    let j = choose|j: int| 0 <= j < r.peers@.len() && r.peers@[j].0 == k;
                    assert(self.peers@[j].0 == k);
                }
                if self@.contains_key(k) {
                    let j = choose|j: int| 0 <= j < self.peers@.len() && self.peers@[j].0 == k;
                    assert(r.peers@[j].0 == k);
                }
            }
            assert forall|k: Identifier| #![auto] r@.contains_key(k) implies r@[k] == self@[k] by {
                let j = choose|j: int| 0 <= j < r.peers@.len() && r.peers@[j].0 == k;
                r.lemma_entry(j);
                self.lemma_entry(j);
            }
        }
        r
    }
}

impl Default for PeerInformationBase {
    fn default() -> (r: PeerInformationBase)
        ensures
            r@ == Map::<Identifier, PeerView>::empty(),
    {
        PeerInformationBase::new()
    }
}

/// After `addr` is added for `id`, a lookup of `id` gives the peer's first address as
/// before, or `addr` where it had none; lookups of other identifiers are unchanged.
pub proof fn lemma_lookup_after_add_address(
    m: Map<Identifier, PeerView>,
    id: Identifier,
    other: Identifier,
    addr: SocketAddressV6,
)
    ensures
        lookup_spec(add_address_spec(m, id, addr), id) == (match lookup_spec(m, id) {
            Some(a) => Some(a),
            None => Some(addr),
        }),
        other != id ==> lookup_spec(add_address_spec(m, id, addr), other) == lookup_spec(m, other),
{
}

/// After a peer is recorded under `id`, getting `id` gives that peer and a lookup of `id`
/// gives its first address; what is recorded under other identifiers is unchanged.
pub proof fn lemma_get_after_add_peer(
    m: Map<Identifier, PeerView>,
    id: Identifier,
    other: Identifier,
    p: PeerView,
)
    ensures
        m.insert(id, p).contains_key(id) && m.insert(id, p)[id] == p,
        lookup_spec(m.insert(id, p), id) == first_address(p),
        other != id ==> (m.insert(id, p).contains_key(other) == m.contains_key(other)
            && lookup_spec(m.insert(id, p), other) == lookup_spec(m, other)),
{
}

} // verus!
