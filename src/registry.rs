//! The endpoint registry: one endpoint per bus, and the routed sends and
//! identity changes addressed to a bus through it.
use vstd::prelude::*;

use crate::error::Error;
use crate::routing::{next_hop, opt_view, spec_next_hop, BusId, ServiceAddress};

verus! {

/// What the registry keeps for one bus besides its transport session: the
/// resolved router of the bus, if it has one.
#[derive(Debug)]
pub struct Endpoint {
    pub router: Option<ServiceAddress>,
}

/// A frame ready to be handed to the transport session of `bus_id`: it goes
/// from `source` to `dest` and is given to `next_hop` on the way.
#[derive(Debug)]
pub struct Transmission<R> {
    pub bus_id: BusId,
    pub source: ServiceAddress,
    pub next_hop: ServiceAddress,
    pub dest: ServiceAddress,
    pub request: R,
}

/// A change of the identity that the transport session of `bus_id` presents.
#[derive(Debug)]
pub struct Rebind {
    pub bus_id: BusId,
    pub identity: ServiceAddress,
}

impl<R> Transmission<R> {
    /// The error reported when the transport session failed to send this
    /// frame: it names the source and the final destination.
    pub fn failed(self, reason: String) -> (e: Error)
        ensures
            e == (Error::Send { source: self.source, dest: self.dest, reason }),
    {
        Error::Send { source: self.source, dest: self.dest, reason }
    }
}

/// Mapping from bus identifier to endpoint, with at most one entry per bus.
pub struct EndpointList {
    entries: Vec<(BusId, Endpoint)>,
}

impl EndpointList {
    /// Bus identifier of the entry at position `i`.
    pub closed spec fn key_at(&self, i: int) -> Seq<char> {
        self.entries@[i].0@
    }

    /// Router of the entry at position `i`.
    pub closed spec fn router_at(&self, i: int) -> Option<Seq<char>> {
        opt_view(self.entries@[i].1.router)
    }

    /// Number of registered buses.
    pub closed spec fn spec_len(&self) -> nat {
        self.entries@.len()
    }

    /// No bus identifier occurs twice.
    pub closed spec fn wf(&self) -> bool {
        forall|i: int, j: int|
            0 <= i < self.spec_len() && 0 <= j < self.spec_len() && i != j ==> self.key_at(i)
                != self.key_at(j)
    }

    /// The position of bus `k`, for a bus that is registered.
    pub closed spec fn index_of(&self, k: Seq<char>) -> int {
        choose|i: int| 0 <= i < self.spec_len() && self.key_at(i) == k
    }

    /// The registry as a map from bus identifier to the bus's router.
    pub open spec fn view(&self) -> Map<Seq<char>, Option<Seq<char>>> {
        Map::new(
            |k: Seq<char>| exists|i: int| 0 <= i < self.spec_len() && self.key_at(i) == k,
            |k: Seq<char>| self.router_at(self.index_of(k)),
        )
    }

    proof fn lemma_index(&self, i: int)
        requires
            self.wf(),
            0 <= i < self.spec_len(),
        ensures
            self.view().contains_key(self.key_at(i)),
            self.index_of(self.key_at(i)) == i,
            self.view()[self.key_at(i)] == self.router_at(i),
    {
        let k = self.key_at(i);
        assert(exists|j: int| 0 <= j < self.spec_len() && self.key_at(j) == k);
    }

    /// An empty registry.
    pub fn new() -> (r: Self)
        ensures
            r.wf(),
            r.view() == Map::<Seq<char>, Option<Seq<char>>>::empty(),
    {
        let r = EndpointList { entries: Vec::new() };
        assert(r.view() =~= Map::<Seq<char>, Option<Seq<char>>>::empty());
        r
    }

    /// Position of bus `bus_id`, or `None` where it is not registered.
    fn find(&self, bus_id: &BusId) -> (r: Option<usize>)
        requires
            self.wf(),
        ensures
            r is None <==> !self.view().contains_key(bus_id@),
            r matches Some(i) ==> i < self.spec_len() && self.key_at(i as int) == bus_id@
                && self.view()[bus_id@] == self.router_at(i as int),
    {
        let mut i: usize = 0;
        while i < self.entries.len()
            invariant
                self.wf(),
                i <= self.spec_len(),
                forall|j: int| 0 <= j < i ==> self.key_at(j) != bus_id@,
            decreases self.spec_len() - i,
        {
            if self.entries[i].0 == *bus_id {
                proof {
                    self.lemma_index(i as int);
                }
                return Some(i);
            }
            i = i + 1;
        }
        None
    }

    /// Whether bus `bus_id` is registered.
    pub fn contains(&self, bus_id: &BusId) -> (r: bool)
        requires
            self.wf(),
        ensures
            r == self.view().contains_key(bus_id@),
    {
        self.find(bus_id).is_some()
    }

    /// The router stored for bus `bus_id`, where the bus is registered.
    pub fn router(&self, bus_id: &BusId) -> (r: Option<Option<ServiceAddress>>)
        requires
            self.wf(),
        ensures
            r is None <==> !self.view().contains_key(bus_id@),
            r matches Some(rt) ==> opt_view(rt) == self.view()[bus_id@],
    {
        match self.find(bus_id) {
            None => None,
            Some(i) => Some(self.entries[i].1.router.clone()),
        }
    }

    /// Stores `endpoint` for bus `bus_id`, replacing an earlier entry of the
    /// same bus.
    pub fn insert(&mut self, bus_id: BusId, endpoint: Endpoint)
        requires
            old(self).wf(),
        ensures
            final(self).wf(),
            final(self).view() == old(self).view().insert(bus_id@, opt_view(endpoint.router)),
    {
        let ghost k = bus_id@;
        let ghost v = opt_view(endpoint.router);
        let ghost pre = self.view();
        match self.find(&bus_id) {
            Some(i) => {
                self.entries.set(i, (bus_id, endpoint));
                proof {
                    assert forall|a: int| 0 <= a < self.spec_len() implies #[trigger] self.key_at(a)
                        == old(self).key_at(a) by {
                        if a == i as int {
                            assert(self.key_at(a) == k);
                        }
                    }
                    assert forall|key: Seq<char>| #[trigger]
                        self.view().contains_key(key) == pre.insert(k, v).contains_key(key) by {
                        if pre.contains_key(key) {
                            let j = old(self).index_of(key);
                            assert(self.key_at(j) == key);
                        }
                        if key == k {
                            assert(self.key_at(i as int) == key);
                        }
                        if self.view().contains_key(key) {
                            let j = self.index_of(key);
                            assert(old(self).key_at(j) == key);
                        }
                    }
                    assert forall|key: Seq<char>| #[trigger]
                        self.view().contains_key(key) implies self.view()[key] == pre.insert(
                        k,
                        v,
                    )[key] by {
                        let j = self.index_of(key);
                        self.lemma_index(j);
                        if key != k {
                            assert(old(self).key_at(j) == key);
                            old(self).lemma_index(j);
                        }
                    }
                    assert(self.view() =~= pre.insert(k, v));
                }
            },
            None => {
                self.entries.push((bus_id, endpoint));
                proof {
                    let n = old(self).spec_len() as int;
                    assert forall|a: int, b: int|
                        0 <= a < self.spec_len() && 0 <= b < self.spec_len() && a != b implies
                        self.key_at(a) != self.key_at(b) by {
                        if a < n && b < n {
                            assert(self.key_at(a) == old(self).key_at(a));
                            assert(self.key_at(b) == old(self).key_at(b));
                        } else if a < n {
                            assert(self.key_at(a) == old(self).key_at(a));
                            old(self).lemma_index(a);
                        } else if b < n {
                            assert(self.key_at(b) == old(self).key_at(b));
                            old(self).lemma_index(b);
                        }
                    }
                    assert forall|key: Seq<char>| #[trigger]
                        self.view().contains_key(key) == pre.insert(k, v).contains_key(key) by {
                        if key != k && pre.contains_key(key) {
                            let j = old(self).index_of(key);
                            assert(self.key_at(j) == key);
                        }
                        if key == k {
                            assert(self.key_at(n) == key);
                        }
                        if self.view().contains_key(key) && key != k {
                            let j = self.index_of(key);
                            assert(old(self).key_at(j) == key);
                        }
                    }
                    assert forall|key: Seq<char>| #[trigger]
                        self.view().contains_key(key) implies self.view()[key] == pre.insert(
                        k,
                        v,
                    )[key] by {
                        let j = self.index_of(key);
                        self.lemma_index(j);
                        assert(self.key_at(n) == k);
                        if j == n {
                            assert(self.router_at(n) == v);
                        } else {
                            assert(self.router_at(j) == old(self).router_at(j));
                        }
                        if key != k {
                            assert(old(self).key_at(j) == key);
                            old(self).lemma_index(j);
                        }
                    }
                    assert(self.view() =~= pre.insert(k, v));
                }
            },
        }
    }

    /// Prepares a send of `request` from `source` to `dest` on bus `bus_id`,
    /// choosing the next hop by the bus's router. Fails with `UnknownBusId`
    /// when the bus is not registered, in which case nothing is to be sent.
    pub fn send_to<R>(&self, bus_id: BusId, source: ServiceAddress, dest: ServiceAddress, request: R)
        -> (r: Result<Transmission<R>, Error>)
        requires
            self.wf(),
        ensures
            !self.view().contains_key(bus_id@) <==> r == Err::<Transmission<R>, Error>(
                Error::UnknownBusId(bus_id),
            ),
            self.view().contains_key(bus_id@) ==> (r matches Ok(t) && t.bus_id == bus_id
                && t.source == source && t.dest == dest && t.request == request && t.next_hop@
                == spec_next_hop(self.view()[bus_id@], source@, dest@)),
            self.view().contains_key(bus_id@) && self.view()[bus_id@] is None ==> (r matches Ok(
                t,
            ) && t.next_hop@ == dest@),
            self.view().contains_key(bus_id@) && self.view()[bus_id@] is Some ==> (r matches Ok(
                t,
            ) && (source@ == self.view()[bus_id@]->Some_0 ==> t.next_hop@ == dest@) && (source@
                != self.view()[bus_id@]->Some_0 ==> t.next_hop@ == self.view()[bus_id@]->Some_0)),
    {
        match self.find(&bus_id) {
            None => Err(Error::UnknownBusId(bus_id)),
            Some(i) => {
                let hop = next_hop(&self.entries[i].1.router, &source, &dest);
                Ok(Transmission { bus_id, source, next_hop: hop, dest, request })
            },
        }
    }

    /// Prepares a change of the identity presented on bus `bus_id`. Fails with
    /// `UnknownBusId` when the bus is not registered.
    pub fn set_identity(&self, bus_id: BusId, identity: ServiceAddress) -> (r: Result<Rebind, Error>)
        requires
            self.wf(),
        ensures
            !self.view().contains_key(bus_id@) <==> r == Err::<Rebind, Error>(
                Error::UnknownBusId(bus_id),
            ),
            self.view().contains_key(bus_id@) ==> r == Ok::<Rebind, Error>(
                Rebind { bus_id, identity },
            ),
    {
        if self.contains(&bus_id) {
            Ok(Rebind { bus_id, identity })
        } else {
            Err(Error::UnknownBusId(bus_id))
        }
    }
}

} // verus!
