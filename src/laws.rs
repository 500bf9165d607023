//! Properties that relate several operations of the service bus.
use vstd::prelude::*;

use crate::poll::selected;
use crate::routing::{spec_effective_router, spec_next_hop, BusId};

verus! {

/// A bus registered with the registering participant itself as router keeps
/// no router, and every later send on it goes straight to the destination.
pub proof fn lemma_self_router_goes_direct(
    routes: Map<Seq<char>, Option<Seq<char>>>,
    bus: Seq<char>,
    identity: Seq<char>,
    source: Seq<char>,
    dest: Seq<char>,
)
    ensures
        routes.insert(bus, spec_effective_router(Some(identity), identity))[bus] is None,
        spec_next_hop(
            routes.insert(bus, spec_effective_router(Some(identity), identity))[bus],
            source,
            dest,
        ) == dest,
{
}

/// A bus is among the selected ones exactly when it has a raised flag.
pub proof fn lemma_selected_members(index: Seq<BusId>, flags: Seq<bool>, bus: BusId)
    requires
        index.len() == flags.len(),
    ensures
        selected(index, flags).contains(bus) <==> exists|i: int|
            0 <= i < index.len() && index[i] == bus && flags[i],
    decreases index.len(),
{
    if index.len() > 0 {
        let n = index.len() - 1;
        let ix = index.drop_last();
        let fl = flags.take(n as int);
        lemma_selected_members(ix, fl, bus);
        let rest = selected(ix, fl);
        let all = selected(index, flags);
        if flags[n as int] {
            assert(all == rest.push(index.last()));
        } else {
            assert(all == rest);
        }
        assert forall|j: int| 0 <= j < rest.len() implies all[j] == rest[j] by {}
        if exists|i: int| 0 <= i < index.len() && index[i] == bus && flags[i] {
            let i = choose|i: int| 0 <= i < index.len() && index[i] == bus && flags[i];
            if i < n {
                assert(ix[i] == bus && fl[i]);
                let j = choose|j: int| 0 <= j < rest.len() && rest[j] == bus;
                assert(all[j] == bus);
            } else {
                assert(all[rest.len() as int] == bus);
            }
        }
        if all.contains(bus) {
            let j = choose|j: int| 0 <= j < all.len() && all[j] == bus;
            if j < rest.len() {
                assert(rest[j] == bus);
                assert(rest.contains(bus));
                let i = choose|i: int| 0 <= i < ix.len() && ix[i] == bus && fl[i];
                assert(index[i] == bus && flags[i]);
            } else {
                assert(index[n as int] == bus && flags[n as int]);
            }
        }
    }
}

/// A bus that is listed once is selected at most once.
pub proof fn lemma_selected_at_most_once(index: Seq<BusId>, flags: Seq<bool>, a: int, b: int)
    requires
        index.len() == flags.len(),
        forall|i: int, j: int| 0 <= i < j < index.len() ==> index[i] != index[j],
        0 <= a < b < selected(index, flags).len(),
    ensures
        selected(index, flags)[a] != selected(index, flags)[b],
    decreases index.len(),
{
    let n = index.len() - 1;
    let ix = index.drop_last();
    let fl = flags.take(n as int);
    let rest = selected(ix, fl);
    if flags[n as int] && b == rest.len() {
        lemma_selected_members(ix, fl, rest[a]);
        let i = choose|i: int| 0 <= i < ix.len() && ix[i] == rest[a] && fl[i];
        assert(index[i] == rest[a]);
    } else {
        lemma_selected_at_most_once(ix, fl, a, b);
    }
}

} // verus!
