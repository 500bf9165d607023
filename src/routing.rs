//! The next-hop rule and the self-router collapse rule.
use vstd::prelude::*;

verus! {

/// Address of a participant on a bus, also used as a participant's identity.
pub type ServiceAddress = String;

/// Name of one logical bus, the key of the endpoint registry.
pub type BusId = String;

/// The hop a frame from `source` to `dest` is handed to on a bus whose
/// router is `router`: the destination itself when the bus has no router or
/// when the sender is the router, otherwise the router.
pub open spec fn spec_next_hop(
    router: Option<Seq<char>>,
    source: Seq<char>,
    dest: Seq<char>,
) -> Seq<char> {
    match router {
        None => dest,
        Some(r) => if source == r {
            dest
        } else {
            r
        },
    }
}

/// The router stored for a bus registered with `configured` by a participant
/// whose identity is `identity`: a router equal to the identity collapses to
/// none, since the participant is the relay itself.
pub open spec fn spec_effective_router(
    configured: Option<Seq<char>>,
    identity: Seq<char>,
) -> Option<Seq<char>> {
    match configured {
        Some(r) => if r == identity {
            None
        } else {
            Some(r)
        },
        None => None,
    }
}

/// View of an optional address as an optional character sequence.
pub open spec fn opt_view(a: Option<ServiceAddress>) -> Option<Seq<char>> {
    match a {
        Some(s) => Some(s@),
        None => None,
    }
}

/// Computes the next hop of a frame from `source` to `dest`.
pub fn next_hop(router: &Option<ServiceAddress>, source: &ServiceAddress, dest: &ServiceAddress) -> (r:
    ServiceAddress)
    ensures
        r@ == spec_next_hop(opt_view(*router), source@, dest@),
{
    match router {
        None => dest.clone(),
        Some(rt) => {
            if *source == *rt {
                dest.clone()
            } else {
                rt.clone()
            }
        },
    }
}

/// Computes the router to store for a bus, collapsing a router that is the
/// registering participant itself.
pub fn effective_router(configured: Option<ServiceAddress>, identity: &ServiceAddress) -> (r:
    Option<ServiceAddress>)
    ensures
        opt_view(r) == spec_effective_router(opt_view(configured), identity@),
{
    match configured {
        Some(rt) => {
            if rt == *identity {
                None
            } else {
                Some(rt)
            }
        },
        None => None,
    }
}

} // verus!
