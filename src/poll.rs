//! Selection of the ready buses after a poll, and assembly of one batch of
//! received requests.
use vstd::prelude::*;

use crate::controller::Frame;
use crate::routing::{BusId, ServiceAddress};

verus! {

/// The buses of `index` whose poll flag in `flags` is raised, in order.
pub open spec fn selected(index: Seq<BusId>, flags: Seq<bool>) -> Seq<BusId>
    decreases index.len(),
{
    if index.len() == 0 || flags.len() == 0 {
        Seq::empty()
    } else {
        let rest = selected(index.drop_last(), flags.take(index.len() - 1));
        if flags.len() >= index.len() && flags[index.len() - 1] {
            rest.push(index.last())
        } else {
            rest
        }
    }
}

/// Selects the buses whose poll item reported inbound data or an error:
/// `flags[i]` tells whether the bus `index[i]` was signalled.
pub fn ready_buses(index: &Vec<BusId>, flags: &Vec<bool>) -> (r: Vec<BusId>)
    requires
        index@.len() == flags@.len(),
    ensures
        r@ == selected(index@, flags@),
{
    let mut r: Vec<BusId> = Vec::new();
    let mut i: usize = 0;
    while i < index.len()
        invariant
            index@.len() == flags@.len(),
            i <= index@.len(),
            r@ == selected(index@.take(i as int), flags@.take(i as int)),
        decreases index@.len() - i,
    {
        proof {
            let ix = index@.take(i + 1);
            let fl = flags@.take(i + 1);
            assert(ix.drop_last() =~= index@.take(i as int));
            assert(fl.take(i as int) =~= flags@.take(i as int));
        }
        if flags[i] {
            r.push(index[i].clone());
        }
        i = i + 1;
    }
    assert(index@.take(i as int) =~= index@);
    assert(flags@.take(i as int) =~= flags@);
    r
}

/// Pairs each ready bus with the frame received from it, keeping the bus,
/// the frame's source and its request.
pub fn assemble_batch<R>(ready: Vec<BusId>, frames: Vec<Frame<R>>) -> (r: Vec<
    (BusId, ServiceAddress, R),
>)
    requires
        ready@.len() == frames@.len(),
    ensures
        r@.len() == ready@.len(),
        forall|i: int|
            0 <= i < r@.len() ==> #[trigger] r@[i] == (ready@[i], frames@[i].source, frames@[i].request),
{
    let ghost ready0 = ready@;
    let ghost frames0 = frames@;
    let n = ready.len();
    let mut ready = ready;
    let mut frames = frames;
    let mut r: Vec<(BusId, ServiceAddress, R)> = Vec::new();
    while ready.len() > 0
        invariant
            n == ready0.len(),
            ready0.len() == frames0.len(),
            r@.len() + ready@.len() == n,
            ready@ == ready0.subrange(r@.len() as int, n as int),
            frames@ == frames0.subrange(r@.len() as int, n as int),
            forall|i: int|
                0 <= i < r@.len() ==> #[trigger] r@[i] == (ready0[i], frames0[i].source, frames0[i].request),
        decreases ready@.len(),
    {
        let bus_id = ready.remove(0);
        let frame = frames.remove(0);
        r.push((bus_id, frame.source, frame.request));
        assert(ready@ =~= ready0.subrange(r@.len() as int, n as int));
        assert(frames@ =~= frames0.subrange(r@.len() as int, n as int));
    }
    r
}

} // verus!
