//! The controller: bus registration, outward sends, and the poll / dispatch
//! run loop as a state machine.
//!
//! The embedding program owns the transport sessions and the application
//! handler. It asks the controller what to do next, performs that action,
//! and reports its outcome back through the method of the current phase.
use vstd::prelude::*;

use crate::error::Error;
use crate::registry::{EndpointList, Endpoint, Transmission};
use crate::routing::{effective_router, opt_view, spec_effective_router, spec_next_hop, BusId, ServiceAddress};

verus! {

/// A decoded inbound frame: explicit source, destination and request.
#[derive(Debug)]
pub struct Frame<R> {
    pub source: ServiceAddress,
    pub dest: ServiceAddress,
    pub request: R,
}

/// Where the run loop stands.
#[derive(Clone, Copy, PartialEq, Eq, Debug, Structural)]
pub enum Phase {
    /// The handler's startup logic is to run.
    Starting,
    /// Blocked in poll over all buses.
    Idle,
    /// One frame is to be received from the current ready bus.
    Draining,
    /// The current frame was handed to the handler or re-sent.
    Dispatching,
    /// A loop-level error was handed to the handler's error callback.
    Recovering,
    /// The loop has ended.
    Stopped,
}

/// What the embedding program is to do next.
#[derive(Debug)]
pub enum Action<R> {
    /// Poll all registered buses and report the ready ones.
    Poll,
    /// Receive and decode one frame from this bus.
    Receive(BusId),
    /// Hand a locally addressed request to the handler.
    Handle { bus_id: BusId, source: ServiceAddress, request: R },
    /// Pass this frame to the transport session of its bus.
    Send(Transmission<R>),
    /// Hand this error to the handler's error callback.
    HandleErr(Error),
    /// The loop ends with this error.
    Stop(Error),
}

/// The registry obtained by registering `buses` in order, as participant
/// `identity`, into an empty one.
pub open spec fn registered(identity: Seq<char>, buses: Seq<(BusId, Option<ServiceAddress>)>) -> Map<
    Seq<char>,
    Option<Seq<char>>,
>
    decreases buses.len(),
{
    if buses.len() == 0 {
        Map::empty()
    } else {
        registered(identity, buses.drop_last()).insert(
            buses.last().0@,
            spec_effective_router(opt_view(buses.last().1), identity),
        )
    }
}

/// Owns the endpoint registry and the state of the run loop of one
/// participant, whose identity is fixed for the controller's lifetime.
pub struct Controller {
    senders: EndpointList,
    identity: ServiceAddress,
    phase: Phase,
    pending: Vec<BusId>,
    cursor: usize,
}

impl Controller {
    /// The registry as a map from bus identifier to router.
    pub closed spec fn routes(&self) -> Map<Seq<char>, Option<Seq<char>>> {
        self.senders.view()
    }

    /// The participant's identity.
    pub closed spec fn spec_identity(&self) -> Seq<char> {
        self.identity@
    }

    /// The phase of the run loop.
    pub closed spec fn phase(&self) -> Phase {
        self.phase
    }

    /// The buses found ready by the last poll.
    pub closed spec fn pending(&self) -> Seq<BusId> {
        self.pending@
    }

    /// Position of the bus being drained among the ready buses.
    pub closed spec fn cursor(&self) -> int {
        self.cursor as int
    }

    /// The registry has one entry per bus, and while draining the current
    /// position names a ready bus.
    pub closed spec fn wf(&self) -> bool {
        &&& self.senders.wf()
        &&& (self.phase == Phase::Draining || self.phase == Phase::Dispatching) ==> self.cursor
            < self.pending@.len()
    }

    /// A controller with no bus, before its loop has started.
    pub fn new(identity: ServiceAddress) -> (r: Self)
        ensures
            r.wf(),
            r.routes() == Map::<Seq<char>, Option<Seq<char>>>::empty(),
            r.spec_identity() == identity@,
            r.phase() == Phase::Starting,
    {
        Controller {
            senders: EndpointList::new(),
            identity,
            phase: Phase::Starting,
            pending: Vec::new(),
            cursor: 0,
        }
    }

    /// A controller of participant `identity` with every bus of `buses`
    /// registered in order, a later entry of a bus replacing an earlier one.
    pub fn with(identity: ServiceAddress, buses: Vec<(BusId, Option<ServiceAddress>)>) -> (r: Self)
        ensures
            r.wf(),
            r.routes() == registered(identity@, buses@),
            r.spec_identity() == identity@,
            r.phase() == Phase::Starting,
    {
        let ghost all = buses@;
        let mut me = Controller::new(identity);
        let mut buses = buses;
        let ghost n = all.len();
        while buses.len() > 0
            invariant
                me.wf(),
                me.spec_identity() == identity@,
                me.phase() == Phase::Starting,
                buses@.len() <= n,
                n == all.len(),
                buses@ == all.subrange(n - buses@.len(), n as int),
                me.routes() == registered(identity@, all.take(n - buses@.len())),
            decreases buses@.len(),
        {
            let ghost k = n - buses@.len();
            let (id, router) = buses.remove(0);
            proof {
                assert(buses@ =~= all.subrange(k + 1, n as int));
                assert(all.take(k + 1).drop_last() =~= all.take(k));
                assert(all.take(k + 1).last() == all[k]);
            }
            me.add_service_bus(id, router);
        }
        assert(all.take(n as int) =~= all);
        me
    }

    /// The participant's identity.
    pub fn identity(&self) -> (r: &ServiceAddress)
        ensures
            r@ == self.spec_identity(),
    {
        &self.identity
    }

    /// The endpoint registry.
    pub fn senders(&self) -> (r: &EndpointList)
        requires
            self.wf(),
        ensures
            r.wf(),
            r.view() == self.routes(),
    {
        &self.senders
    }

    /// The phase of the run loop.
    pub fn current_phase(&self) -> (r: Phase)
        ensures
            r == self.phase(),
    {
        self.phase
    }

    /// Registers bus `id` configured with router `router`. A router equal to
    /// the participant's identity is not stored. An earlier entry of the same
    /// bus is replaced.
    pub fn add_service_bus(&mut self, id: BusId, router: Option<ServiceAddress>)
        requires
            old(self).wf(),
        ensures
            final(self).wf(),
            final(self).routes() == old(self).routes().insert(
                id@,
                spec_effective_router(opt_view(router), old(self).spec_identity()),
            ),
            opt_view(router) == Some(old(self).spec_identity()) ==> final(self).routes()[id@] is None,
            final(self).spec_identity() == old(self).spec_identity(),
            final(self).phase() == old(self).phase(),
            final(self).pending() == old(self).pending(),
            final(self).cursor() == old(self).cursor(),
    {
        let stored = effective_router(router, &self.identity);
        self.senders.insert(id, Endpoint { router: stored });
    }

    /// Prepares a send of `request` to `dest` on bus `bus_id`, with the
    /// participant's identity as source.
    pub fn send_to<R>(&self, bus_id: BusId, dest: ServiceAddress, request: R) -> (r: Result<
        Transmission<R>,
        Error,
    >)
        requires
            self.wf(),
        ensures
            !self.routes().contains_key(bus_id@) <==> r == Err::<Transmission<R>, Error>(
                Error::UnknownBusId(bus_id),
            ),
            self.routes().contains_key(bus_id@) ==> (r matches Ok(t) && t.bus_id == bus_id
                && t.source@ == self.spec_identity() && t.dest == dest && t.request == request
                && t.next_hop@ == spec_next_hop(
                self.routes()[bus_id@],
                self.spec_identity(),
                dest@,
            )),
    {
        self.senders.send_to(bus_id, self.identity.clone(), dest, request)
    }

    /// Outcome of the handler's startup logic: the loop starts polling, or
    /// ends with the startup error.
    pub fn ready_outcome<R>(&mut self, res: Result<(), Error>) -> (a: Action<R>)
        requires
            old(self).wf(),
            old(self).phase() == Phase::Starting,
        ensures
            final(self).wf(),
            final(self).routes() == old(self).routes(),
            final(self).spec_identity() == old(self).spec_identity(),
            res is Ok ==> final(self).phase() == Phase::Idle && a is Poll,
            res is Err ==> final(self).phase() == Phase::Stopped && a == Action::<R>::Stop(res->Err_0),
    {
        match res {
            Ok(()) => {
                self.phase = Phase::Idle;
                Action::Poll
            },
            Err(e) => {
                self.phase = Phase::Stopped;
                Action::Stop(e)
            },
        }
    }

    /// Outcome of a poll: the ready buses are drained one by one in the
    /// order given; a poll failure goes to the handler's error callback.
    pub fn polled<R>(&mut self, res: Result<Vec<BusId>, Error>) -> (a: Action<R>)
        requires
            old(self).wf(),
            old(self).phase() == Phase::Idle,
        ensures
            final(self).wf(),
            final(self).routes() == old(self).routes(),
            final(self).spec_identity() == old(self).spec_identity(),
            res matches Ok(ids) ==> (if ids@.len() == 0 {
                final(self).phase() == Phase::Idle && a is Poll
            } else {
                final(self).phase() == Phase::Draining && final(self).pending() == ids@
                    && final(self).cursor() == 0 && a == Action::<R>::Receive(ids@[0])
            }),
            res is Err ==> final(self).phase() == Phase::Recovering && a
                == Action::<R>::HandleErr(res->Err_0),
    {
        match res {
            Ok(ids) => {
                if ids.len() == 0 {
                    Action::Poll
                } else {
                    let first = ids[0].clone();
                    self.pending = ids;
                    self.cursor = 0;
                    self.phase = Phase::Draining;
                    Action::Receive(first)
                }
            },
            Err(e) => {
                self.phase = Phase::Recovering;
                Action::HandleErr(e)
            },
        }
    }

    /// Outcome of receiving and decoding one frame from the current ready
    /// bus. A frame addressed to the participant goes to the handler; any
    /// other is re-sent unchanged on the same bus toward its destination.
    /// A receive or decode failure goes to the handler's error callback.
    pub fn received<R>(&mut self, res: Result<Frame<R>, Error>) -> (a: Action<R>)
        requires
            old(self).wf(),
            old(self).phase() == Phase::Draining,
        ensures
            final(self).wf(),
            final(self).routes() == old(self).routes(),
            final(self).spec_identity() == old(self).spec_identity(),
            final(self).pending() == old(self).pending(),
            final(self).cursor() == old(self).cursor(),
            res is Ok && res->Ok_0.dest@ == old(self).spec_identity() ==> final(self).phase()
                == Phase::Dispatching && a == (Action::<R>::Handle {
                bus_id: old(self).pending()[old(self).cursor()],
                source: res->Ok_0.source,
                request: res->Ok_0.request,
            }),
            res is Ok && res->Ok_0.dest@ != old(self).spec_identity() && old(self).routes().contains_key(
                old(self).pending()[old(self).cursor()]@,
            ) ==> final(self).phase() == Phase::Dispatching && (a matches Action::Send(t)
                && t.bus_id == old(self).pending()[old(self).cursor()] && t.source == res->Ok_0.source
                && t.dest == res->Ok_0.dest && t.request == res->Ok_0.request && t.next_hop@ == spec_next_hop(
                old(self).routes()[t.bus_id@],
                res->Ok_0.source@,
                res->Ok_0.dest@,
            )),
            res is Ok && res->Ok_0.dest@ != old(self).spec_identity() && !old(
                self,
            ).routes().contains_key(old(self).pending()[old(self).cursor()]@) ==> final(self).phase()
                == Phase::Recovering && a == Action::<R>::HandleErr(
                Error::UnknownBusId(old(self).pending()[old(self).cursor()]),
            ),
            res is Err ==> final(self).phase() == Phase::Recovering && a
                == Action::<R>::HandleErr(res->Err_0),
    {
        match res {
            Ok(frame) => {
                let bus_id = self.pending[self.cursor].clone();
                if frame.dest == self.identity {
                    self.phase = Phase::Dispatching;
                    Action::Handle { bus_id, source: frame.source, request: frame.request }
                } else {
                    match self.senders.send_to(bus_id, frame.source, frame.dest, frame.request) {
                        Ok(t) => {
                            self.phase = Phase::Dispatching;
                            Action::Send(t)
                        },
                        Err(e) => {
                            self.phase = Phase::Recovering;
                            Action::HandleErr(e)
                        },
                    }
                }
            },
            Err(e) => {
                self.phase = Phase::Recovering;
                Action::HandleErr(e)
            },
        }
    }

    /// Outcome of handling or re-sending the current frame: the next ready
    /// bus is drained, or the loop polls again after the last one. A failure
    /// goes to the handler's error callback and ends the pass.
    pub fn completed<R>(&mut self, res: Result<(), Error>) -> (a: Action<R>)
        requires
            old(self).wf(),
            old(self).phase() == Phase::Dispatching,
        ensures
            final(self).wf(),
            final(self).routes() == old(self).routes(),
            final(self).spec_identity() == old(self).spec_identity(),
            res is Ok && old(self).cursor() + 1 < old(self).pending().len() ==> final(self).phase()
                == Phase::Draining && final(self).pending() == old(self).pending()
                && final(self).cursor() == old(self).cursor() + 1 && a == Action::<R>::Receive(
                old(self).pending()[old(self).cursor() + 1],
            ),
            res is Ok && old(self).cursor() + 1 >= old(self).pending().len() ==> final(self).phase()
                == Phase::Idle && a is Poll,
            res is Err ==> final(self).phase() == Phase::Recovering && a
                == Action::<R>::HandleErr(res->Err_0),
    {
        match res {
            Ok(()) => {
                if self.cursor < self.pending.len() - 1 {
                    self.cursor = self.cursor + 1;
                    self.phase = Phase::Draining;
                    Action::Receive(self.pending[self.cursor].clone())
                } else {
                    self.phase = Phase::Idle;
                    Action::Poll
                }
            },
            Err(e) => {
                self.phase = Phase::Recovering;
                Action::HandleErr(e)
            },
        }
    }

    /// Outcome of the handler's error callback: the loop survives and polls
    /// again, or ends with the callback's own error.
    pub fn recovered<R>(&mut self, res: Result<(), Error>) -> (a: Action<R>)
        requires
            old(self).wf(),
            old(self).phase() == Phase::Recovering,
        ensures
            final(self).wf(),
            final(self).routes() == old(self).routes(),
            final(self).spec_identity() == old(self).spec_identity(),
            res is Ok ==> final(self).phase() == Phase::Idle && a is Poll,
            res is Err ==> final(self).phase() == Phase::Stopped && a == Action::<R>::Stop(res->Err_0),
    {
        match res {
            Ok(()) => {
                self.phase = Phase::Idle;
                Action::Poll
            },
            Err(e) => {
                self.phase = Phase::Stopped;
                Action::Stop(e)
            },
        }
    }
}

} // verus!
