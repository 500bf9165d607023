use microservices::controller::{Action, Controller, Frame, Phase};
use microservices::error::Error;
use microservices::node::run_loop_failure;
use microservices::poll::{assemble_batch, ready_buses};

#[derive(Debug, Clone, PartialEq)]
enum Req {
    Ping,
    Data(u8),
}

fn s(x: &str) -> String {
    x.to_string()
}

#[test]
fn direct_send_on_bus_without_router() {
    let mut c = Controller::new(s("node1"));
    c.add_service_bus(s("alpha"), None);
    c.add_service_bus(s("beta"), None);
    let t = c.send_to(s("alpha"), s("node2"), Req::Ping).unwrap();
    assert_eq!(t.bus_id, "alpha");
    assert_eq!(t.source, "node1");
    assert_eq!(t.next_hop, "node2");
    assert_eq!(t.dest, "node2");
    assert_eq!(t.request, Req::Ping);
}

#[test]
fn send_through_router() {
    let mut c = Controller::new(s("node1"));
    c.add_service_bus(s("gateway"), Some(s("broker")));
    let t = c.send_to(s("gateway"), s("node2"), Req::Data(1)).unwrap();
    assert_eq!(t.next_hop, "broker");
    assert_eq!(t.dest, "node2");
}

#[test]
fn router_itself_sends_directly() {
    let mut c = Controller::new(s("broker"));
    c.add_service_bus(s("gateway"), Some(s("broker")));
    assert_eq!(c.senders().router(&s("gateway")), Some(None));
    let t = c.send_to(s("gateway"), s("node2"), Req::Data(1)).unwrap();
    assert_eq!(t.next_hop, "node2");
}

#[test]
fn controller_send_on_unknown_bus() {
    let c = Controller::new(s("node1"));
    let r = c.send_to(s("alpha"), s("node2"), Req::Ping);
    assert_eq!(r.unwrap_err(), Error::UnknownBusId(s("alpha")));
}

#[test]
fn batch_holds_only_ready_buses() {
    let index = vec![s("alpha"), s("beta"), s("gamma")];
    let ready = ready_buses(&index, &vec![false, true, false]);
    assert_eq!(ready, vec![s("beta")]);
    let frames = vec![Frame { source: s("node2"), dest: s("node1"), request: Req::Data(9) }];
    let batch = assemble_batch(ready, frames);
    assert_eq!(batch, vec![(s("beta"), s("node2"), Req::Data(9))]);
}

#[test]
fn nothing_ready_gives_empty_batch() {
    let index = vec![s("alpha"), s("beta")];
    let ready = ready_buses(&index, &vec![false, false]);
    assert!(ready.is_empty());
    let batch = assemble_batch::<Req>(ready, vec![]);
    assert!(batch.is_empty());
}

fn started() -> Controller {
    let mut c = Controller::new(s("node1"));
    c.add_service_bus(s("gateway"), None);
    assert_eq!(c.current_phase(), Phase::Starting);
    assert!(matches!(c.ready_outcome::<Req>(Ok(())), Action::Poll));
    c
}

#[test]
fn foreign_frame_is_resent_not_handled() {
    let mut c = started();
    match c.polled::<Req>(Ok(vec![s("gateway")])) {
        Action::Receive(b) => assert_eq!(b, "gateway"),
        other => panic!("unexpected {:?}", other),
    }
    let frame = Frame { source: s("node3"), dest: s("node2"), request: Req::Data(4) };
    match c.received(Ok(frame)) {
        Action::Send(t) => {
            assert_eq!(t.bus_id, "gateway");
            assert_eq!(t.source, "node3");
            assert_eq!(t.dest, "node2");
            assert_eq!(t.next_hop, "node2");
            assert_eq!(t.request, Req::Data(4));
        }
        other => panic!("unexpected {:?}", other),
    }
    assert!(matches!(c.completed::<Req>(Ok(())), Action::Poll));
    assert_eq!(c.current_phase(), Phase::Idle);
}

#[test]
fn own_frame_is_handled() {
    let mut c = started();
    c.polled::<Req>(Ok(vec![s("gateway")]));
    let frame = Frame { source: s("node3"), dest: s("node1"), request: Req::Ping };
    match c.received(Ok(frame)) {
        Action::Handle { bus_id, source, request } => {
            assert_eq!(bus_id, "gateway");
            assert_eq!(source, "node3");
            assert_eq!(request, Req::Ping);
        }
        other => panic!("unexpected {:?}", other),
    }
}

#[test]
fn ready_buses_are_drained_in_turn() {
    let mut c = started();
    c.add_service_bus(s("alpha"), None);
    match c.polled::<Req>(Ok(vec![s("alpha"), s("gateway")])) {
        Action::Receive(b) => assert_eq!(b, "alpha"),
        other => panic!("unexpected {:?}", other),
    }
    let frame = Frame { source: s("node3"), dest: s("node1"), request: Req::Ping };
    assert!(matches!(c.received(Ok(frame)), Action::Handle { .. }));
    match c.completed::<Req>(Ok(())) {
        Action::Receive(b) => assert_eq!(b, "gateway"),
        other => panic!("unexpected {:?}", other),
    }
}

#[test]
fn forwarding_on_unregistered_bus_goes_to_error_callback() {
    let mut c = started();
    c.polled::<Req>(Ok(vec![s("ghost")]));
    let frame = Frame { source: s("node3"), dest: s("node2"), request: Req::Ping };
    match c.received(Ok(frame)) {
        Action::HandleErr(e) => assert_eq!(e, Error::UnknownBusId(s("ghost"))),
        other => panic!("unexpected {:?}", other),
    }
    assert_eq!(c.current_phase(), Phase::Recovering);
}

#[test]
fn startup_failure_stops_loop() {
    let mut c = Controller::new(s("node1"));
    match c.ready_outcome::<Req>(Err(Error::Handler(s("boom")))) {
        Action::Stop(e) => assert_eq!(e, Error::Handler(s("boom"))),
        other => panic!("unexpected {:?}", other),
    }
    assert_eq!(c.current_phase(), Phase::Stopped);
}

#[test]
fn fifth_failing_error_callback_ends_loop() {
    let mut c = started();
    let mut handled = 0;
    let mut end = None;
    for round in 1..=10 {
        let a = c.polled::<Req>(Err(Error::Transport(format!("poll {}", round))));
        match a {
            Action::HandleErr(e) => {
                assert_eq!(e, Error::Transport(format!("poll {}", round)));
                handled += 1;
            }
            other => panic!("unexpected {:?}", other),
        }
        let outcome = if handled == 5 { Err(Error::Handler(s("gave up"))) } else { Ok(()) };
        match c.recovered::<Req>(outcome) {
            Action::Poll => {}
            Action::Stop(e) => {
                end = Some(e);
                break;
            }
            other => panic!("unexpected {:?}", other),
        }
    }
    assert_eq!(handled, 5);
    assert_eq!(end, Some(Error::Handler(s("gave up"))));
    assert_eq!(c.current_phase(), Phase::Stopped);
    assert_eq!(
        run_loop_failure("lnpd", Some("Handler(\"gave up\")")),
        "lnpd run loop has failed with Handler(\"gave up\")"
    );
}

#[test]
fn clean_loop_return_is_reported() {
    assert_eq!(run_loop_failure("lnpd", None), "lnpd has failed without reporting a error");
}

#[test]
fn handler_failure_goes_to_error_callback() {
    let mut c = started();
    c.polled::<Req>(Ok(vec![s("gateway")]));
    let frame = Frame { source: s("node3"), dest: s("node1"), request: Req::Ping };
    c.received(Ok(frame));
    match c.completed::<Req>(Err(Error::Handler(s("bad")))) {
        Action::HandleErr(e) => assert_eq!(e, Error::Handler(s("bad"))),
        other => panic!("unexpected {:?}", other),
    }
    assert!(matches!(c.recovered::<Req>(Ok(())), Action::Poll));
    assert_eq!(c.identity(), "node1");
}

#[test]
fn with_registers_every_bus_later_entry_wins() {
    let c = Controller::with(
        s("node1"),
        vec![
            (s("alpha"), None),
            (s("gateway"), Some(s("broker"))),
            (s("beta"), Some(s("node1"))),
            (s("alpha"), Some(s("relay"))),
        ],
    );
    assert_eq!(c.current_phase(), Phase::Starting);
    assert_eq!(c.senders().router(&s("alpha")), Some(Some(s("relay"))));
    assert_eq!(c.senders().router(&s("gateway")), Some(Some(s("broker"))));
    assert_eq!(c.senders().router(&s("beta")), Some(None));
    assert_eq!(c.senders().router(&s("gamma")), None);
    let t = c.send_to(s("alpha"), s("node2"), Req::Ping).unwrap();
    assert_eq!(t.next_hop, "relay");
}
