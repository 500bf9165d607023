use microservices::error::Error;
use microservices::registry::{Endpoint, EndpointList};
use microservices::routing::{effective_router, next_hop};

#[derive(Debug, Clone, PartialEq)]
enum Req {
    Ping,
    Data(u8),
}

fn s(x: &str) -> String {
    x.to_string()
}

#[test]
fn no_router_goes_to_destination() {
    assert_eq!(next_hop(&None, &s("node1"), &s("node2")), "node2");
}

#[test]
fn router_is_next_hop_for_other_sources() {
    assert_eq!(next_hop(&Some(s("broker")), &s("node1"), &s("node2")), "broker");
}

#[test]
fn router_as_source_delivers_directly() {
    assert_eq!(next_hop(&Some(s("broker")), &s("broker"), &s("node2")), "node2");
}

#[test]
fn router_equal_to_identity_collapses() {
    assert_eq!(effective_router(Some(s("broker")), &s("broker")), None);
    assert_eq!(effective_router(Some(s("broker")), &s("node1")), Some(s("broker")));
    assert_eq!(effective_router(None, &s("node1")), None);
}

#[test]
fn unknown_bus_send_fails() {
    let mut list = EndpointList::new();
    list.insert(s("alpha"), Endpoint { router: None });
    let r = list.send_to(s("beta"), s("node1"), s("node2"), Req::Ping);
    assert_eq!(r.unwrap_err(), Error::UnknownBusId(s("beta")));
}

#[test]
fn unknown_bus_set_identity_fails() {
    let list = EndpointList::new();
    let r = list.set_identity(s("alpha"), s("node1"));
    assert_eq!(r.unwrap_err(), Error::UnknownBusId(s("alpha")));
}

#[test]
fn known_bus_set_identity_is_planned() {
    let mut list = EndpointList::new();
    list.insert(s("alpha"), Endpoint { router: None });
    let r = list.set_identity(s("alpha"), s("node7")).unwrap();
    assert_eq!(r.bus_id, "alpha");
    assert_eq!(r.identity, "node7");
}

#[test]
fn insert_replaces_earlier_entry() {
    let mut list = EndpointList::new();
    list.insert(s("alpha"), Endpoint { router: Some(s("broker")) });
    list.insert(s("alpha"), Endpoint { router: None });
    assert!(list.contains(&s("alpha")));
    assert!(!list.contains(&s("beta")));
    assert_eq!(list.router(&s("alpha")), Some(None));
    let t = list.send_to(s("alpha"), s("node1"), s("node2"), Req::Data(3)).unwrap();
    assert_eq!(t.next_hop, "node2");
    assert_eq!(t.request, Req::Data(3));
}

#[test]
fn failed_send_names_source_and_destination() {
    let mut list = EndpointList::new();
    list.insert(s("gateway"), Endpoint { router: Some(s("broker")) });
    let t = list.send_to(s("gateway"), s("node1"), s("node2"), Req::Ping).unwrap();
    assert_eq!(t.next_hop, "broker");
    let e = t.failed(s("host unreachable"));
    assert_eq!(
        e,
        Error::Send { source: s("node1"), dest: s("node2"), reason: s("host unreachable") }
    );
}
