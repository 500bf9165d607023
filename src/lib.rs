//! Routing and dispatch core of a multi-bus service bus.
//!
//! The library keeps the registry of buses, decides the next hop of every
//! outgoing request, and drives the poll / dispatch run loop as a state
//! machine. Transport sessions, decoding of payloads and the application
//! handler are supplied by the embedding program, which performs the actions
//! that the state machine hands out and feeds back the events.
pub mod controller;
pub mod error;
pub mod laws;
pub mod node;
pub mod poll;
pub mod registry;
pub mod routing;
