//! The decisions of a peer-to-peer node's combined network behaviour.
//!
//! A node runs several network protocols at once: block synchronisation, peer identification,
//! discovery, request-response exchanges and light client requests. [`behaviour::Behaviour`] is
//! the place where they meet. It takes the events of each of them, turns an event into what is
//! announced to the rest of the node and into [`action::Action`]s on the other protocols, and
//! hands the announcements out one by one, in order.
//!
//! The modules:
//!
//! - [`network`]: the types that the behaviour hands on without reading them;
//! - [`outside`]: the types of other crates that it hands on;
//! - [`role`]: what the roles that a remote reports amount to;
//! - [`event`]: what comes in from the protocols and what is announced;
//! - [`action`]: the calls that the behaviour asks for;
//! - [`protocols`]: the request-response protocols that a node registers;
//! - [`routing`]: what each event leads to, as functions on mathematical values;
//! - [`behaviour`]: the behaviour itself;
//! - [`laws`]: what holds of it over several calls;
//! - [`fidelity`]: that what comes out is what the protocols told, all of it and unaltered;
//! - [`progress`]: that what is announced is handed out in the end.

pub mod action;
pub mod behaviour;
pub mod event;
pub mod fidelity;
pub mod laws;
pub mod network;
pub mod outside;
pub mod progress;
pub mod protocols;
pub mod role;
pub mod routing;
