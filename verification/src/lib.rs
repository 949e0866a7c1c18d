//! The routing core of a peer-to-peer node.
//!
//! A node talks to its peers through [`service::NetworkAsyncService`], which
//! frames messages and queues them for the wire, and reacts to what its peers
//! say through [`actor::NetworkActor`], which turns every incoming message and
//! every local event into the one thing that the node has to do about it.
//! [`operations`] states what each call does, seen from outside, and [`laws`] what
//! holds of nodes that talk to each other.

pub mod actor;
pub mod channel;
pub mod laws;
pub mod message;
pub mod operations;
pub mod service;
