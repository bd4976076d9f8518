//! A two-role chat over datagrams: a bounded, versioned chat log that a server
//! keeps, a registry of delayed timers, the event union that travels between
//! nodes, the datagram framing rules, a server that runs each client's
//! request at most once, and the decisions of a polling client.
pub mod message;
pub mod log;
pub mod timer;
pub mod event;
pub mod frame;
pub mod client;
pub mod server;
