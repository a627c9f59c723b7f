//! Client-side protocol engine for a trading venue's manager gateway, together
//! with the request model of its account-management web service.
//!
//! The gateway speaks length-prefixed Protocol Buffers envelopes over one
//! persistent connection. This crate holds everything about that conversation
//! that can be decided without touching a socket: the wire codec, the tag
//! registry and message classifier, the connection life cycle with its login
//! handshake, the single-slot request correlation and the keepalive policy.
//! Every function carries a contract that Verus proves. The proofs rest on
//! four calls whose contracts are taken on trust: three into `prost`, for
//! varints and for skipping unknown fields, and one into the standard
//! library, for checking UTF-8. They stand in `wire`.

pub mod wire;
pub mod manager;
pub mod rest;
pub mod webservices;
