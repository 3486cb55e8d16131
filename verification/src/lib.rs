//! Protocol core of a remote command bridge.
//!
//! A server accepts one command line per TCP connection, runs it through the
//! local shell and streams the merged output back; a client connects, checks a
//! liveness token, sends one command and relays what comes back. This crate
//! holds the decisions of both sides as state machines that perform no I/O:
//! the caller carries out each directive and reports what happened.
//!
//! On the server side, `listener` binds the port and accepts connections,
//! `session` serves one connection (its states and laws are in
//! `session_model` and `session_laws`), `transcript` is the queue between
//! the process and the connection, `containment` binds a process to a
//! kill-propagating job, and `reclaim` frees a port that is taken. On the
//! client side, `connector` establishes the connection within its budget of
//! attempts and `bootstrap` runs the collaborator that starts a server.
//! `handshake`, `command`, `config`, `decimal` and `text` hold what these
//! share.

pub mod bootstrap;
pub mod command;
pub mod config;
pub mod connector;
pub mod containment;
pub mod decimal;
pub mod handshake;
pub mod listener;
pub mod reclaim;
pub mod session;
pub mod session_laws;
pub mod session_model;
pub mod text;
pub mod transcript;
