//! Core of a gateway between an XMPP server and push providers.
//!
//! The server opens no connection itself: the gateway connects to it as a
//! component, proves that it knows the shared secret, and then receives the
//! stanzas that ask for a push notification. Each is sent on to the backend
//! that it names, and what the provider answers is told in one vocabulary
//! for all backends.
//!
//! Nothing in this crate reads a socket, a file or the network. Its state
//! machines are told what happened and say what to do:
//!
//! - [`supervisor`] keeps the service connected: connect, run, wait, again.
//! - [`component`] is one connection, from its handshake to its end, and
//!   [`wire`] and [`xml`] are its bytes.
//! - [`handshake`] computes the credential of the handshake.
//! - [`dispatch`] holds the backends and routes each intent to its own.
//! - [`push`] holds the backends by the family of their provider, of which
//!   the HTTP-token backend is the one there is, [`config`] holds their
//!   configurations, and [`outcome`] the vocabulary of results.
//! - [`settings`] holds what the service is configured with.
//! - [`http_server`] decides the answers of the demonstration endpoint.
//! - [`text`] holds what the others need of text.

pub mod component;
pub mod config;
pub mod dispatch;
pub mod handshake;
pub mod http_server;
pub mod outcome;
pub mod push;
pub mod settings;
pub mod supervisor;
pub mod text;
pub mod wire;
pub mod xml;
