//! Signaling and transport logic for small meshes of authenticated peers.
//!
//! A matchmaker authenticates clients, gives each an identity, and brokers
//! the handshakes between every pair of them; once a pair has shaken hands,
//! its packets travel peer to peer over an unreliable data channel.
//!
//! This library decides and does not act: it holds no socket, no clock, no
//! database and no media engine. Each part is told what happened and says
//! what is to be done.
//!
//! - [`moderator`]: the registry of sessions and the routing between them;
//!   [`mesh`] states what holds of the registry over any history.
//! - [`client`]: the matchmaker's end of one signaling connection.
//! - [`peer`]: the driver of the negotiation with one remote peer.
//! - [`socket`]: the client's transport, which holds one driver for each
//!   peer; [`ggrs_socket`] orders the players of a session.
//! - [`message`], [`codec`], [`frame`], [`identity`], [`json`]: envelopes
//!   and their wire form.
//! - [`authentication`], [`db`], [`user`]: credentials, password hashes and
//!   the records of the user store.
//! - [`rtc_config`], [`settings`]: configuration.

pub mod authentication;
pub mod client;
pub mod codec;
pub mod db;
pub mod frame;
pub mod ggrs_socket;
pub mod identity;
pub mod json;
pub mod mesh;
pub mod message;
pub mod moderator;
pub mod peer;
pub mod rtc_config;
pub mod settings;
pub mod socket;
pub mod text;
pub mod user;
