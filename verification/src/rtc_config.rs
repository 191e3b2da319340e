//! How a client reaches the matchmaker and which ICE servers its media
//! sessions use.

use vstd::prelude::*;
use crate::text::{decimal_text, push_decimal, push_str};

verus! {

/// A STUN or TURN server.
#[derive(Debug, PartialEq, Eq)]
pub struct IceServer {
    pub urls: Vec<String>,
    pub username: String,
    pub credential: String,
}

impl IceServer {
    /// Whether this is the public STUN server that is used when none is
    /// configured: one URL, no user name, no credential.
    pub open spec fn is_default_stun(&self) -> bool {
        &&& self.urls@.len() == 1
        &&& self.urls@[0]@ == "stun:stun.stunprotocol.org:3478"@
        &&& self.username@ == Seq::<char>::empty()
        &&& self.credential@ == Seq::<char>::empty()
    }

    /// The public STUN server that is used when none is configured.
    pub fn default_stun() -> (r: Self)
        ensures
            r.is_default_stun(),
    {
        let mut urls: Vec<String> = Vec::new();
        urls.push("stun:stun.stunprotocol.org:3478".to_owned());
        IceServer { urls, username: String::new(), credential: String::new() }
    }
}

/// The text of the URL with the given path at `address` and `port`.
pub open spec fn ws_url(address: Seq<char>, port: u16, path: Seq<char>) -> Seq<char> {
    "ws://"@ + address + ":"@ + decimal_text(port as nat) + path
}

/// The value of an optional string.
pub open spec fn text_view(text: Option<String>) -> Option<Seq<char>> {
    match text {
        Some(t) => Some(t@),
        None => None,
    }
}

/// A client's configuration. It is not printable, because it may hold a
/// password.
pub struct RtcConfig {
    pub address: String,
    pub port: u16,
    pub user: String,
    pub password: Option<String>,
    pub ice_servers: Vec<IceServer>,
}

impl Default for RtcConfig {
    /// The matchmaker on this machine, no user, no password, and the public
    /// STUN server.
    fn default() -> (r: Self)
        ensures
            r.address@ == "127.0.0.1"@,
            r.port == 0,
            r.user@ == Seq::<char>::empty(),
            r.password is None,
            r.ice_servers@.len() == 1,
            r.ice_servers@[0].is_default_stun(),
    {
        let mut ice_servers: Vec<IceServer> = Vec::new();
        ice_servers.push(IceServer::default_stun());
        RtcConfig {
            address: "127.0.0.1".to_owned(),
            port: 0,
            user: String::new(),
            password: None,
            ice_servers,
        }
    }
}

impl RtcConfig {
    /// Sets the password.
    pub fn set_password(&mut self, password: &str)
        ensures
            text_view(final(self).password) == Some(password@),
            final(self).address == old(self).address,
            final(self).port == old(self).port,
            final(self).user == old(self).user,
            final(self).ice_servers == old(self).ice_servers,
    {
        self.password = Some(password.to_owned());
    }

    /// Hands the password out and forgets it.
    pub fn take_password(&mut self) -> (r: Option<String>)
        ensures
            r == old(self).password,
            final(self).password is None,
            final(self).address == old(self).address,
            final(self).port == old(self).port,
            final(self).user == old(self).user,
            final(self).ice_servers == old(self).ice_servers,
    {
        self.password.take()
    }

    /// The URL of the matchmaker's signaling scope.
    pub fn base_url(&self) -> (r: String)
        ensures
            r@ == ws_url(self.address@, self.port, "/ws"@),
    {
        self.url("/ws")
    }

    /// The URL at which a client logs in for signaling.
    pub fn login_url(&self) -> (r: String)
        ensures
            r@ == ws_url(self.address@, self.port, "/ws/login"@),
    {
        self.url("/ws/login")
    }

    fn url(&self, path: &str) -> (r: String)
        ensures
            r@ == ws_url(self.address@, self.port, path@),
    {
        let mut out = String::new();
        push_str(&mut out, "ws://");
        push_str(&mut out, self.address.as_str());
        push_str(&mut out, ":");
        push_decimal(&mut out, self.port);
        push_str(&mut out, path);
        assert(out@ =~= ws_url(self.address@, self.port, path@));
        out
    }
}

/// Builds an [`RtcConfig`] step by step.
pub struct RtcConfigBuilder {
    pub address: String,
    pub port: u16,
    pub user: String,
    pub password: Option<String>,
    pub ice_servers: Vec<IceServer>,
}

impl Default for RtcConfigBuilder {
    /// The settings of [`RtcConfig::default`].
    fn default() -> (r: Self)
        ensures
            r.address@ == "127.0.0.1"@,
            r.port == 0,
            r.user@ == Seq::<char>::empty(),
            r.password is None,
            r.ice_servers@.len() == 1,
            r.ice_servers@[0].is_default_stun(),
    {
        let c = RtcConfig::default();
        RtcConfigBuilder {
            address: c.address,
            port: c.port,
            user: c.user,
            password: c.password,
            ice_servers: c.ice_servers,
        }
    }
}

impl RtcConfigBuilder {
    /// A builder that holds the default settings.
    pub fn new() -> (r: Self)
        ensures
            r.address@ == "127.0.0.1"@,
            r.port == 0,
            r.user@ == Seq::<char>::empty(),
            r.password is None,
            r.ice_servers@.len() == 1,
            r.ice_servers@[0].is_default_stun(),
    {
        RtcConfigBuilder::default()
    }

    /// The configuration that was built.
    pub fn build(self) -> (r: RtcConfig)
        ensures
            r.address == self.address,
            r.port == self.port,
            r.user == self.user,
            r.password == self.password,
            r.ice_servers == self.ice_servers,
    {
        RtcConfig {
            address: self.address,
            port: self.port,
            user: self.user,
            password: self.password,
            ice_servers: self.ice_servers,
        }
    }

    /// Sets the host of the matchmaker.
    pub fn address(self, address: &str) -> (r: Self)
        ensures
            r.address@ == address@,
            r.port == self.port,
            r.user == self.user,
            r.password == self.password,
            r.ice_servers == self.ice_servers,
    {
        RtcConfigBuilder {
            address: address.to_owned(),
            port: self.port,
            user: self.user,
            password: self.password,
            ice_servers: self.ice_servers,
        }
    }

    /// Sets the user name.
    pub fn user(self, user: &str) -> (r: Self)
        ensures
            r.user@ == user@,
            r.address == self.address,
            r.port == self.port,
            r.password == self.password,
            r.ice_servers == self.ice_servers,
    {
        RtcConfigBuilder {
            address: self.address,
            port: self.port,
            user: user.to_owned(),
            password: self.password,
            ice_servers: self.ice_servers,
        }
    }

    /// Sets the port of the matchmaker.
    pub fn port(self, port: u16) -> (r: Self)
        ensures
            r.port == port,
            r.address == self.address,
            r.user == self.user,
            r.password == self.password,
            r.ice_servers == self.ice_servers,
    {
        RtcConfigBuilder {
            address: self.address,
            port,
            user: self.user,
            password: self.password,
            ice_servers: self.ice_servers,
        }
    }

    /// Sets the password.
    pub fn password(self, password: &str) -> (r: Self)
        ensures
            text_view(r.password) == Some(password@),
            r.address == self.address,
            r.port == self.port,
            r.user == self.user,
            r.ice_servers == self.ice_servers,
    {
        RtcConfigBuilder {
            address: self.address,
            port: self.port,
            user: self.user,
            password: Some(password.to_owned()),
            ice_servers: self.ice_servers,
        }
    }

    /// Replaces the ICE servers.
    pub fn ice_servers(self, ice_servers: Vec<IceServer>) -> (r: Self)
        ensures
            r.ice_servers == ice_servers,
            r.address == self.address,
            r.port == self.port,
            r.user == self.user,
            r.password == self.password,
    {
        RtcConfigBuilder {
            address: self.address,
            port: self.port,
            user: self.user,
            password: self.password,
            ice_servers,
        }
    }
}

} // verus!
