//! Where the matchmaker listens.

use vstd::prelude::*;

verus! {

/// Host and port the HTTP listener binds to. Port 0 asks the system for a free one.
#[derive(Debug)]
pub struct ApplicationSettings {
    pub port: u16,
    pub host: String,
}

impl Clone for ApplicationSettings {
    fn clone(&self) -> (r: Self)
        ensures
            r.port == self.port,
            r.host@ == self.host@,
    {
        ApplicationSettings { port: self.port, host: self.host.clone() }
    }
}

/// The matchmaker's configuration.
pub struct Settings {
    pub application: ApplicationSettings,
}

impl ApplicationSettings {
    /// Settings for the given host and port.
    pub fn new(host: String, port: u16) -> (r: Self)
        ensures
            r.host == host,
            r.port == port,
    {
        ApplicationSettings { port, host }
    }
}

} // verus!
