pub mod netease_music;

use vstd::prelude::*;
use vstd::string::*;
use crate::netease_music::codec::{decimal, decimal_string};

verus! {

/// Settings of the server: where it listens and the session token it uses.
pub struct Config {
    pub host: String,
    pub port: u16,
    pub cookie: String,
}

impl Default for Config {
    /// Listens on `127.0.0.1:8037`, with no session token.
    fn default() -> (r: Self)
        ensures
            r.host@ == "127.0.0.1"@,
            r.port == 8037,
            r.cookie@ == ""@,
    {
        Config { host: String::from_str("127.0.0.1"), port: 8037, cookie: String::from_str("") }
    }
}

impl Config {
    /// The address the server listens on: `host:port`.
    pub fn address(&self) -> (r: String)
        ensures
            r@ == self.host@ + ":"@ + decimal(self.port as nat),
    {
        let mut r = self.host.clone();
        r.append(":");
        let port = decimal_string(self.port as u64);
        r.append(port.as_str());
        r
    }
}

} // verus!
