//! Process-wide configuration. Reading the environment happens outside the
//! library; this module only holds the values and renders the listen address.
use crate::text::{spec_decimal, u16_to_string};
use vstd::prelude::*;

verus! {

#[derive(Clone)]
pub struct AppConfig {
    pub database_url: String,
    pub server_host: String,
    pub server_port: u16,
    pub log_level: String,
}

impl AppConfig {
    /// The host and port joined as `host:port`.
    pub fn server_address(&self) -> (r: String)
        ensures
            r@ == self.server_host@ + seq![':'] + spec_decimal(self.server_port as nat),
    {
        proof {
            reveal_strlit(":");
            assert(":"@ =~= seq![':']);
        }
        let mut s: String = self.server_host.clone();
        s.append(":");
        let port: String = u16_to_string(self.server_port);
        s.append(port.as_str());
        s
    }
}

} // verus!
