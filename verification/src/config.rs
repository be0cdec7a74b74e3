//! The server's configuration, as loaded once at startup.  Reading and
//! decoding the configuration file stay with the web layer; the shared
//! secret in `token` is validated by the authenticator's constructor.

use vstd::prelude::*;

verus! {

/// The configuration's fields: file locations, the host name, and the
/// shared admin secret.
#[derive(Debug)]
pub struct Config {
    pub priv_key_file: String,
    pub cert_chain_file: String,
    pub host: String,
    pub database: String,
    pub templates: String,
    pub token: String,
    pub geoip_db_file: String,
}

} // verus!
