//! Process-wide configuration: loaded once at startup, injected into every
//! component, and never mutated afterwards.
use vstd::prelude::*;

verus! {

/// The signing key pair, as paserk text: the private key signs access
/// tokens, the public key verifies them. The private key never leaves the
/// signing path.
pub struct Auth {
    pub private_key: String,
    pub public_key: String,
}

/// Where the server listens.
pub struct Server {
    pub host: String,
}

/// How storage is reached.
pub struct Database {
    pub url: String,
    pub max_pool_size: u8,
}

/// The whole process configuration.
pub struct Settings {
    pub server: Server,
    pub database: Database,
    pub auth: Auth,
}

} // verus!
