//! Settings of the interactor service.

use vstd::prelude::*;

use crate::logging::{crate_views, format_levels, level_directives};

verus! {

/// All settings of the interactor service.
pub struct Config {
    pub logging: Logging,
    pub application: Application,
    pub storage: Storage,
    pub engine: Engine,
    pub eac: EAC,
}

/// Exchange access settings.
pub struct EAC {
    pub demo: bool,
    pub exchanges: Exchanges,
}

/// Settings of each supported exchange.
pub struct Exchanges {
    pub okx: OKX,
}

/// OKX endpoints and credentials.
pub struct OKX {
    pub http: OKXHttp,
    pub ws: OKXWs,
    pub auth: OKXAuth,
}

/// OKX REST endpoint.
#[derive(Clone)]
pub struct OKXHttp {
    pub url: String,
}

/// OKX websocket endpoint.
#[derive(Clone)]
pub struct OKXWs {
    pub url: String,
}

/// OKX API credentials.
#[derive(Clone)]
pub struct OKXAuth {
    pub key: String,
    pub secret: String,
    pub passphrase: String,
}

/// Name and port of the service.
pub struct Application {
    pub name: String,
    pub port: u16,
}

/// Default log level and per-crate log levels.
pub struct Logging {
    level: String,
    crates: Vec<(String, String)>,
}

/// Storage service endpoint.
pub struct Storage {
    pub url: String,
}

/// Strategy engine endpoint.
pub struct Engine {
    pub url: String,
}

impl Logging {
    /// Logging at `level` by default and at the given level for each listed crate.
    pub fn new(level: String, crates: Vec<(String, String)>) -> (logging: Logging)
        ensures
            logging.level() == level@,
            logging.crates() == crate_views(crates@),
    {
        Logging { level, crates }
    }

    /// The default level.
    pub closed spec fn level(&self) -> Seq<char> {
        self.level@
    }

    /// The per-crate levels, in the order given.
    pub closed spec fn crates(&self) -> Seq<(Seq<char>, Seq<char>)> {
        crate_views(self.crates@)
    }

    /// The log filter directives: the default level, a comma, then
    /// `crate=level` for each crate, separated by commas.
    pub fn levels(&self) -> (directives: String)
        ensures
            directives@ == level_directives(self.level(), self.crates()),
    {
        format_levels(&self.level, &self.crates)
    }
}

} // verus!
