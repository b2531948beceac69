//! Settings of the standalone interactor service.

use vstd::prelude::*;

use crate::logging::{crate_views, format_levels, level_directives};

verus! {

/// All settings of the standalone interactor service.
pub struct Config {
    pub logging: Logging,
    pub application: Application,
    pub eac: EAC,
}

/// Exchange access settings.
pub struct EAC {
    pub demo: bool,
    pub exchanges: Exchanges,
}

/// Settings of each supported exchange.
pub struct Exchanges {
    pub okx: OKX,
}

/// OKX endpoints and credentials.
pub struct OKX {
    pub http_url: String,
    pub ws_url: String,
    pub auth: OKXAuth,
}

/// OKX API credentials.
#[derive(Clone)]
pub struct OKXAuth {
    pub api_key: String,
    pub api_secret: String,
    pub api_passphrase: String,
}

/// Name and port of the service.
pub struct Application {
    pub name: String,
    pub port: u16,
}

/// Default log level and per-crate log levels.
pub struct Logging {
    level: String,
    crates: Vec<(String, String)>,
}

impl Logging {
    /// Logging at `level` by default and at the given level for each listed crate.
    pub fn new(level: String, crates: Vec<(String, String)>) -> (logging: Logging)
        ensures
            logging.level() == level@,
            logging.crates() == crate_views(crates@),
    {
        Logging { level, crates }
    }

    /// The default level.
    pub closed spec fn level(&self) -> Seq<char> {
        self.level@
    }

    /// The per-crate levels, in the order given.
    pub closed spec fn crates(&self) -> Seq<(Seq<char>, Seq<char>)> {
        crate_views(self.crates@)
    }

    /// The log filter directives: the default level, a comma, then
    /// `crate=level` for each crate, separated by commas.
    pub fn levels(&self) -> (directives: String)
        ensures
            directives@ == level_directives(self.level(), self.crates()),
    {
        format_levels(&self.level, &self.crates)
    }
}

} // verus!
