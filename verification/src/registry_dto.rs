//! What the registry's REST interface exchanges: endpoints, transfer objects
//! built from stored plugins, and query parameters.

use vstd::prelude::*;

use crate::registry_model::Plugin;

verus! {

/// Endpoint that lists plugin information, filtered by id, name or version.
pub const GET_PLUGINS_INFO_BY_ID_OR_NAME_OR_VERSION: &'static str = "/api/v1/registry/plugins/info";

/// Endpoint that hands out plugin binaries, filtered by id, name or version.
pub const GET_BINARY_BY_ID_OR_NAME_OR_VERSION: &'static str = "/api/v1/registry/plugins/binary";

/// Endpoint that uploads plugins.
pub const POST_PLUGINS: &'static str = "/api/v1/registry/plugins";

/// Endpoint that deletes plugins, filtered by id, name or version.
pub const DELETE_PLUGINS_INFO_BY_ID_OR_NAME_OR_VERSION: &'static str = "/api/v1/registry/plugins";

/// Identity of a stored plugin as the REST interface reports it.
#[derive(Clone, Debug)]
pub struct PluginInfo {
    pub id: u128,
    pub name: String,
    pub version: String,
}

impl From<Plugin> for PluginInfo {
    fn from(value: Plugin) -> (info: PluginInfo) {
        PluginInfo { id: value.id, name: value.name, version: value.version }
    }
}

impl vstd::std_specs::convert::FromSpecImpl<Plugin> for PluginInfo {
    open spec fn obeys_from_spec() -> bool {
        true
    }

    open spec fn from_spec(value: Plugin) -> PluginInfo {
        PluginInfo { id: value.id, name: value.name, version: value.version }
    }
}

/// A stored plugin with its binary, as the REST interface hands it out.
#[derive(Clone, Debug)]
pub struct PluginBinary {
    pub id: u128,
    pub name: String,
    pub version: String,
    pub binary: Vec<u8>,
}

impl From<Plugin> for PluginBinary {
    fn from(value: Plugin) -> (plugin: PluginBinary) {
        PluginBinary { id: value.id, name: value.name, version: value.version, binary: value.binary }
    }
}

impl vstd::std_specs::convert::FromSpecImpl<Plugin> for PluginBinary {
    open spec fn obeys_from_spec() -> bool {
        true
    }

    open spec fn from_spec(value: Plugin) -> PluginBinary {
        PluginBinary { id: value.id, name: value.name, version: value.version, binary: value.binary }
    }
}

/// Query that selects plugins by identifier, name or version.
#[derive(Clone, Debug)]
pub struct PluginQuery {
    pub id: Option<u128>,
    pub name: Option<String>,
    pub version: Option<String>,
}

/// Query of an upload: whether binaries already stored are overridden.
#[derive(Clone, Copy, Debug, PartialEq, Eq, Structural)]
pub struct AddPluginQuery {
    pub force: bool,
}

} // verus!
