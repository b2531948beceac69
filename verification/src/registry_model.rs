//! A plugin held by the registry and the events announced about it.

use vstd::prelude::*;
use vstd::slice::slice_to_vec;

verus! {

/// Version-4 random identifiers have the version nibble set to 4 and the
/// variant bits set to `10`.
pub open spec fn is_random_uuid(id: u128) -> bool {
    id & 0x0000_0000_0000_F000_C000_0000_0000_0000u128 == 0x0000_0000_0000_4000_8000_0000_0000_0000u128
}

/// Draws a fresh identifier with `uuid::Uuid::new_v4`, read back with
/// `as_u128`. The value is random: the contract only states the fixed
/// version and variant bits that `new_v4` sets on every outcome.
#[verifier::external_body]
pub(crate) fn random_uuid() -> (id: u128)
    ensures
        is_random_uuid(id),
{
    uuid::Uuid::new_v4().as_u128()
}

/// A strategy binary stored in the registry.
#[derive(Clone, Debug)]
pub struct Plugin {
    pub id: u128,
    pub name: String,
    pub version: String,
    pub binary: Vec<u8>,
}

/// The mathematical value of a [`Plugin`].
pub struct PluginView {
    pub id: u128,
    pub name: Seq<char>,
    pub version: Seq<char>,
    pub binary: Seq<u8>,
}

impl View for Plugin {
    type V = PluginView;

    open spec fn view(&self) -> PluginView {
        PluginView { id: self.id, name: self.name@, version: self.version@, binary: self.binary@ }
    }
}

/// The views of a sequence of plugins.
pub open spec fn plugin_views(s: Seq<Plugin>) -> Seq<PluginView> {
    s.map_values(|p: Plugin| p@)
}

/// Kind of change announced for a plugin.
#[derive(Clone, Copy, Debug, PartialEq, Eq, Structural)]
pub enum PluginEventType {
    Created,
    Updated,
    Deleted,
}

/// Announcement that a plugin was created, updated or deleted.
#[derive(Clone, Debug)]
pub struct PluginEvent {
    pub id: u128,
    pub strategy_name: String,
    pub strategy_version: String,
    pub event: PluginEventType,
}

impl Plugin {
    /// A plugin with a fresh random identifier and the given name, version and binary.
    pub fn new(name: &str, version: &str, binary: &[u8]) -> (plugin: Plugin)
        ensures
            plugin.name@ == name@,
            plugin.version@ == version@,
            plugin.binary@ == binary@,
            is_random_uuid(plugin.id),
    {
        Plugin {
            id: random_uuid(),
            name: name.to_owned(),
            version: version.to_owned(),
            binary: slice_to_vec(binary),
        }
    }

    /// The event that announces `event_type` for this plugin.
    pub fn as_event(&self, event_type: PluginEventType) -> (event: PluginEvent)
        ensures
            event.id == self.id,
            event.strategy_name@ == self.name@,
            event.strategy_version@ == self.version@,
            event.event == event_type,
    {
        PluginEvent {
            id: self.id,
            strategy_name: self.name.clone(),
            strategy_version: self.version.clone(),
            event: event_type,
        }
    }

    /// A copy of this plugin.
    pub fn duplicate(&self) -> (copy: Plugin)
        ensures
            copy@ == self@,
    {
        Plugin {
            id: self.id,
            name: self.name.clone(),
            version: self.version.clone(),
            binary: slice_to_vec(self.binary.as_slice()),
        }
    }
}

} // verus!
