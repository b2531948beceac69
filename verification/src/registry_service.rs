//! The registry service: stores strategy plugins and looks them up by
//! identifier, by name, and by name and version.

use vstd::prelude::*;
use vstd::slice::slice_to_vec;

use crate::registry::{
    add_plugin, delete_if, find, reject, select, FilterView, PluginFilter, Registry,
};
use crate::registry_model::{is_random_uuid, plugin_views, Plugin, PluginView};

verus! {

/// The first plugin of `s`, if any.
pub open spec fn first_of(s: Seq<PluginView>) -> Option<PluginView> {
    if s.len() > 0 {
        Some(s[0])
    } else {
        None
    }
}

/// The view of an optional plugin.
pub open spec fn option_view(p: Option<Plugin>) -> Option<PluginView> {
    match p {
        Some(p) => Some(p@),
        None => None,
    }
}

/// No two plugins of `s` share both name and version.
pub open spec fn unique_versions(s: Seq<PluginView>) -> bool {
    forall|i: int, j: int|
        0 <= i < s.len() && 0 <= j < s.len() && i != j ==> !(#[trigger] s[i].name == #[trigger] s[j].name
            && s[i].version == s[j].version)
}

/// Keeps uploaded strategy plugins, one per name and version.
pub struct RegistryService {
    registry: Registry,
}

impl View for RegistryService {
    type V = Seq<PluginView>;

    closed spec fn view(&self) -> Seq<PluginView> {
        self.registry@
    }
}

impl Default for RegistryService {
    fn default() -> (service: RegistryService)
        ensures
            service@ == Seq::<PluginView>::empty(),
    {
        RegistryService::new()
    }
}

impl RegistryService {
    /// A service that holds no plugin.
    pub fn new() -> (service: RegistryService)
        ensures
            service@ == Seq::<PluginView>::empty(),
    {
        RegistryService { registry: Registry::new() }
    }

    /// Every plugin, in the order they were stored.
    pub fn get_plugins(&self) -> (plugins: Vec<Plugin>)
        ensures
            plugin_views(plugins@) == self@,
    {
        let found = find(&self.registry, &PluginFilter::All);
        proof {
            lemma_select_all(self@);
        }
        found
    }

    /// The first stored plugin with identifier `id`.
    pub fn get_plugin_by_id(&self, id: u128) -> (plugin: Option<Plugin>)
        ensures
            option_view(plugin) == first_of(select(self@, FilterView::Id(id))),
    {
        let found = find(&self.registry, &PluginFilter::Id(id));
        first_plugin(found)
    }

    /// The stored plugins named `name`, in the order they were stored.
    pub fn get_plugins_by_name(&self, name: &str) -> (plugins: Vec<Plugin>)
        ensures
            plugin_views(plugins@) == select(self@, FilterView::Name(name@)),
    {
        find(&self.registry, &PluginFilter::Name(name.to_owned()))
    }

    /// The first stored plugin named `name` with version `version`.
    pub fn get_plugin_by_name_and_version(&self, name: &str, version: &str) -> (plugin: Option<
        Plugin,
    >)
        ensures
            option_view(plugin) == first_of(
                select(self@, FilterView::NameAndVersion(name@, version@)),
            ),
    {
        let found = find(
            &self.registry,
            &PluginFilter::NameAndVersion(name.to_owned(), version.to_owned()),
        );
        first_plugin(found)
    }

    /// Stores `binary` as the plugin `name` at `version`, whose name and
    /// version the caller read from the loaded binary. A plugin already
    /// stored under that name and version keeps its identifier, takes the new
    /// binary and moves to the end; otherwise a plugin with a fresh random
    /// identifier is appended. Returns the stored plugin.
    pub fn add_plugin(&mut self, name: &str, version: &str, binary: &[u8]) -> (plugin: Plugin)
        ensures
            ({
                let filter = FilterView::NameAndVersion(name@, version@);
                let matched = select(old(self)@, filter);
                &&& plugin.name@ == name@
                &&& plugin.version@ == version@
                &&& plugin.binary@ == binary@
                &&& matched.len() > 0 ==> plugin.id == matched[0].id
                &&& matched.len() == 0 ==> is_random_uuid(plugin.id)
                &&& final(self)@ == reject(old(self)@, filter).push(plugin@)
            }),
            unique_versions(old(self)@) ==> unique_versions(final(self)@),
    {
        let ghost filter = FilterView::NameAndVersion(name@, version@);
        let existing = self.remove_plugin_by_name_and_version(name, version);
        let plugin = match existing {
            Some(found) => {
                proof {
                    crate::registry::lemma_select_members(old(self)@, filter);
                }
                Plugin { id: found.id, name: found.name, version: found.version, binary: slice_to_vec(binary) }
            },
            None => Plugin::new(name, version, binary),
        };
        add_plugin(&mut self.registry, plugin.duplicate());
        proof {
            if unique_versions(old(self)@) {
                let r = reject(old(self)@, filter);
                lemma_reject_keeps_unique(old(self)@, filter);
                crate::registry::lemma_reject_members(old(self)@, filter);
                assert forall|i: int| 0 <= i < r.len() implies !(#[trigger] r[i].name == plugin@.name
                    && r[i].version == plugin@.version) by {
                    assert(!crate::registry::filter_matches(filter, r[i]));
                }
                lemma_push_unique(r, plugin@);
            }
        }
        plugin
    }

    /// Takes out every plugin with identifier `id` and returns the first.
    pub fn remove_plugin_by_id(&mut self, id: u128) -> (plugin: Option<Plugin>)
        ensures
            option_view(plugin) == first_of(select(old(self)@, FilterView::Id(id))),
            final(self)@ == reject(old(self)@, FilterView::Id(id)),
            unique_versions(old(self)@) ==> unique_versions(final(self)@),
    {
        let removed = delete_if(&mut self.registry, &PluginFilter::Id(id));
        proof {
            if unique_versions(old(self)@) {
                lemma_reject_keeps_unique(old(self)@, FilterView::Id(id));
            }
        }
        first_plugin(removed)
    }

    /// Takes out every plugin named `name` and returns them in stored order.
    pub fn remove_plugins_by_name(&mut self, name: &str) -> (plugins: Vec<Plugin>)
        ensures
            plugin_views(plugins@) == select(old(self)@, FilterView::Name(name@)),
            final(self)@ == reject(old(self)@, FilterView::Name(name@)),
            unique_versions(old(self)@) ==> unique_versions(final(self)@),
    {
        let removed = delete_if(&mut self.registry, &PluginFilter::Name(name.to_owned()));
        proof {
            if unique_versions(old(self)@) {
                lemma_reject_keeps_unique(old(self)@, FilterView::Name(name@));
            }
        }
        removed
    }

    /// Takes out every plugin named `name` with version `version` and
    /// returns the first.
    pub fn remove_plugin_by_name_and_version(&mut self, name: &str, version: &str) -> (plugin:
        Option<Plugin>)
        ensures
            option_view(plugin) == first_of(
                select(old(self)@, FilterView::NameAndVersion(name@, version@)),
            ),
            final(self)@ == reject(old(self)@, FilterView::NameAndVersion(name@, version@)),
            unique_versions(old(self)@) ==> unique_versions(final(self)@),
    {
        let removed = delete_if(
            &mut self.registry,
            &PluginFilter::NameAndVersion(name.to_owned(), version.to_owned()),
        );
        proof {
            if unique_versions(old(self)@) {
                lemma_reject_keeps_unique(old(self)@, FilterView::NameAndVersion(name@, version@));
            }
        }
        first_plugin(removed)
    }
}

/// The first plugin of `plugins`, if any.
fn first_plugin(plugins: Vec<Plugin>) -> (first: Option<Plugin>)
    ensures
        option_view(first) == first_of(plugin_views(plugins@)),
{
    if plugins.len() > 0 {
        Some(plugins[0].duplicate())
    } else {
        None
    }
}

/// Selecting every plugin gives back the whole sequence.
proof fn lemma_select_all(s: Seq<PluginView>)
    ensures
        select(s, FilterView::All) == s,
    decreases s.len(),
{
    if s.len() > 0 {
        lemma_select_all(s.drop_last());
        assert(s.drop_last().push(s.last()) =~= s);
    }
}

/// Keeping a subsequence keeps names and versions unique.
proof fn lemma_reject_keeps_unique(s: Seq<PluginView>, f: FilterView)
    requires
        unique_versions(s),
    ensures
        unique_versions(reject(s, f)),
    decreases s.len(),
{
    if s.len() > 0 {
        let t = s.drop_last();
        assert(unique_versions(t)) by {
            assert forall|i: int, j: int|
                0 <= i < t.len() && 0 <= j < t.len() && i != j implies !(#[trigger] t[i].name
                == #[trigger] t[j].name && t[i].version == t[j].version) by {
                assert(t[i] == s[i] && t[j] == s[j]);
            }
        }
        lemma_reject_keeps_unique(t, f);
        if !filter_matches_last(s, f) {
            let r = reject(t, f);
            crate::registry::lemma_reject_members(t, f);
            assert forall|i: int| 0 <= i < r.len() implies !(#[trigger] r[i].name == s.last().name
                && r[i].version == s.last().version) by {
                let k = choose|k: int| 0 <= k < t.len() && t[k] == r[i];
                assert(s[k] == r[i]);
            }
            lemma_push_unique(r, s.last());
        }
    }
}

spec fn filter_matches_last(s: Seq<PluginView>, f: FilterView) -> bool {
    crate::registry::filter_matches(f, s.last())
}

/// Appending a plugin whose name and version no element shares keeps
/// names and versions unique.
proof fn lemma_push_unique(s: Seq<PluginView>, p: PluginView)
    requires
        unique_versions(s),
        forall|i: int| 0 <= i < s.len() ==> !(#[trigger] s[i].name == p.name && s[i].version == p.version),
    ensures
        unique_versions(s.push(p)),
{
    let t = s.push(p);
    assert forall|i: int, j: int|
        0 <= i < t.len() && 0 <= j < t.len() && i != j implies !(#[trigger] t[i].name
        == #[trigger] t[j].name && t[i].version == t[j].version) by {
        if i < s.len() && j < s.len() {
            assert(t[i] == s[i] && t[j] == s[j]);
        } else if i < s.len() {
            assert(t[i] == s[i]);
        } else if j < s.len() {
            assert(t[j] == s[j]);
        }
    }
}


/// Law: right after `add_plugin(name, version, ..)` returned `p`, the one
/// plugin stored under that name and version is `p`, so a lookup by name and
/// version gives back `p`.
pub proof fn law_lookup_after_add(s: Seq<PluginView>, p: PluginView)
    ensures
        select(
            reject(s, FilterView::NameAndVersion(p.name, p.version)).push(p),
            FilterView::NameAndVersion(p.name, p.version),
        ) == seq![p],
        first_of(
            select(
                reject(s, FilterView::NameAndVersion(p.name, p.version)).push(p),
                FilterView::NameAndVersion(p.name, p.version),
            ),
        ) == Some(p),
{
    let f = FilterView::NameAndVersion(p.name, p.version);
    crate::registry::law_nothing_found_after_delete(s, f);
    crate::registry::law_find_after_add(reject(s, f), p, f);
    assert(Seq::<PluginView>::empty().push(p) =~= seq![p]);
}

} // verus!
