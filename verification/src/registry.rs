//! The list of plugins that the registry service keeps, and the three
//! operations on it: find the plugins a filter selects, append a plugin, and
//! take out the plugins a filter selects.

use vstd::prelude::*;

use crate::registry_model::{plugin_views, Plugin, PluginView};

verus! {

/// Which plugins a search or a deletion selects.
#[derive(Clone, Debug)]
pub enum PluginFilter {
    /// Every plugin.
    All,
    /// The plugins with this identifier.
    Id(u128),
    /// The plugins with this name.
    Name(String),
    /// The plugins with this name and this version.
    NameAndVersion(String, String),
}

/// The mathematical value of a [`PluginFilter`].
pub enum FilterView {
    All,
    Id(u128),
    Name(Seq<char>),
    NameAndVersion(Seq<char>, Seq<char>),
}

impl View for PluginFilter {
    type V = FilterView;

    open spec fn view(&self) -> FilterView {
        match self {
            PluginFilter::All => FilterView::All,
            PluginFilter::Id(id) => FilterView::Id(*id),
            PluginFilter::Name(name) => FilterView::Name(name@),
            PluginFilter::NameAndVersion(name, version) => FilterView::NameAndVersion(
                name@,
                version@,
            ),
        }
    }
}

/// Whether `filter` selects the plugin `p`.
pub open spec fn filter_matches(filter: FilterView, p: PluginView) -> bool {
    match filter {
        FilterView::All => true,
        FilterView::Id(id) => p.id == id,
        FilterView::Name(name) => p.name == name,
        FilterView::NameAndVersion(name, version) => p.name == name && p.version == version,
    }
}

/// The plugins of `s` that `filter` selects, in their order.
pub open spec fn select(s: Seq<PluginView>, filter: FilterView) -> Seq<PluginView>
    decreases s.len(),
{
    if s.len() == 0 {
        Seq::empty()
    } else if filter_matches(filter, s.last()) {
        select(s.drop_last(), filter).push(s.last())
    } else {
        select(s.drop_last(), filter)
    }
}

/// The plugins of `s` that `filter` does not select, in their order.
pub open spec fn reject(s: Seq<PluginView>, filter: FilterView) -> Seq<PluginView>
    decreases s.len(),
{
    if s.len() == 0 {
        Seq::empty()
    } else if filter_matches(filter, s.last()) {
        reject(s.drop_last(), filter)
    } else {
        reject(s.drop_last(), filter).push(s.last())
    }
}

impl PluginFilter {
    /// Whether this filter selects `plugin`.
    pub fn matches(&self, plugin: &Plugin) -> (selected: bool)
        ensures
            selected == filter_matches(self@, plugin@),
            match self@ {
                FilterView::All => selected,
                FilterView::Id(id) => selected == (plugin.id == id),
                FilterView::Name(name) => selected == (plugin.name@ == name),
                FilterView::NameAndVersion(name, version) => selected == (plugin.name@ == name
                    && plugin.version@ == version),
            },
    {
        match self {
            PluginFilter::All => true,
            PluginFilter::Id(id) => plugin.id == *id,
            PluginFilter::Name(name) => plugin.name == *name,
            PluginFilter::NameAndVersion(name, version) => plugin.name == *name && plugin.version
                == *version,
        }
    }
}

/// Every element of `select(s, f)` is an element of `s` that `f` selects.
pub proof fn lemma_select_members(s: Seq<PluginView>, f: FilterView)
    ensures
        select(s, f).len() <= s.len(),
        forall|i: int|
            0 <= i < select(s, f).len() ==> s.contains(#[trigger] select(s, f)[i])
                && filter_matches(f, select(s, f)[i]),
    decreases s.len(),
{
    if s.len() > 0 {
        lemma_select_members(s.drop_last(), f);
        assert forall|i: int|
            0 <= i < select(s, f).len() implies s.contains(#[trigger] select(s, f)[i])
            && filter_matches(f, select(s, f)[i]) by {
            if i < select(s.drop_last(), f).len() {
                let j = choose|j: int|
                    0 <= j < s.drop_last().len() && s.drop_last()[j] == select(s.drop_last(), f)[i];
                assert(s[j] == select(s, f)[i]);
            } else {
                assert(s[s.len() - 1] == select(s, f)[i]);
            }
        }
    }
}

/// Every element of `reject(s, f)` is an element of `s` that `f` does not select.
pub proof fn lemma_reject_members(s: Seq<PluginView>, f: FilterView)
    ensures
        reject(s, f).len() <= s.len(),
        forall|i: int|
            0 <= i < reject(s, f).len() ==> s.contains(#[trigger] reject(s, f)[i])
                && !filter_matches(f, reject(s, f)[i]),
    decreases s.len(),
{
    if s.len() > 0 {
        lemma_reject_members(s.drop_last(), f);
        assert forall|i: int|
            0 <= i < reject(s, f).len() implies s.contains(#[trigger] reject(s, f)[i])
            && !filter_matches(f, reject(s, f)[i]) by {
            if i < reject(s.drop_last(), f).len() {
                let j = choose|j: int|
                    0 <= j < s.drop_last().len() && s.drop_last()[j] == reject(s.drop_last(), f)[i];
                assert(s[j] == reject(s, f)[i]);
            } else {
                assert(s[s.len() - 1] == reject(s, f)[i]);
            }
        }
    }
}

/// The plugins kept by the registry service, in the order they were added.
pub struct Registry {
    plugins: Vec<Plugin>,
}

impl View for Registry {
    type V = Seq<PluginView>;

    closed spec fn view(&self) -> Seq<PluginView> {
        plugin_views(self.plugins@)
    }
}

impl Registry {
    /// An empty registry.
    pub fn new() -> (registry: Registry)
        ensures
            registry@ == Seq::<PluginView>::empty(),
    {
        let registry = Registry { plugins: Vec::new() };
        assert(registry@ =~= Seq::<PluginView>::empty());
        registry
    }

    /// The plugins, in the order they were added.
    pub fn get_plugins(&self) -> (plugins: &Vec<Plugin>)
        ensures
            plugin_views(plugins@) == self@,
    {
        &self.plugins
    }
}

impl Default for Registry {
    fn default() -> (registry: Registry)
        ensures
            registry@ == Seq::<PluginView>::empty(),
    {
        Registry::new()
    }
}

/// Copies of the plugins that `filter` selects, in registry order.
pub fn find(registry: &Registry, filter: &PluginFilter) -> (found: Vec<Plugin>)
    ensures
        plugin_views(found@) == select(registry@, filter@),
{
    let plugins = &registry.plugins;
    let ghost all = plugin_views(plugins@);
    let mut found: Vec<Plugin> = Vec::new();
    let mut i: usize = 0;
    while i < plugins.len()
        invariant
            i <= plugins.len(),
            all == plugin_views(plugins@),
            plugin_views(found@) == select(all.take(i as int), filter@),
        decreases plugins.len() - i,
    {
        assert(all.take(i + 1).drop_last() =~= all.take(i as int));
        if filter.matches(&plugins[i]) {
            found.push(plugins[i].duplicate());
        }
        assert(plugin_views(found@) =~= select(all.take(i + 1), filter@));
        i = i + 1;
    }
    assert(all.take(plugins.len() as int) =~= all);
    found
}

/// Appends `plugin` to the registry.
pub fn add_plugin(registry: &mut Registry, plugin: Plugin)
    ensures
        final(registry)@ == old(registry)@.push(plugin@),
{
    let ghost before = registry.plugins@;
    registry.plugins.push(plugin);
    assert(plugin_views(registry.plugins@) =~= plugin_views(before).push(plugin@));
}

/// Takes out of the registry every plugin that `filter` selects and returns
/// them in registry order; the others stay, in their order.
pub fn delete_if(registry: &mut Registry, filter: &PluginFilter) -> (removed: Vec<Plugin>)
    ensures
        plugin_views(removed@) == select(old(registry)@, filter@),
        final(registry)@ == reject(old(registry)@, filter@),
{
    let ghost all = plugin_views(registry.plugins@);
    let mut kept: Vec<Plugin> = Vec::new();
    let mut removed: Vec<Plugin> = Vec::new();
    let mut i: usize = 0;
    let n = registry.plugins.len();
    while i < n
        invariant
            i <= n,
            n == registry.plugins.len(),
            all == plugin_views(registry.plugins@),
            plugin_views(removed@) == select(all.take(i as int), filter@),
            plugin_views(kept@) == reject(all.take(i as int), filter@),
        decreases n - i,
    {
        assert(all.take(i + 1).drop_last() =~= all.take(i as int));
        if filter.matches(&registry.plugins[i]) {
            removed.push(registry.plugins[i].duplicate());
        } else {
            kept.push(registry.plugins[i].duplicate());
        }
        assert(plugin_views(removed@) =~= select(all.take(i + 1), filter@));
        assert(plugin_views(kept@) =~= reject(all.take(i + 1), filter@));
        i = i + 1;
    }
    assert(all.take(n as int) =~= all);
    registry.plugins = kept;
    removed
}


/// Law: a filter splits the plugins in two, those it selects and those it
/// does not; no plugin is lost or counted twice.
pub proof fn law_select_reject_partition(s: Seq<PluginView>, f: FilterView)
    ensures
        select(s, f).len() + reject(s, f).len() == s.len(),
    decreases s.len(),
{
    if s.len() > 0 {
        law_select_reject_partition(s.drop_last(), f);
    }
}

/// Law: after the plugins a filter selects are taken out, searching with
/// the same filter finds nothing.
pub proof fn law_nothing_found_after_delete(s: Seq<PluginView>, f: FilterView)
    ensures
        select(reject(s, f), f) == Seq::<PluginView>::empty(),
    decreases s.len(),
{
    if s.len() > 0 {
        law_nothing_found_after_delete(s.drop_last(), f);
        if !filter_matches(f, s.last()) {
            let r = reject(s.drop_last(), f);
            assert(r.push(s.last()).drop_last() =~= r);
        }
    }
}

/// Law: an appended plugin is found last by every filter that selects it.
pub proof fn law_find_after_add(s: Seq<PluginView>, p: PluginView, f: FilterView)
    ensures
        filter_matches(f, p) ==> select(s.push(p), f) == select(s, f).push(p),
        !filter_matches(f, p) ==> select(s.push(p), f) == select(s, f),
{
    assert(s.push(p).drop_last() =~= s);
}

/// Law: searching by identifier, by name, or by name and version yields
/// exactly the plugins, in stored order, whose identifier, name, or name and
/// version equal the ones asked for; searching for all yields every plugin.
pub proof fn law_filters_select_exactly(s: Seq<PluginView>, id: u128, name: Seq<char>, version: Seq<char>)
    ensures
        select(s, FilterView::All) == s,
        select(s, FilterView::Id(id)) == s.filter(|p: PluginView| p.id == id),
        select(s, FilterView::Name(name)) == s.filter(|p: PluginView| p.name == name),
        select(s, FilterView::NameAndVersion(name, version)) == s.filter(
            |p: PluginView| p.name == name && p.version == version,
        ),
    decreases s.len(),
{
    reveal(Seq::filter);
    if s.len() > 0 {
        law_filters_select_exactly(s.drop_last(), id, name, version);
        assert(s.drop_last().push(s.last()) =~= s);
    }
}

/// Law: taking plugins out by identifier, by name, or by name and version
/// keeps exactly the plugins, in stored order, whose identifier, name, or
/// name and version differ from the ones given; taking out all keeps none.
pub proof fn law_filters_keep_exactly(s: Seq<PluginView>, id: u128, name: Seq<char>, version: Seq<char>)
    ensures
        reject(s, FilterView::All) == Seq::<PluginView>::empty(),
        reject(s, FilterView::Id(id)) == s.filter(|p: PluginView| p.id != id),
        reject(s, FilterView::Name(name)) == s.filter(|p: PluginView| p.name != name),
        reject(s, FilterView::NameAndVersion(name, version)) == s.filter(
            |p: PluginView| !(p.name == name && p.version == version),
        ),
    decreases s.len(),
{
    reveal(Seq::filter);
    if s.len() > 0 {
        law_filters_keep_exactly(s.drop_last(), id, name, version);
        assert(s.drop_last().push(s.last()) =~= s);
    }
}

} // verus!
