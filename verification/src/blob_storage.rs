//! The registry's in-memory plugin binary store: one binary per plugin
//! identity, kept in the order the identities were first stored.

use vstd::prelude::*;

use crate::domain::{PluginBinary, PluginBinaryView, PluginId, PluginIdView, PluginInfo};

verus! {

/// Why the store refused a binary.
#[derive(Clone, Debug)]
pub enum BlobError {
    /// A binary with this identity is stored and overriding was not asked for.
    AlreadyExists(PluginId),
}

/// The decimal digit of `d`, below ten.
pub open spec fn digit_char(d: int) -> char {
    ('0' as int + d) as char
}

/// The decimal digits of a natural number, without leading zeros.
pub open spec fn nat_decimal(n: nat) -> Seq<char>
    decreases n,
{
    if n < 10 {
        seq![digit_char(n as int)]
    } else {
        nat_decimal(n / 10) + seq![digit_char((n % 10) as int)]
    }
}

/// The decimal text of an integer, with a minus sign when it is negative.
pub open spec fn int_decimal(v: int) -> Seq<char> {
    if v < 0 {
        "-"@ + nat_decimal((-v) as nat)
    } else {
        nat_decimal(v as nat)
    }
}

/// How a character is written inside a quoted string in debug text: tab,
/// carriage return, line feed, backslash, double quote and nul are escaped
/// with a backslash.
pub open spec fn escaped_char(c: char) -> Seq<char> {
    if c == '\t' {
        seq!['\\', 't']
    } else if c == '\r' {
        seq!['\\', 'r']
    } else if c == '\n' {
        seq!['\\', 'n']
    } else if c == '\\' {
        seq!['\\', '\\']
    } else if c == '"' {
        seq!['\\', '"']
    } else if c == '\0' {
        seq!['\\', '0']
    } else {
        seq![c]
    }
}

/// The characters of `s`, each written as in debug text.
pub open spec fn escaped(s: Seq<char>) -> Seq<char>
    decreases s.len(),
{
    if s.len() == 0 {
        Seq::empty()
    } else {
        escaped(s.drop_last()) + escaped_char(s.last())
    }
}

/// The debug text of a plugin identity.
pub open spec fn id_debug_text(id: PluginIdView) -> Seq<char> {
    "PluginId { name: \""@ + escaped(id.name) + "\", version: "@ + int_decimal(id.version as int) + " }"@
}

/// The message of a refused binary.
pub open spec fn already_exists_message(id: PluginIdView) -> Seq<char> {
    "Plugin with id: '"@ + id_debug_text(id)
        + "' already exists in registry. Please use flag 'force=true' to override existing binary"@
}

/// The decimal digit of `d`.
fn digit_text(d: u64) -> (text: &'static str)
    requires
        d < 10,
    ensures
        text@ == seq![digit_char(d as int)],
{
    proof {
        reveal_strlit("0");
        reveal_strlit("1");
        reveal_strlit("2");
        reveal_strlit("3");
        reveal_strlit("4");
        reveal_strlit("5");
        reveal_strlit("6");
        reveal_strlit("7");
        reveal_strlit("8");
        reveal_strlit("9");
    }
    let text = if d == 0 {
        "0"
    } else if d == 1 {
        "1"
    } else if d == 2 {
        "2"
    } else if d == 3 {
        "3"
    } else if d == 4 {
        "4"
    } else if d == 5 {
        "5"
    } else if d == 6 {
        "6"
    } else if d == 7 {
        "7"
    } else if d == 8 {
        "8"
    } else {
        "9"
    };
    assert(text@ =~= seq![digit_char(d as int)]);
    text
}

/// Appends the decimal digits of `n`.
fn append_decimal(text: &mut String, n: u64)
    ensures
        final(text)@ == old(text)@ + nat_decimal(n as nat),
    decreases n,
{
    if n < 10 {
        text.append(digit_text(n));
    } else {
        append_decimal(text, n / 10);
        text.append(digit_text(n % 10));
        assert(text@ =~= old(text)@ + nat_decimal(n as nat));
    }
}

/// Appends the decimal text of `v`.
fn append_int(text: &mut String, v: i64)
    ensures
        final(text)@ == old(text)@ + int_decimal(v as int),
{
    if v < 0 {
        text.append("-");
        let magnitude: u64 = (-(v as i128)) as u64;
        append_decimal(text, magnitude);
        assert(text@ =~= old(text)@ + int_decimal(v as int));
    } else {
        append_decimal(text, v as u64);
    }
}

/// Appends the characters of `s`, each written as in debug text.
fn append_escaped(text: &mut String, s: &str)
    ensures
        final(text)@ == old(text)@ + escaped(s@),
{
    let n = s.unicode_len();
    let mut i: usize = 0;
    proof {
        assert(s@.take(0) =~= Seq::<char>::empty());
        assert(text@ + escaped(s@.take(0)) =~= text@);
    }
    while i < n
        invariant
            i <= n,
            n == s@.len(),
            text@ == old(text)@ + escaped(s@.take(i as int)),
        decreases n - i,
    {
        let c = s.get_char(i);
        let ghost before = text@;
        if c == '\t' {
            text.append("\\t");
        } else if c == '\r' {
            text.append("\\r");
        } else if c == '\n' {
            text.append("\\n");
        } else if c == '\\' {
            text.append("\\\\");
        } else if c == '"' {
            text.append("\\\"");
        } else if c == '\0' {
            text.append("\\0");
        } else {
            let piece = s.substring_char(i, i + 1);
            text.append(piece);
        }
        proof {
            reveal_strlit("\\t");
            reveal_strlit("\\r");
            reveal_strlit("\\n");
            reveal_strlit("\\\\");
            reveal_strlit("\\\"");
            reveal_strlit("\\0");
            assert(s@.take(i + 1).drop_last() =~= s@.take(i as int));
            assert(s@.take(i + 1).last() == c);
            assert(text@ =~= before + escaped_char(c));
            assert(text@ =~= old(text)@ + escaped(s@.take(i + 1)));
        }
        i = i + 1;
    }
    assert(s@.take(n as int) =~= s@);
}

impl BlobError {
    /// The message of the error: that the identity is already stored, and
    /// that `force=true` overrides it.
    pub fn message(&self) -> (text: String)
        ensures
            match self {
                BlobError::AlreadyExists(id) => text@ == already_exists_message(id@),
            },
    {
        match self {
            BlobError::AlreadyExists(id) => {
                let mut text = String::from_str("Plugin with id: 'PluginId { name: \"");
                append_escaped(&mut text, id.name.as_str());
                text.append("\", version: ");
                append_int(&mut text, id.version);
                text.append(" }' already exists in registry. Please use flag 'force=true' to override existing binary");
                proof {
                    reveal_strlit("Plugin with id: 'PluginId { name: \"");
                    reveal_strlit("Plugin with id: '");
                    reveal_strlit("PluginId { name: \"");
                    reveal_strlit("\", version: ");
                    reveal_strlit(" }' already exists in registry. Please use flag 'force=true' to override existing binary");
                    reveal_strlit(" }");
                    reveal_strlit("' already exists in registry. Please use flag 'force=true' to override existing binary");
                    assert(text@ =~= already_exists_message(id@));
                }
                text
            },
        }
    }
}

/// The position of the first entry of `s` with identity `id`, or -1.
pub open spec fn index_of(s: Seq<PluginBinaryView>, id: PluginIdView) -> int
    decreases s.len(),
{
    if s.len() == 0 {
        -1
    } else if s[0].id == id {
        0
    } else {
        let rest = index_of(s.drop_first(), id);
        if rest < 0 {
            -1
        } else {
            rest + 1
        }
    }
}

/// The binary stored under `id`, if any.
pub open spec fn spec_get(s: Seq<PluginBinaryView>, id: PluginIdView) -> Option<Seq<u8>> {
    let k = index_of(s, id);
    if k < 0 {
        None
    } else {
        Some(s[k].binary)
    }
}

/// Whether storing `p` is accepted: its identity is new, or overriding is asked for.
pub open spec fn spec_add_accepted(s: Seq<PluginBinaryView>, p: PluginBinaryView, force: bool) -> bool {
    index_of(s, p.id) < 0 || force
}

/// The store after storing `p`: a new identity is appended; a known one
/// takes the new binary in place when overriding is asked for, and the
/// store is unchanged otherwise.
pub open spec fn spec_add(s: Seq<PluginBinaryView>, p: PluginBinaryView, force: bool) -> Seq<
    PluginBinaryView,
> {
    let k = index_of(s, p.id);
    if k < 0 {
        s.push(p)
    } else if force {
        s.update(k, PluginBinaryView { id: s[k].id, binary: p.binary })
    } else {
        s
    }
}

/// The store without the entries whose identity is `id`.
pub open spec fn spec_delete(s: Seq<PluginBinaryView>, id: PluginIdView) -> Seq<PluginBinaryView>
    decreases s.len(),
{
    if s.len() == 0 {
        Seq::empty()
    } else if s.last().id == id {
        spec_delete(s.drop_last(), id)
    } else {
        spec_delete(s.drop_last(), id).push(s.last())
    }
}

/// The identities of the entries of `s` whose plugin is named `name`, in store order.
pub open spec fn ids_named(s: Seq<PluginBinaryView>, name: Seq<char>) -> Seq<PluginIdView>
    decreases s.len(),
{
    if s.len() == 0 {
        Seq::empty()
    } else if s.last().id.name == name {
        ids_named(s.drop_last(), name).push(s.last().id)
    } else {
        ids_named(s.drop_last(), name)
    }
}

/// No identity occurs twice in `s`.
pub open spec fn unique_ids(s: Seq<PluginBinaryView>) -> bool {
    forall|i: int, j: int|
        0 <= i < s.len() && 0 <= j < s.len() && i != j ==> #[trigger] s[i].id != #[trigger] s[j].id
}

/// `index_of` is -1 exactly when `id` is absent, and otherwise the first
/// position that holds `id`.
pub proof fn lemma_index_of(s: Seq<PluginBinaryView>, id: PluginIdView)
    ensures
        -1 <= index_of(s, id) < s.len(),
        index_of(s, id) < 0 <==> forall|i: int| 0 <= i < s.len() ==> s[i].id != id,
        index_of(s, id) >= 0 ==> s[index_of(s, id)].id == id && forall|j: int|
            0 <= j < index_of(s, id) ==> s[j].id != id,
    decreases s.len(),
{
    if s.len() > 0 && s[0].id != id {
        let t = s.drop_first();
        lemma_index_of(t, id);
        assert forall|i: int| 0 < i < s.len() implies s[i] == t[i - 1] by {}
        if index_of(t, id) < 0 {
            assert forall|i: int| 0 <= i < s.len() implies s[i].id != id by {
                if i > 0 {
                    assert(s[i] == t[i - 1]);
                }
            }
        }
    }
}

/// Information about every stored plugin.
pub open spec fn ids_of(s: Seq<PluginBinaryView>) -> Seq<PluginIdView> {
    s.map_values(|b: PluginBinaryView| b.id)
}

/// The identities of a sequence of plugin informations.
pub open spec fn info_ids(s: Seq<PluginInfo>) -> Seq<PluginIdView> {
    s.map_values(|i: PluginInfo| i.id@)
}

/// Keeps plugin binaries in memory, one per identity.
#[derive(Default)]
pub struct InMemoryBlobStorage {
    plugins: Vec<PluginBinary>,
}

impl View for InMemoryBlobStorage {
    type V = Seq<PluginBinaryView>;

    closed spec fn view(&self) -> Seq<PluginBinaryView> {
        self.plugins@.map_values(|p: PluginBinary| p@)
    }
}

impl InMemoryBlobStorage {
    /// An empty store.
    pub fn new() -> (storage: InMemoryBlobStorage)
        ensures
            storage@ == Seq::<PluginBinaryView>::empty(),
            unique_ids(storage@),
    {
        let storage = InMemoryBlobStorage { plugins: Vec::new() };
        assert(storage@ =~= Seq::<PluginBinaryView>::empty());
        storage
    }

    /// The position of the first entry with identity `id`.
    fn position(&self, id: &PluginId) -> (position: Option<usize>)
        ensures
            self@.len() == self.plugins@.len(),
            match position {
                Some(k) => k as int == index_of(self@, id@),
                None => index_of(self@, id@) < 0,
            },
    {
        proof {
            lemma_index_of(self@, id@);
        }
        let mut i: usize = 0;
        while i < self.plugins.len()
            invariant
                i <= self.plugins.len(),
                forall|j: int| 0 <= j < i ==> self@[j].id != id@,
                -1 <= index_of(self@, id@) < self@.len(),
                index_of(self@, id@) < 0 <==> forall|j: int| 0 <= j < self@.len() ==> self@[j].id != id@,
                index_of(self@, id@) >= 0 ==> self@[index_of(self@, id@)].id == id@ && forall|j: int|
                    0 <= j < index_of(self@, id@) ==> self@[j].id != id@,
            decreases self.plugins.len() - i,
        {
            if self.plugins[i].id.same_as(id) {
                assert(self@[i as int].id == id@);
                return Some(i);
            }
            i = i + 1;
        }
        None
    }

    /// Information about every stored plugin, in store order.
    pub fn get_plugins_info(&self) -> (infos: Vec<PluginInfo>)
        ensures
            info_ids(infos@) == ids_of(self@),
    {
        let mut infos: Vec<PluginInfo> = Vec::new();
        let mut i: usize = 0;
        while i < self.plugins.len()
            invariant
                i <= self.plugins.len(),
                self@.len() == self.plugins@.len(),
                infos@.len() == i,
                info_ids(infos@) == ids_of(self@).take(i as int),
            decreases self.plugins.len() - i,
        {
            infos.push(PluginInfo::from_binary(&self.plugins[i]));
            assert(self@[i as int] == self.plugins@[i as int]@);
            assert(info_ids(infos@) =~= ids_of(self@).take(i + 1));
            i = i + 1;
        }
        assert(ids_of(self@).take(self.plugins.len() as int) =~= ids_of(self@));
        infos
    }

    /// Information about the stored plugins named `name`, in store order.
    pub fn get_plugins_info_by_name(&self, name: &str) -> (infos: Vec<PluginInfo>)
        ensures
            info_ids(infos@) == ids_named(self@, name@),
    {
        let ghost all = self@;
        let mut infos: Vec<PluginInfo> = Vec::new();
        let mut i: usize = 0;
        let wanted = name.to_owned();
        while i < self.plugins.len()
            invariant
                i <= self.plugins.len(),
                all == self@,
                wanted@ == name@,
                info_ids(infos@) == ids_named(all.take(i as int), name@),
            decreases self.plugins.len() - i,
        {
            assert(all.take(i + 1).drop_last() =~= all.take(i as int));
            if self.plugins[i].id.name == wanted {
                infos.push(PluginInfo::from_binary(&self.plugins[i]));
            }
            assert(info_ids(infos@) =~= ids_named(all.take(i + 1), name@));
            i = i + 1;
        }
        assert(all.take(self.plugins.len() as int) =~= all);
        infos
    }

    /// The binary stored under `id`, if any.
    pub fn get_plugin_binary(&self, id: &PluginId) -> (binary: Option<Vec<u8>>)
        ensures
            match binary {
                Some(b) => spec_get(self@, id@) == Some(b@),
                None => spec_get(self@, id@) is None,
            },
    {
        proof {
            lemma_index_of(self@, id@);
        }
        match self.position(id) {
            Some(k) => Some(vstd::slice::slice_to_vec(self.plugins[k].binary.as_slice())),
            None => None,
        }
    }

    /// Stores `plugin`. A new identity is appended. A stored identity takes
    /// the new binary in place when `force` is set; without `force` the
    /// store is left unchanged and the identity is reported as taken.
    pub fn add_plugin(&mut self, plugin: PluginBinary, force: bool) -> (result: Result<
        PluginInfo,
        BlobError,
    >)
        ensures
            final(self)@ == spec_add(old(self)@, plugin@, force),
            match result {
                Ok(info) => spec_add_accepted(old(self)@, plugin@, force) && info.id@ == plugin.id@,
                Err(BlobError::AlreadyExists(id)) => !spec_add_accepted(old(self)@, plugin@, force)
                    && id@ == plugin.id@,
            },
            unique_ids(old(self)@) ==> unique_ids(final(self)@),
    {
        proof {
            lemma_index_of(self@, plugin.id@);
        }
        match self.position(&plugin.id) {
            Some(k) => {
                if force {
                    let id = self.plugins[k].id.duplicate();
                    let info = PluginInfo { id: id.duplicate() };
                    self.plugins.set(k, PluginBinary { id, binary: plugin.binary });
                    assert(self@ =~= spec_add(old(self)@, plugin@, force));
                    Ok(info)
                } else {
                    Err(BlobError::AlreadyExists(plugin.id))
                }
            },
            None => {
                let info = PluginInfo::from_binary(&plugin);
                self.plugins.push(plugin);
                assert(self@ =~= spec_add(old(self)@, plugin@, force));
                Ok(info)
            },
        }
    }

    /// Removes every binary stored under `id`.
    pub fn delete_plugin(&mut self, id: &PluginId)
        ensures
            final(self)@ == spec_delete(old(self)@, id@),
            unique_ids(old(self)@) ==> unique_ids(final(self)@),
    {
        let ghost all = self@;
        let mut kept: Vec<PluginBinary> = Vec::new();
        let mut i: usize = 0;
        while i < self.plugins.len()
            invariant
                i <= self.plugins.len(),
                all == self@,
                kept@.map_values(|p: PluginBinary| p@) == spec_delete(all.take(i as int), id@),
            decreases self.plugins.len() - i,
        {
            assert(all.take(i + 1).drop_last() =~= all.take(i as int));
            if !self.plugins[i].id.same_as(id) {
                let entry = PluginBinary {
                    id: self.plugins[i].id.duplicate(),
                    binary: vstd::slice::slice_to_vec(self.plugins[i].binary.as_slice()),
                };
                kept.push(entry);
            }
            assert(kept@.map_values(|p: PluginBinary| p@) =~= spec_delete(
                all.take(i + 1),
                id@,
            ));
            i = i + 1;
        }
        assert(all.take(self.plugins.len() as int) =~= all);
        self.plugins = kept;
        proof {
            if unique_ids(all) {
                lemma_delete_keeps_unique(all, id@);
            }
        }
    }
}

/// Every entry left by a deletion was an entry before and does not carry
/// the deleted identity.
pub proof fn lemma_delete_members(s: Seq<PluginBinaryView>, id: PluginIdView)
    ensures
        forall|i: int|
            0 <= i < spec_delete(s, id).len() ==> s.contains(#[trigger] spec_delete(s, id)[i])
                && spec_delete(s, id)[i].id != id,
    decreases s.len(),
{
    if s.len() > 0 {
        let t = s.drop_last();
        lemma_delete_members(t, id);
        assert forall|i: int| 0 <= i < spec_delete(s, id).len() implies s.contains(
            #[trigger] spec_delete(s, id)[i],
        ) && spec_delete(s, id)[i].id != id by {
            if i < spec_delete(t, id).len() {
                let j = choose|j: int| 0 <= j < t.len() && t[j] == spec_delete(t, id)[i];
                assert(s[j] == spec_delete(s, id)[i]);
            } else {
                assert(s[s.len() - 1] == spec_delete(s, id)[i]);
            }
        }
    }
}

/// Deleting keeps identities unique.
pub proof fn lemma_delete_keeps_unique(s: Seq<PluginBinaryView>, id: PluginIdView)
    requires
        unique_ids(s),
    ensures
        unique_ids(spec_delete(s, id)),
    decreases s.len(),
{
    if s.len() > 0 {
        let t = s.drop_last();
        assert(unique_ids(t)) by {
            assert forall|i: int, j: int|
                0 <= i < t.len() && 0 <= j < t.len() && i != j implies #[trigger] t[i].id
                != #[trigger] t[j].id by {
                assert(t[i] == s[i] && t[j] == s[j]);
            }
        }
        lemma_delete_keeps_unique(t, id);
        if s.last().id != id {
            let r = spec_delete(t, id);
            lemma_delete_members(t, id);
            let u = r.push(s.last());
            assert forall|i: int, j: int|
                0 <= i < u.len() && 0 <= j < u.len() && i != j implies #[trigger] u[i].id
                != #[trigger] u[j].id by {
                if i < r.len() && j < r.len() {
                    assert(u[i] == r[i] && u[j] == r[j]);
                } else if i < r.len() {
                    let k = choose|k: int| 0 <= k < t.len() && t[k] == r[i];
                    assert(s[k] == u[i]);
                } else if j < r.len() {
                    let k = choose|k: int| 0 <= k < t.len() && t[k] == r[j];
                    assert(s[k] == u[j]);
                }
            }
        }
    }
}


/// Every entry of `s` without identity `id` survives the deletion of `id`.
pub proof fn lemma_delete_keeps_others(s: Seq<PluginBinaryView>, id: PluginIdView)
    ensures
        forall|i: int| 0 <= i < s.len() && s[i].id != id ==> spec_delete(s, id).contains(#[trigger] s[i]),
    decreases s.len(),
{
    if s.len() > 0 {
        let t = s.drop_last();
        lemma_delete_keeps_others(t, id);
        assert forall|i: int| 0 <= i < s.len() && s[i].id != id implies spec_delete(s, id).contains(
            #[trigger] s[i],
        ) by {
            if i < t.len() {
                assert(s[i] == t[i]);
                let j = choose|j: int| 0 <= j < spec_delete(t, id).len() && spec_delete(t, id)[j] == t[i];
                if s.last().id != id {
                    assert(spec_delete(s, id)[j] == s[i]);
                }
            } else {
                assert(spec_delete(s, id)[spec_delete(s, id).len() - 1] == s[i]);
            }
        }
    }
}

/// With unique identities, the binary stored under `id` is the binary of
/// the one entry that carries `id`.
pub proof fn lemma_get_unique(s: Seq<PluginBinaryView>, id: PluginIdView, k: int)
    requires
        unique_ids(s),
        0 <= k < s.len(),
        s[k].id == id,
    ensures
        spec_get(s, id) == Some(s[k].binary),
{
    lemma_index_of(s, id);
    let m = index_of(s, id);
    if m != k {
        assert(s[m].id == s[k].id);
    }
}

/// Law: a binary that the store accepted is what a read of its identity
/// gives back.
pub proof fn law_get_after_add(s: Seq<PluginBinaryView>, p: PluginBinaryView, force: bool)
    requires
        spec_add_accepted(s, p, force),
    ensures
        spec_get(spec_add(s, p, force), p.id) == Some(p.binary),
{
    lemma_index_of(s, p.id);
    let t = spec_add(s, p, force);
    let k = index_of(s, p.id);
    lemma_index_of(t, p.id);
    if k < 0 {
        assert(t[s.len() as int].id == p.id);
        assert forall|j: int| 0 <= j < s.len() implies t[j].id != p.id by {
            assert(t[j] == s[j]);
        }
    } else {
        assert forall|j: int| 0 <= j < k implies t[j].id != p.id by {
            assert(t[j] == s[j]);
        }
        assert(t[k].id == p.id);
    }
}

/// Law: a refused binary leaves the store as it was.
pub proof fn law_refused_add_keeps_store(s: Seq<PluginBinaryView>, p: PluginBinaryView)
    requires
        !spec_add_accepted(s, p, false),
    ensures
        spec_add(s, p, false) == s,
{
}

/// Law: storing a binary under a new identity, or overriding a stored one,
/// keeps every identity stored once.
pub proof fn law_add_keeps_ids_unique(s: Seq<PluginBinaryView>, p: PluginBinaryView, force: bool)
    requires
        unique_ids(s),
    ensures
        unique_ids(spec_add(s, p, force)),
{
    lemma_index_of(s, p.id);
    let t = spec_add(s, p, force);
    if index_of(s, p.id) < 0 {
        assert forall|i: int, j: int|
            0 <= i < t.len() && 0 <= j < t.len() && i != j implies #[trigger] t[i].id
            != #[trigger] t[j].id by {
            if i < s.len() && j < s.len() {
                assert(t[i] == s[i] && t[j] == s[j]);
            } else if i < s.len() {
                assert(t[i] == s[i]);
            } else {
                assert(t[j] == s[j]);
            }
        }
    } else {
        let k = index_of(s, p.id);
        assert forall|i: int, j: int|
            0 <= i < t.len() && 0 <= j < t.len() && i != j implies #[trigger] t[i].id
            != #[trigger] t[j].id by {
            assert(t[i].id == s[i].id && t[j].id == s[j].id);
        }
    }
}

/// Law: once an identity is deleted, reading it gives nothing back.
pub proof fn law_get_after_delete(s: Seq<PluginBinaryView>, id: PluginIdView)
    ensures
        spec_get(spec_delete(s, id), id) is None,
{
    let t = spec_delete(s, id);
    lemma_delete_members(s, id);
    lemma_index_of(t, id);
    if index_of(t, id) >= 0 {
        let k = index_of(t, id);
        assert(t[k].id != id);
    }
}

/// Law: deleting one identity leaves what is stored under every other
/// identity as it was.
pub proof fn law_delete_keeps_other_binaries(
    s: Seq<PluginBinaryView>,
    id: PluginIdView,
    other: PluginIdView,
)
    requires
        unique_ids(s),
        other != id,
    ensures
        spec_get(spec_delete(s, id), other) == spec_get(s, other),
{
    let t = spec_delete(s, id);
    lemma_delete_keeps_unique(s, id);
    lemma_delete_members(s, id);
    lemma_delete_keeps_others(s, id);
    lemma_index_of(s, other);
    lemma_index_of(t, other);
    if index_of(s, other) >= 0 {
        let k = index_of(s, other);
        assert(t.contains(s[k]));
        let m = choose|m: int| 0 <= m < t.len() && t[m] == s[k];
        lemma_get_unique(s, other, k);
        lemma_get_unique(t, other, m);
    } else if index_of(t, other) >= 0 {
        let m = index_of(t, other);
        assert(s.contains(t[m]));
    }
}

} // verus!
