//! The registry behind the REST interface: plugin binaries kept in the blob
//! store, keyed by the identity that loading the binary reports.

use vstd::prelude::*;

use crate::blob_storage::{
    ids_named, ids_of, info_ids, spec_add, spec_add_accepted, spec_delete, spec_get, unique_ids,
    BlobError, InMemoryBlobStorage,
};
use crate::domain::{PluginBinary, PluginBinaryView, PluginId, PluginIdView, PluginInfo};

verus! {

/// Whether `s` ends with `suffix`.
pub open spec fn has_suffix(s: Seq<char>, suffix: Seq<char>) -> bool {
    suffix.len() <= s.len() && s.subrange(s.len() - suffix.len(), s.len() as int) == suffix
}

/// Whether `s` ends with `suffix`.
pub fn ends_with(s: &str, suffix: &str) -> (ends: bool)
    ensures
        ends == has_suffix(s@, suffix@),
{
    let n = s.unicode_len();
    let m = suffix.unicode_len();
    if m > n {
        return false;
    }
    let offset = n - m;
    let mut i: usize = 0;
    while i < m
        invariant
            n == s@.len(),
            m == suffix@.len(),
            offset == n - m,
            i <= m,
            forall|j: int| 0 <= j < i ==> s@[offset + j] == suffix@[j],
        decreases m - i,
    {
        if s.get_char(offset + i) != suffix.get_char(i) {
            assert(s@.subrange(offset as int, n as int)[i as int] != suffix@[i as int]);
            return false;
        }
        i = i + 1;
    }
    assert(s@.subrange(offset as int, n as int) =~= suffix@);
    true
}

/// Operating system that the registry runs on.
#[derive(Clone, Copy, Debug, PartialEq, Eq, Structural)]
pub enum TargetOs {
    Windows,
    Linux,
    Other,
}

/// Whether an uploaded library named `name` can be loaded on `target_os`: a
/// `.dll` on Windows, a `.so` on Linux, nothing elsewhere.
pub open spec fn lib_name_valid(target_os: TargetOs, name: Seq<char>) -> bool {
    (target_os == TargetOs::Windows && has_suffix(name, ".dll"@)) || (target_os == TargetOs::Linux
        && has_suffix(name, ".so"@))
}

/// Whether an uploaded library named `name` can be loaded on `target_os`.
pub fn is_lib_name_valid(target_os: TargetOs, name: &str) -> (valid: bool)
    ensures
        valid == lib_name_valid(target_os, name@),
{
    (target_os == TargetOs::Windows && ends_with(name, ".dll")) || (target_os == TargetOs::Linux
        && ends_with(name, ".so"))
}

/// Plugin binaries, keyed by the identity the loaded binary reports.
pub struct Registry {
    plugins_storage: InMemoryBlobStorage,
}

impl View for Registry {
    type V = Seq<PluginBinaryView>;

    closed spec fn view(&self) -> Seq<PluginBinaryView> {
        self.plugins_storage@
    }
}

impl Registry {
    /// A registry over `plugins_storage`.
    pub fn new(plugins_storage: InMemoryBlobStorage) -> (registry: Registry)
        ensures
            registry@ == plugins_storage@,
    {
        Registry { plugins_storage }
    }

    /// Information about every stored plugin.
    pub fn get_plugins_info(&self) -> (infos: Vec<PluginInfo>)
        ensures
            info_ids(infos@) == ids_of(self@),
    {
        self.plugins_storage.get_plugins_info()
    }

    /// Information about the stored plugins named `name`.
    pub fn get_plugins_info_by_name(&self, name: &str) -> (infos: Vec<PluginInfo>)
        ensures
            info_ids(infos@) == ids_named(self@, name@),
    {
        self.plugins_storage.get_plugins_info_by_name(name)
    }

    /// The information a query asks for: the plugins named `name` when a
    /// name is given, every plugin otherwise.
    pub fn get_plugins_info_for(&self, name: Option<&str>) -> (infos: Vec<PluginInfo>)
        ensures
            info_ids(infos@) == match name {
                Some(n) => ids_named(self@, n@),
                None => ids_of(self@),
            },
    {
        match name {
            Some(n) => self.get_plugins_info_by_name(n),
            None => self.get_plugins_info(),
        }
    }

    /// The stored binary of `id`, to be loaded before it is handed out.
    pub fn get_plugin_binary(&self, id: &PluginId) -> (binary: Option<Vec<u8>>)
        ensures
            match binary {
                Some(b) => spec_get(self@, id@) == Some(b@),
                None => spec_get(self@, id@) is None,
            },
    {
        self.plugins_storage.get_plugin_binary(id)
    }

    /// The binary handed out for a stored binary: under the identity that
    /// loading it reported, nothing when it did not load.
    pub fn loaded_plugin_binary(loaded_id: Option<PluginId>, binary: &[u8]) -> (plugin: Option<
        PluginBinary,
    >)
        ensures
            match loaded_id {
                Some(id) => plugin matches Some(p) && p.id@ == id@ && p.binary@ == binary@,
                None => plugin is None,
            },
    {
        match loaded_id {
            Some(id) => Some(PluginBinary::new(id, binary)),
            None => None,
        }
    }

    /// Stores `binary` under `loaded_id`, the identity that loading it
    /// reported; `force` overrides a binary already stored under it. On
    /// success the engine is to be told that the plugin changed.
    pub fn add_plugin(&mut self, loaded_id: PluginId, binary: &[u8], force: bool) -> (result:
        Result<PluginInfo, BlobError>)
        ensures
            ({
                let p = PluginBinaryView { id: loaded_id@, binary: binary@ };
                &&& final(self)@ == spec_add(old(self)@, p, force)
                &&& match result {
                    Ok(info) => spec_add_accepted(old(self)@, p, force) && info.id@ == loaded_id@,
                    Err(BlobError::AlreadyExists(id)) => !spec_add_accepted(old(self)@, p, force)
                        && id@ == loaded_id@,
                }
            }),
            unique_ids(old(self)@) ==> unique_ids(final(self)@),
    {
        let plugin = PluginBinary::new(loaded_id, binary);
        self.plugins_storage.add_plugin(plugin, force)
    }

    /// Deletes the binary stored under `id`.
    pub fn delete_plugin(&mut self, id: &PluginId)
        ensures
            final(self)@ == spec_delete(old(self)@, id@),
            unique_ids(old(self)@) ==> unique_ids(final(self)@),
    {
        self.plugins_storage.delete_plugin(id)
    }
}

/// A part of an upload: the library's file name, the identity that loading
/// its binary reported (nothing when it did not load), and the binary.
#[derive(Clone, Debug)]
pub struct UploadedPart {
    pub file_name: String,
    pub loaded_id: Option<PluginId>,
    pub binary: Vec<u8>,
}

/// The mathematical value of an [`UploadedPart`].
pub struct UploadedPartView {
    pub file_name: Seq<char>,
    pub loaded_id: Option<PluginIdView>,
    pub binary: Seq<u8>,
}

impl View for UploadedPart {
    type V = UploadedPartView;

    open spec fn view(&self) -> UploadedPartView {
        UploadedPartView {
            file_name: self.file_name@,
            loaded_id: match self.loaded_id {
                Some(id) => Some(id@),
                None => None,
            },
            binary: self.binary@,
        }
    }
}

/// Why an upload stopped; the parts before the failing one stay stored.
#[derive(Clone, Debug)]
pub enum UploadError {
    /// The library cannot be loaded on this operating system.
    InvalidLibName,
    /// The binary did not load as a plugin.
    LoadFailed,
    /// A binary with this identity is stored and overriding was not asked for.
    AlreadyExists(PluginId),
}

/// The mathematical value of an [`UploadError`].
pub enum UploadFailure {
    InvalidLibName,
    LoadFailed,
    AlreadyExists(PluginIdView),
}

impl View for UploadError {
    type V = UploadFailure;

    open spec fn view(&self) -> UploadFailure {
        match self {
            UploadError::InvalidLibName => UploadFailure::InvalidLibName,
            UploadError::LoadFailed => UploadFailure::LoadFailed,
            UploadError::AlreadyExists(id) => UploadFailure::AlreadyExists(id@),
        }
    }
}

/// The store and the outcome after uploading `parts` in order: each part
/// whose name loads on `target_os` and whose binary loaded is stored; the
/// first part that fails stops the upload with its failure, leaving the
/// parts before it stored. On success, the identities stored, in order.
pub open spec fn spec_upload(
    store: Seq<PluginBinaryView>,
    target_os: TargetOs,
    parts: Seq<UploadedPartView>,
    force: bool,
) -> (Seq<PluginBinaryView>, Result<Seq<PluginIdView>, UploadFailure>)
    decreases parts.len(),
{
    if parts.len() == 0 {
        (store, Ok(Seq::empty()))
    } else {
        let part = parts[0];
        if !lib_name_valid(target_os, part.file_name) {
            (store, Err(UploadFailure::InvalidLibName))
        } else {
            match part.loaded_id {
                None => (store, Err(UploadFailure::LoadFailed)),
                Some(id) => {
                    let p = PluginBinaryView { id, binary: part.binary };
                    if !spec_add_accepted(store, p, force) {
                        (spec_add(store, p, force), Err(UploadFailure::AlreadyExists(id)))
                    } else {
                        let rest = spec_upload(spec_add(store, p, force), target_os, parts.drop_first(), force);
                        (
                            rest.0,
                            match rest.1 {
                                Ok(ids) => Ok(seq![id] + ids),
                                Err(e) => Err(e),
                            },
                        )
                    }
                },
            }
        }
    }
}

/// The views of the parts of an upload.
pub open spec fn part_views(parts: Seq<UploadedPart>) -> Seq<UploadedPartView> {
    parts.map_values(|p: UploadedPart| p@)
}

/// The outcome of an upload, as a view.
pub open spec fn upload_view(result: Result<Vec<PluginInfo>, UploadError>) -> Result<
    Seq<PluginIdView>,
    UploadFailure,
> {
    match result {
        Ok(infos) => Ok(info_ids(infos@)),
        Err(e) => Err(e@),
    }
}

/// `ids` after the identities uploaded so far, as a continuation of an
/// upload outcome.
pub open spec fn after(done: Seq<PluginIdView>, rest: Result<Seq<PluginIdView>, UploadFailure>) -> Result<
    Seq<PluginIdView>,
    UploadFailure,
> {
    match rest {
        Ok(ids) => Ok(done + ids),
        Err(e) => Err(e),
    }
}

impl Registry {
    /// Stores the parts of an upload in order, `force` overriding binaries
    /// already stored; the first part that fails stops the upload. Returns
    /// the information of the stored plugins.
    pub fn create_plugins(&mut self, target_os: TargetOs, parts: &Vec<UploadedPart>, force: bool) -> (result: Result<
        Vec<PluginInfo>,
        UploadError,
    >)
        ensures
            (final(self)@, upload_view(result)) == spec_upload(
                old(self)@,
                target_os,
                part_views(parts@),
                force,
            ),
            unique_ids(old(self)@) ==> unique_ids(final(self)@),
    {
        let ghost all = part_views(parts@);
        let mut infos: Vec<PluginInfo> = Vec::new();
        let mut i: usize = 0;
        proof {
            assert(all.skip(0) =~= all);
            assert(info_ids(infos@) =~= Seq::<PluginIdView>::empty());
            match spec_upload(old(self)@, target_os, all, force).1 {
                Ok(ids) => {
                    assert(Seq::<PluginIdView>::empty() + ids =~= ids);
                },
                Err(e) => {},
            }
        }
        while i < parts.len()
            invariant
                i <= parts.len(),
                all == part_views(parts@),
                unique_ids(old(self)@) ==> unique_ids(self@),
                ({
                    let r = spec_upload(self@, target_os, all.skip(i as int), force);
                    spec_upload(old(self)@, target_os, all, force) == (r.0, after(info_ids(infos@), r.1))
                }),
            decreases parts.len() - i,
        {
            let ghost before = self@;
            let ghost done = info_ids(infos@);
            assert(all.skip(i as int)[0] == parts@[i as int]@);
            assert(all.skip(i as int).drop_first() =~= all.skip(i as int + 1));
            let part = &parts[i];
            if !is_lib_name_valid(target_os, part.file_name.as_str()) {
                return Err(UploadError::InvalidLibName);
            }
            match &part.loaded_id {
                None => {
                    return Err(UploadError::LoadFailed);
                },
                Some(id) => {
                    match self.add_plugin(id.duplicate(), part.binary.as_slice(), force) {
                        Ok(info) => {
                            infos.push(info);
                            assert(info_ids(infos@) =~= done + seq![id@]);
                            proof {
                                let r = spec_upload(self@, target_os, all.skip(i as int + 1), force);
                                match r.1 {
                                    Ok(ids) => {
                                        assert(done + seq![id@] + ids =~= done + (seq![id@] + ids));
                                    },
                                    Err(e) => {},
                                }
                            }
                        },
                        Err(BlobError::AlreadyExists(existing)) => {
                            return Err(UploadError::AlreadyExists(existing));
                        },
                    }
                },
            }
            i = i + 1;
        }
        assert(all.skip(parts.len() as int) =~= Seq::<UploadedPartView>::empty());
        assert(info_ids(infos@) + Seq::<PluginIdView>::empty() =~= info_ids(infos@));
        Ok(infos)
    }
}

} // verus!
