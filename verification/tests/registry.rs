use nucane::blob_storage::{BlobError, InMemoryBlobStorage};
use nucane::domain::{PluginBinary, PluginId};
use nucane::registry::{add_plugin, delete_if, find, PluginFilter, Registry};
use nucane::registry_api::{is_lib_name_valid, TargetOs, UploadError, UploadedPart};
use nucane::registry_dto::AddPluginQuery;
use nucane::registry_dto::PluginInfo as PluginInfoDto;
use nucane::registry_model::{Plugin, PluginEventType};
use nucane::registry_service::RegistryService;

fn names(plugins: &[Plugin]) -> Vec<(String, String)> {
    plugins.iter().map(|p| (p.name.clone(), p.version.clone())).collect()
}

#[test]
fn plugin_new_draws_a_version_4_uuid() {
    let a = Plugin::new("alpha", "1", &[1, 2]);
    let b = Plugin::new("alpha", "1", &[1, 2]);
    assert_eq!((a.id >> 76) & 0xf, 4);
    assert_eq!((a.id >> 62) & 0x3, 2);
    assert_ne!(a.id, b.id);
    assert_eq!(a.name, "alpha");
    assert_eq!(a.binary, vec![1, 2]);
}

#[test]
fn plugin_event_carries_the_plugin_identity() {
    let p = Plugin::new("alpha", "3", &[]);
    let event = p.as_event(PluginEventType::Deleted);
    assert_eq!(event.id, p.id);
    assert_eq!(event.strategy_name, "alpha");
    assert_eq!(event.strategy_version, "3");
    assert_eq!(event.event, PluginEventType::Deleted);
}

#[test]
fn registry_find_selects_by_filter_in_order() {
    let mut registry = Registry::new();
    add_plugin(&mut registry, Plugin::new("a", "1", &[]));
    add_plugin(&mut registry, Plugin::new("b", "1", &[]));
    add_plugin(&mut registry, Plugin::new("a", "2", &[]));
    let by_name = find(&registry, &PluginFilter::Name("a".to_string()));
    assert_eq!(names(&by_name), vec![("a".into(), "1".into()), ("a".into(), "2".into())]);
    let exact = find(
        &registry,
        &PluginFilter::NameAndVersion("a".to_string(), "2".to_string()),
    );
    assert_eq!(names(&exact), vec![("a".into(), "2".into())]);
    assert_eq!(find(&registry, &PluginFilter::All).len(), 3);
    let id = registry.get_plugins()[1].id;
    assert_eq!(names(&find(&registry, &PluginFilter::Id(id))), vec![("b".into(), "1".into())]);
}

#[test]
fn registry_delete_if_splits_the_plugins() {
    let mut registry = Registry::default();
    add_plugin(&mut registry, Plugin::new("a", "1", &[]));
    add_plugin(&mut registry, Plugin::new("b", "1", &[]));
    add_plugin(&mut registry, Plugin::new("a", "2", &[]));
    let removed = delete_if(&mut registry, &PluginFilter::Name("a".to_string()));
    assert_eq!(names(&removed), vec![("a".into(), "1".into()), ("a".into(), "2".into())]);
    assert_eq!(names(registry.get_plugins()), vec![("b".into(), "1".into())]);
    assert!(find(&registry, &PluginFilter::Name("a".to_string())).is_empty());
}

#[test]
fn service_add_then_lookup() {
    let mut service = RegistryService::new();
    let added = service.add_plugin("alpha", "1", &[7]);
    let found = service.get_plugin_by_name_and_version("alpha", "1").unwrap();
    assert_eq!(found.id, added.id);
    assert_eq!(found.binary, vec![7]);
    assert_eq!(service.get_plugin_by_id(added.id).unwrap().name, "alpha");
    assert!(service.get_plugin_by_name_and_version("alpha", "2").is_none());
}

#[test]
fn service_readding_keeps_the_id_and_moves_to_the_end() {
    let mut service = RegistryService::default();
    let first = service.add_plugin("alpha", "1", &[1]);
    service.add_plugin("beta", "1", &[2]);
    let again = service.add_plugin("alpha", "1", &[3]);
    assert_eq!(again.id, first.id);
    let all = service.get_plugins();
    assert_eq!(names(&all), vec![("beta".into(), "1".into()), ("alpha".into(), "1".into())]);
    assert_eq!(all[1].binary, vec![3]);
}

#[test]
fn service_removals() {
    let mut service = RegistryService::new();
    let a1 = service.add_plugin("alpha", "1", &[]);
    service.add_plugin("alpha", "2", &[]);
    service.add_plugin("beta", "1", &[]);
    assert_eq!(service.remove_plugin_by_id(a1.id).unwrap().version, "1");
    assert!(service.remove_plugin_by_id(a1.id).is_none());
    assert_eq!(service.remove_plugins_by_name("alpha").len(), 1);
    assert!(service.get_plugins_by_name("alpha").is_empty());
    assert_eq!(service.remove_plugin_by_name_and_version("beta", "1").unwrap().name, "beta");
    assert!(service.get_plugins().is_empty());
}

fn binary(name: &str, version: i64, bytes: &[u8]) -> PluginBinary {
    PluginBinary::new(PluginId::new(name, version), bytes)
}

#[test]
fn blob_storage_add_get_and_refuse() {
    let mut storage = InMemoryBlobStorage::new();
    let info = storage.add_plugin(binary("alpha", 1, &[1]), false).unwrap();
    assert_eq!(info.id.name, "alpha");
    assert_eq!(storage.get_plugin_binary(&PluginId::new("alpha", 1)), Some(vec![1]));
    match storage.add_plugin(binary("alpha", 1, &[2]), false) {
        Err(BlobError::AlreadyExists(id)) => {
            assert_eq!(id.name, "alpha");
            assert_eq!(id.version, 1);
        }
        Ok(_) => panic!("a stored identity was accepted without force"),
    }
    assert_eq!(storage.get_plugin_binary(&PluginId::new("alpha", 1)), Some(vec![1]));
    storage.add_plugin(binary("alpha", 1, &[3]), true).unwrap();
    assert_eq!(storage.get_plugin_binary(&PluginId::new("alpha", 1)), Some(vec![3]));
    assert_eq!(storage.get_plugins_info().len(), 1);
}

#[test]
fn blob_storage_lists_and_deletes() {
    let mut storage = InMemoryBlobStorage::default();
    storage.add_plugin(binary("alpha", 1, &[1]), false).unwrap();
    storage.add_plugin(binary("beta", 1, &[2]), false).unwrap();
    storage.add_plugin(binary("alpha", 2, &[3]), false).unwrap();
    let alphas: Vec<i64> = storage
        .get_plugins_info_by_name("alpha")
        .iter()
        .map(|info| info.id.version)
        .collect();
    assert_eq!(alphas, vec![1, 2]);
    storage.delete_plugin(&PluginId::new("alpha", 1));
    assert_eq!(storage.get_plugin_binary(&PluginId::new("alpha", 1)), None);
    assert_eq!(storage.get_plugin_binary(&PluginId::new("alpha", 2)), Some(vec![3]));
    assert_eq!(storage.get_plugins_info().len(), 2);
}

#[test]
fn lib_names_by_platform() {
    assert!(is_lib_name_valid(TargetOs::Linux, "libplugin.so"));
    assert!(!is_lib_name_valid(TargetOs::Linux, "plugin.dll"));
    assert!(is_lib_name_valid(TargetOs::Windows, "plugin.dll"));
    assert!(!is_lib_name_valid(TargetOs::Windows, "libplugin.so"));
    assert!(!is_lib_name_valid(TargetOs::Other, "libplugin.so"));
    assert!(!is_lib_name_valid(TargetOs::Linux, "so"));
}

#[test]
fn rest_registry_stores_under_the_loaded_identity() {
    let mut registry = nucane::registry_api::Registry::new(InMemoryBlobStorage::new());
    let info = registry.add_plugin(PluginId::new("alpha", 4), &[9, 9], false).unwrap();
    assert_eq!(info.id.version, 4);
    assert!(registry.add_plugin(PluginId::new("alpha", 4), &[1], false).is_err());
    assert_eq!(registry.get_plugin_binary(&PluginId::new("alpha", 4)), Some(vec![9, 9]));
    assert_eq!(registry.get_plugins_info_for(Some("alpha")).len(), 1);
    assert_eq!(registry.get_plugins_info_for(Some("beta")).len(), 0);
    assert_eq!(registry.get_plugins_info_for(None).len(), 1);
    let handed = nucane::registry_api::Registry::loaded_plugin_binary(
        Some(PluginId::new("alpha", 4)),
        &[9, 9],
    )
    .unwrap();
    assert_eq!(handed.binary, vec![9, 9]);
    assert!(nucane::registry_api::Registry::loaded_plugin_binary(None, &[1]).is_none());
    registry.delete_plugin(&PluginId::new("alpha", 4));
    assert!(registry.get_plugins_info().is_empty());
}

#[test]
fn plugin_info_dto_from_plugin() {
    let plugin = Plugin::new("alpha", "2", &[1]);
    let id = plugin.id;
    let dto = PluginInfoDto::from(plugin);
    assert_eq!(dto.id, id);
    assert_eq!(dto.name, "alpha");
    assert_eq!(dto.version, "2");
}

fn part(file_name: &str, loaded: Option<(&str, i64)>, binary: &[u8]) -> UploadedPart {
    UploadedPart {
        file_name: file_name.to_string(),
        loaded_id: loaded.map(|(name, version)| PluginId::new(name, version)),
        binary: binary.to_vec(),
    }
}

#[test]
fn upload_stores_parts_until_one_fails() {
    let query = AddPluginQuery { force: false };
    let mut registry = nucane::registry_api::Registry::new(InMemoryBlobStorage::new());
    let infos = registry
        .create_plugins(
            TargetOs::Linux,
            &vec![part("liba.so", Some(("a", 1)), &[1]), part("libb.so", Some(("b", 1)), &[2])],
            query.force,
        )
        .unwrap();
    let names: Vec<String> = infos.iter().map(|i| i.id.name.clone()).collect();
    assert_eq!(names, vec!["a".to_string(), "b".to_string()]);
    let result = registry.create_plugins(
        TargetOs::Linux,
        &vec![
            part("libc.so", Some(("c", 1)), &[3]),
            part("libd.dll", Some(("d", 1)), &[4]),
            part("libe.so", Some(("e", 1)), &[5]),
        ],
        false,
    );
    assert!(matches!(result, Err(UploadError::InvalidLibName)));
    assert_eq!(registry.get_plugin_binary(&PluginId::new("c", 1)), Some(vec![3]));
    assert_eq!(registry.get_plugin_binary(&PluginId::new("e", 1)), None);
    let result = registry.create_plugins(TargetOs::Linux, &vec![part("libf.so", None, &[6])], false);
    assert!(matches!(result, Err(UploadError::LoadFailed)));
    match registry.create_plugins(TargetOs::Linux, &vec![part("liba.so", Some(("a", 1)), &[7])], false) {
        Err(UploadError::AlreadyExists(id)) => assert_eq!(id.name, "a"),
        _ => panic!("a stored identity was accepted without force"),
    }
    registry.create_plugins(TargetOs::Linux, &vec![part("liba.so", Some(("a", 1)), &[7])], true).unwrap();
    assert_eq!(registry.get_plugin_binary(&PluginId::new("a", 1)), Some(vec![7]));
}
