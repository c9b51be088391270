use aether_manager::lifecycle::{delete_mod, install_mod, install_mod_with, toggle_mod, update_mod};
use aether_manager::types::{AppSettings, FsAction, LibError, Mod};

fn mk_mod(id: &str, title: &str, active: bool, file_path: &str, original_name: &str) -> Mod {
    Mod {
        id: id.to_string(),
        title: title.to_string(),
        description: None,
        thumbnail: None,
        is_active: active,
        date_added: "2024-01-01T00:00:00+00:00".to_string(),
        character: None,
        file_path: file_path.to_string(),
        original_name: original_name.to_string(),
    }
}

fn settings_with(path: &str) -> AppSettings {
    AppSettings { zzmi_mods_path: Some(path.to_string()) }
}

#[test]
fn install_folder_with_character() {
    let mut mods: Vec<Mod> = Vec::new();
    let r = install_mod_with(
        &mut mods,
        "/data/aether-manager/mods",
        "/downloads/Foo",
        true,
        true,
        "Foo".to_string(),
        Some("Alice".to_string()),
        None,
        None,
        "id-foo".to_string(),
        "2024-05-01T10:00:00+00:00".to_string(),
    );
    let (m, actions) = r.unwrap();
    assert!(!m.is_active);
    assert_eq!(m.original_name, "Foo");
    assert!(m.file_path.ends_with("characters/Alice/Foo"));
    assert_eq!(m.file_path, "/data/aether-manager/mods/characters/Alice/Foo");
    assert_eq!(m.title, "Foo");
    assert_eq!(m.character.as_deref(), Some("Alice"));
    assert_eq!(m.thumbnail, None);
    assert_eq!(m.date_added, "2024-05-01T10:00:00+00:00");
    let with_id: Vec<&Mod> = mods.iter().filter(|x| x.id == "id-foo").collect();
    assert_eq!(with_id.len(), 1);
    assert_eq!(mods.len(), 1);
    assert_eq!(actions.len(), 2);
    match &actions[0] {
        FsAction::EnsureDir { path } => {
            assert_eq!(path, "/data/aether-manager/mods/characters/Alice");
        }
        other => panic!("expected EnsureDir, got {:?}", other),
    }
    match &actions[1] {
        FsAction::CopyTree { src, dst } => {
            assert_eq!(src, "/downloads/Foo");
            assert_eq!(dst, "/data/aether-manager/mods/characters/Alice/Foo");
        }
        other => panic!("expected CopyTree, got {:?}", other),
    }
}

#[test]
fn install_without_character_uses_shared_directory() {
    let mut mods: Vec<Mod> = Vec::new();
    let r = install_mod_with(
        &mut mods,
        "/data/mods",
        "/downloads/Bar",
        true,
        true,
        "Bar".to_string(),
        None,
        Some("a mod".to_string()),
        Some("thumb.png".to_string()),
        "id-bar".to_string(),
        "2024-05-01T10:00:00+00:00".to_string(),
    );
    let (m, _) = r.unwrap();
    assert_eq!(m.file_path, "/data/mods/othermods/Bar");
    assert_eq!(m.description.as_deref(), Some("a mod"));
    assert_eq!(m.thumbnail.as_deref(), Some("thumb.png"));
}

#[test]
fn install_source_with_trailing_separator_stores_under_fallback_name() {
    let mut mods: Vec<Mod> = Vec::new();
    let r = install_mod_with(
        &mut mods,
        "/data/mods",
        "/downloads/Foo/",
        true,
        true,
        "Foo".to_string(),
        None,
        None,
        None,
        "id-foo".to_string(),
        "2024-05-01T10:00:00+00:00".to_string(),
    );
    let (m, _) = r.unwrap();
    assert_eq!(m.original_name, "unknown");
    assert_eq!(m.file_path, "/data/mods/othermods/unknown");
}

#[test]
fn install_missing_source_is_rejected() {
    let mut mods: Vec<Mod> = Vec::new();
    let r = install_mod(
        &mut mods,
        "/data/mods",
        "/nowhere/Foo",
        false,
        false,
        "Foo".to_string(),
        None,
        None,
        None,
    );
    assert_eq!(r.unwrap_err(), LibError::SourceMissing);
    assert_eq!(mods.len(), 0);
}

#[test]
fn install_file_source_is_rejected() {
    let mut mods: Vec<Mod> = Vec::new();
    let r = install_mod(
        &mut mods,
        "/data/mods",
        "/downloads/foo.zip",
        true,
        false,
        "Foo".to_string(),
        None,
        None,
        None,
    );
    assert_eq!(r.unwrap_err(), LibError::SourceNotDirectory);
    assert_eq!(mods.len(), 0);
}

#[test]
fn install_generates_distinct_ids() {
    let mut mods: Vec<Mod> = Vec::new();
    for k in 0..3 {
        let title = format!("Mod{}", k);
        let src = format!("/downloads/Mod{}", k);
        install_mod(&mut mods, "/data/mods", &src, true, true, title, None, None, None).unwrap();
    }
    assert_eq!(mods.len(), 3);
    for a in 0..3 {
        // A generated id is a canonical hyphenated UUID.
        assert_eq!(mods[a].id.len(), 36);
        for b in 0..3 {
            if a != b {
                assert_ne!(mods[a].id, mods[b].id);
            }
        }
    }
}

#[test]
fn toggle_activates_and_deactivates() {
    let mut mods = vec![mk_mod("id-1", "One", false, "/store/othermods/One", "One")];
    let settings = settings_with("/zzmi/mods");

    let (actions, now_active) = toggle_mod(&mut mods, &settings, &"id-1".to_string()).unwrap();
    assert!(now_active);
    assert!(mods[0].is_active);
    assert_eq!(actions.len(), 2);
    match &actions[0] {
        FsAction::EnsureDir { path } => assert_eq!(path, "/zzmi/mods"),
        other => panic!("expected EnsureDir, got {:?}", other),
    }
    match &actions[1] {
        FsAction::CopyTree { src, dst } => {
            assert_eq!(src, "/store/othermods/One");
            assert_eq!(dst, "/zzmi/mods/One");
        }
        other => panic!("expected CopyTree, got {:?}", other),
    }

    let (actions, now_active) = toggle_mod(&mut mods, &settings, &"id-1".to_string()).unwrap();
    assert!(!now_active);
    assert!(!mods[0].is_active);
    match &actions[1] {
        FsAction::RemoveTree { path } => assert_eq!(path, "/zzmi/mods/One"),
        other => panic!("expected RemoveTree, got {:?}", other),
    }
}

#[test]
fn toggle_round_trip_restores_record() {
    let mut mods = vec![
        mk_mod("id-1", "One", false, "/store/othermods/One", "One"),
        mk_mod("id-2", "Two", true, "/store/othermods/Two", "Two"),
    ];
    let settings = settings_with("/zzmi/mods");
    toggle_mod(&mut mods, &settings, &"id-2".to_string()).unwrap();
    toggle_mod(&mut mods, &settings, &"id-2".to_string()).unwrap();
    assert!(mods[1].is_active);
    assert_eq!(mods[1].title, "Two");
    assert_eq!(mods[1].id, "id-2");
    assert!(!mods[0].is_active);
}

#[test]
fn deactivation_needs_no_external_state() {
    // Deactivating asks only that the entry be absent afterwards: the
    // operation takes no report of whether the entry exists, and always
    // succeeds on an Active record with a configured directory.
    let mut mods = vec![mk_mod("id-1", "One", true, "/store/othermods/One", "One")];
    let settings = settings_with("/zzmi/mods");
    let (actions, now_active) = toggle_mod(&mut mods, &settings, &"id-1".to_string()).unwrap();
    assert!(!now_active);
    assert!(matches!(&actions[1], FsAction::RemoveTree { .. }));
}

#[test]
fn toggle_unknown_id_is_rejected() {
    let mut mods = vec![mk_mod("id-1", "One", false, "/store/othermods/One", "One")];
    let settings = settings_with("/zzmi/mods");
    let r = toggle_mod(&mut mods, &settings, &"missing".to_string());
    assert_eq!(r.unwrap_err(), LibError::ModNotFound);
    assert!(!mods[0].is_active);
}

#[test]
fn toggle_without_external_directory_is_rejected() {
    let mut mods = vec![mk_mod("id-1", "One", false, "/store/othermods/One", "One")];
    let settings = AppSettings { zzmi_mods_path: None };
    let r = toggle_mod(&mut mods, &settings, &"id-1".to_string());
    assert_eq!(r.unwrap_err(), LibError::ExternalDirNotSet);
    assert!(!mods[0].is_active);
}

#[test]
fn update_replaces_only_supplied_fields() {
    let mut mods = vec![mk_mod("id-1", "Old title", false, "/store/othermods/One", "One")];
    mods[0].description = Some("old".to_string());
    update_mod(
        &mut mods,
        &"id-1".to_string(),
        Some("New title".to_string()),
        Some("thumb.png".to_string()),
        None,
    )
    .unwrap();
    assert_eq!(mods[0].title, "New title");
    assert_eq!(mods[0].thumbnail.as_deref(), Some("thumb.png"));
    assert_eq!(mods[0].description.as_deref(), Some("old"));
    assert!(!mods[0].is_active);
    assert_eq!(mods[0].original_name, "One");
}

#[test]
fn update_unknown_id_is_rejected() {
    let mut mods: Vec<Mod> = Vec::new();
    let r = update_mod(&mut mods, &"missing".to_string(), Some("t".to_string()), None, None);
    assert_eq!(r.unwrap_err(), LibError::ModNotFound);
}

#[test]
fn delete_active_mod_removes_both_copies_and_record() {
    let mut mods = vec![
        mk_mod("id-1", "One", true, "/store/othermods/One", "One"),
        mk_mod("id-2", "Two", false, "/store/othermods/Two", "Two"),
    ];
    let settings = settings_with("/zzmi/mods");
    let actions = delete_mod(&mut mods, &settings, &"id-1".to_string()).unwrap();
    assert_eq!(actions.len(), 2);
    match &actions[0] {
        FsAction::RemoveTree { path } => assert_eq!(path, "/zzmi/mods/One"),
        other => panic!("expected RemoveTree, got {:?}", other),
    }
    match &actions[1] {
        FsAction::RemoveTree { path } => assert_eq!(path, "/store/othermods/One"),
        other => panic!("expected RemoveTree, got {:?}", other),
    }
    assert_eq!(mods.len(), 1);
    assert!(mods.iter().all(|m| m.id != "id-1"));
}

#[test]
fn delete_inactive_mod_skips_external_removal() {
    let mut mods = vec![mk_mod("id-1", "One", false, "/store/othermods/One", "One")];
    let settings = settings_with("/zzmi/mods");
    let actions = delete_mod(&mut mods, &settings, &"id-1".to_string()).unwrap();
    assert_eq!(actions.len(), 1);
    match &actions[0] {
        FsAction::RemoveTree { path } => assert_eq!(path, "/store/othermods/One"),
        other => panic!("expected RemoveTree, got {:?}", other),
    }
    assert_eq!(mods.len(), 0);
}

#[test]
fn delete_active_mod_without_external_directory_still_deletes() {
    let mut mods = vec![mk_mod("id-1", "One", true, "/store/othermods/One", "One")];
    let settings = AppSettings { zzmi_mods_path: None };
    let actions = delete_mod(&mut mods, &settings, &"id-1".to_string()).unwrap();
    assert_eq!(actions.len(), 1);
    assert!(matches!(&actions[0], FsAction::RemoveTree { .. }));
    assert_eq!(mods.len(), 0);
}

#[test]
fn delete_unknown_id_is_rejected() {
    let mut mods = vec![mk_mod("id-1", "One", false, "/store/othermods/One", "One")];
    let settings = settings_with("/zzmi/mods");
    let r = delete_mod(&mut mods, &settings, &"missing".to_string());
    assert_eq!(r.unwrap_err(), LibError::ModNotFound);
    assert_eq!(mods.len(), 1);
}
