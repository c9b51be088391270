use aether_manager::presets::{
    active_mod_ids, apply_preset, create_preset, create_preset_with, delete_preset, update_preset,
    update_preset_with,
};
use aether_manager::types::{AppSettings, FsAction, LibError, Mod, Preset};

fn mk_mod(id: &str, active: bool) -> Mod {
    Mod {
        id: id.to_string(),
        title: format!("title-{}", id),
        description: None,
        thumbnail: None,
        is_active: active,
        date_added: "2024-01-01T00:00:00+00:00".to_string(),
        character: None,
        file_path: format!("/store/othermods/{}", id),
        original_name: id.to_string(),
    }
}

fn settings_with(path: &str) -> AppSettings {
    AppSettings { zzmi_mods_path: Some(path.to_string()) }
}

#[test]
fn create_with_explicit_ids_takes_them_verbatim() {
    let mods = vec![mk_mod("a", true)];
    let mut presets: Vec<Preset> = Vec::new();
    let p = create_preset_with(
        &mut presets,
        &mods,
        "My preset".to_string(),
        Some(vec!["x".to_string(), "ghost".to_string()]),
        "p-1".to_string(),
        "2024-06-01T00:00:00+00:00".to_string(),
    );
    assert_eq!(p.id, "p-1");
    assert_eq!(p.name, "My preset");
    assert_eq!(p.created_at, "2024-06-01T00:00:00+00:00");
    assert_eq!(p.updated_at, "2024-06-01T00:00:00+00:00");
    assert_eq!(p.mod_ids, vec!["x".to_string(), "ghost".to_string()]);
    assert_eq!(presets.len(), 1);
    assert_eq!(presets[0].id, "p-1");
}

#[test]
fn create_without_ids_snapshots_active_mods() {
    let mods = vec![mk_mod("a", true), mk_mod("b", false), mk_mod("c", true)];
    let mut presets: Vec<Preset> = Vec::new();
    let p = create_preset(&mut presets, &mods, "Snapshot".to_string(), None);
    assert_eq!(p.mod_ids, vec!["a".to_string(), "c".to_string()]);
    assert_eq!(p.created_at, p.updated_at);
    assert_eq!(p.id.len(), 36);
}

#[test]
fn active_mod_ids_keeps_collection_order() {
    let mods = vec![mk_mod("z", true), mk_mod("a", false), mk_mod("m", true)];
    let ids = active_mod_ids(&mods);
    assert_eq!(ids, vec!["z".to_string(), "m".to_string()]);
}

#[test]
fn update_preset_overwrites_name_and_ids() {
    let mods = vec![mk_mod("a", true)];
    let mut presets: Vec<Preset> = Vec::new();
    create_preset_with(
        &mut presets,
        &mods,
        "Old".to_string(),
        Some(vec!["a".to_string()]),
        "p-1".to_string(),
        "2024-06-01T00:00:00+00:00".to_string(),
    );
    update_preset_with(
        &mut presets,
        &"p-1".to_string(),
        "New".to_string(),
        vec!["b".to_string()],
        "2024-07-01T00:00:00+00:00".to_string(),
    )
    .unwrap();
    assert_eq!(presets[0].name, "New");
    assert_eq!(presets[0].mod_ids, vec!["b".to_string()]);
    assert_eq!(presets[0].created_at, "2024-06-01T00:00:00+00:00");
    assert_eq!(presets[0].updated_at, "2024-07-01T00:00:00+00:00");
    assert_eq!(presets[0].id, "p-1");
}

#[test]
fn update_unknown_preset_is_rejected() {
    let mut presets: Vec<Preset> = Vec::new();
    let r = update_preset(&mut presets, &"missing".to_string(), "n".to_string(), Vec::new());
    assert_eq!(r.unwrap_err(), LibError::PresetNotFound);
}

#[test]
fn delete_preset_removes_it() {
    let mods = vec![mk_mod("a", true)];
    let mut presets: Vec<Preset> = Vec::new();
    create_preset_with(
        &mut presets,
        &mods,
        "One".to_string(),
        Some(vec![]),
        "p-1".to_string(),
        "2024-06-01T00:00:00+00:00".to_string(),
    );
    delete_preset(&mut presets, &"p-1".to_string()).unwrap();
    assert_eq!(presets.len(), 0);
}

#[test]
fn delete_unknown_preset_is_rejected() {
    let mut presets: Vec<Preset> = Vec::new();
    let r = delete_preset(&mut presets, &"missing".to_string());
    assert_eq!(r.unwrap_err(), LibError::PresetNotFound);
}

#[test]
fn apply_preset_converges_active_set() {
    // a: active, stays out of the preset -> deactivated
    // b: inactive, in the preset        -> activated
    // c: active, in the preset          -> untouched
    // d: inactive, out of the preset    -> untouched
    // "ghost": in the preset, no record -> silently skipped
    let mut mods = vec![mk_mod("a", true), mk_mod("b", false), mk_mod("c", true), mk_mod("d", false)];
    let mut presets: Vec<Preset> = Vec::new();
    create_preset_with(
        &mut presets,
        &mods,
        "Target".to_string(),
        Some(vec!["b".to_string(), "c".to_string(), "ghost".to_string()]),
        "p-1".to_string(),
        "2024-06-01T00:00:00+00:00".to_string(),
    );
    let settings = settings_with("/zzmi/mods");
    let actions = apply_preset(&mut mods, &presets, &settings, &"p-1".to_string()).unwrap();

    let active: Vec<&str> = mods.iter().filter(|m| m.is_active).map(|m| m.id.as_str()).collect();
    assert_eq!(active, vec!["b", "c"]);

    // Reconciliation touches nothing but the activation state.
    assert_eq!(mods[0].title, "title-a");
    assert_eq!(mods[0].file_path, "/store/othermods/a");
    assert_eq!(mods[0].original_name, "a");

    assert_eq!(actions.len(), 3);
    match &actions[0] {
        FsAction::EnsureDir { path } => assert_eq!(path, "/zzmi/mods"),
        other => panic!("expected EnsureDir, got {:?}", other),
    }
    match &actions[1] {
        FsAction::RemoveTree { path } => assert_eq!(path, "/zzmi/mods/a"),
        other => panic!("expected RemoveTree, got {:?}", other),
    }
    match &actions[2] {
        FsAction::CopyTree { src, dst } => {
            assert_eq!(src, "/store/othermods/b");
            assert_eq!(dst, "/zzmi/mods/b");
        }
        other => panic!("expected CopyTree, got {:?}", other),
    }
}

#[test]
fn apply_preset_with_converged_state_does_no_file_work() {
    let mut mods = vec![mk_mod("a", true), mk_mod("b", false)];
    let mut presets: Vec<Preset> = Vec::new();
    create_preset_with(
        &mut presets,
        &mods,
        "Same".to_string(),
        Some(vec!["a".to_string()]),
        "p-1".to_string(),
        "2024-06-01T00:00:00+00:00".to_string(),
    );
    let settings = settings_with("/zzmi/mods");
    let actions = apply_preset(&mut mods, &presets, &settings, &"p-1".to_string()).unwrap();
    assert_eq!(actions.len(), 1);
    assert!(matches!(&actions[0], FsAction::EnsureDir { .. }));
    assert!(mods[0].is_active);
    assert!(!mods[1].is_active);
}

#[test]
fn apply_unknown_preset_is_rejected() {
    let mut mods = vec![mk_mod("a", true)];
    let presets: Vec<Preset> = Vec::new();
    let settings = settings_with("/zzmi/mods");
    let r = apply_preset(&mut mods, &presets, &settings, &"missing".to_string());
    assert_eq!(r.unwrap_err(), LibError::PresetNotFound);
    assert!(mods[0].is_active);
}

#[test]
fn apply_preset_without_external_directory_is_rejected() {
    let mut mods = vec![mk_mod("a", true)];
    let mut presets: Vec<Preset> = Vec::new();
    create_preset_with(
        &mut presets,
        &mods,
        "P".to_string(),
        Some(vec![]),
        "p-1".to_string(),
        "2024-06-01T00:00:00+00:00".to_string(),
    );
    let settings = AppSettings { zzmi_mods_path: None };
    let r = apply_preset(&mut mods, &presets, &settings, &"p-1".to_string());
    assert_eq!(r.unwrap_err(), LibError::ExternalDirNotSet);
    assert!(mods[0].is_active);
}
