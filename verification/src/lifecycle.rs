//! The mod lifecycle: install, update, toggle between Inactive and Active,
//! and delete. Each operation turns one loaded collection into the next
//! one and returns the file-system actions the transition requires; the
//! caller performs the actions and persists the collection.

use vstd::prelude::*;
use crate::model::{
    delete_actions, flip_at, has_mod, is_first_mod_idx, remove_mod_id, toggle_actions,
    updated_view, upsert_rel, with_active,
};
use crate::paths::{join_path, original_name_of, spec_original_name, spec_storage_dir, storage_dir};
use crate::platform::{fresh_id, now_rfc3339};
use crate::store::{find_mod_index, remove_mod_by_id, upsert_mod};
use crate::types::{ActionView, AppSettings, FsAction, LibError, Mod, ModView};
use vstd::string::StringExecFns;

verus! {

/// Install a mod from a validated source, under a caller-chosen id and
/// timestamp: the record is built Inactive, its canonical copy is placed
/// under the storage root (in a per-character directory when a grouping
/// tag is given), and the record joins the collection.
///
/// `source_exists` and `source_is_dir` report the caller's probe of the
/// source path; a missing source and a non-directory source are distinct,
/// user-facing errors, and neither changes the collection.
pub fn install_mod_with(
    mods: &mut Vec<Mod>,
    storage_root: &str,
    source_path: &str,
    source_exists: bool,
    source_is_dir: bool,
    title: String,
    character: Option<String>,
    description: Option<String>,
    thumbnail: Option<String>,
    id: String,
    date_added: String,
) -> (r: Result<(Mod, Vec<FsAction>), LibError>)
    ensures
        !source_exists ==> r == Err::<(Mod, Vec<FsAction>), LibError>(LibError::SourceMissing)
            && final(mods).deep_view() == old(mods).deep_view(),
        source_exists && !source_is_dir ==> r == Err::<(Mod, Vec<FsAction>), LibError>(
            LibError::SourceNotDirectory,
        ) && final(mods).deep_view() == old(mods).deep_view(),
        source_exists && source_is_dir ==> (r matches Ok(p) && {
            let name = spec_original_name(source_path@);
            let sdir = spec_storage_dir(storage_root@, character.deep_view());
            let dest = sdir + "/"@ + name;
            &&& p.0.deep_view() == (ModView {
                id: id@,
                title: title@,
                description: description.deep_view(),
                thumbnail: thumbnail.deep_view(),
                is_active: false,
                date_added: date_added@,
                character: character.deep_view(),
                file_path: dest,
                original_name: name,
            })
            &&& upsert_rel(old(mods).deep_view(), p.0.deep_view(), final(mods).deep_view())
            &&& p.1.deep_view() == seq![
                (ActionView::EnsureDir { path: sdir }),
                (ActionView::CopyTree { src: source_path@, dst: dest }),
            ]
        }),
{
    if !source_exists {
        return Err(LibError::SourceMissing);
    }
    if !source_is_dir {
        return Err(LibError::SourceNotDirectory);
    }
    let ghost gchar = character.deep_view();
    let sdir = storage_dir(storage_root, &character);
    let name = original_name_of(source_path);
    let dest = join_path(sdir.as_str(), name.as_str());
    let mut actions: Vec<FsAction> = Vec::new();
    let ghost gsdir = sdir@;
    let ghost gdest = dest@;
    actions.push(FsAction::EnsureDir { path: sdir });
    actions.push(FsAction::CopyTree { src: String::from_str(source_path), dst: dest.clone() });
    let new_mod = Mod {
        id,
        title,
        description,
        thumbnail,
        is_active: false,
        date_added,
        character,
        file_path: dest,
        original_name: name,
    };
    let returned = new_mod.duplicate();
    proof {
        assert(actions.deep_view() =~= seq![
            (ActionView::EnsureDir { path: gsdir }),
            (ActionView::CopyTree { src: source_path@, dst: gdest }),
        ]);
        assert(returned.deep_view() =~= (ModView {
            id: id@,
            title: title@,
            description: description.deep_view(),
            thumbnail: thumbnail.deep_view(),
            is_active: false,
            date_added: date_added@,
            character: gchar,
            file_path: gdest,
            original_name: spec_original_name(source_path@),
        }));
    }
    upsert_mod(mods, new_mod);
    Ok((returned, actions))
}

/// Install a mod from a validated source: as [`install_mod_with`], under a
/// freshly generated id and the current time.
pub fn install_mod(
    mods: &mut Vec<Mod>,
    storage_root: &str,
    source_path: &str,
    source_exists: bool,
    source_is_dir: bool,
    title: String,
    character: Option<String>,
    description: Option<String>,
    thumbnail: Option<String>,
) -> (r: Result<(Mod, Vec<FsAction>), LibError>)
    ensures
        !source_exists ==> r == Err::<(Mod, Vec<FsAction>), LibError>(LibError::SourceMissing)
            && final(mods).deep_view() == old(mods).deep_view(),
        source_exists && !source_is_dir ==> r == Err::<(Mod, Vec<FsAction>), LibError>(
            LibError::SourceNotDirectory,
        ) && final(mods).deep_view() == old(mods).deep_view(),
        source_exists && source_is_dir ==> (r matches Ok(p) && {
            let name = spec_original_name(source_path@);
            let sdir = spec_storage_dir(storage_root@, character.deep_view());
            let dest = sdir + "/"@ + name;
            let m = p.0.deep_view();
            &&& m == (ModView {
                id: m.id,
                title: title@,
                description: description.deep_view(),
                thumbnail: thumbnail.deep_view(),
                is_active: false,
                date_added: m.date_added,
                character: character.deep_view(),
                file_path: dest,
                original_name: name,
            })
            &&& upsert_rel(old(mods).deep_view(), m, final(mods).deep_view())
            &&& p.1.deep_view() == seq![
                (ActionView::EnsureDir { path: sdir }),
                (ActionView::CopyTree { src: source_path@, dst: dest }),
            ]
        }),
{
    let id = fresh_id();
    let date_added = now_rfc3339();
    install_mod_with(
        mods,
        storage_root,
        source_path,
        source_exists,
        source_is_dir,
        title,
        character,
        description,
        thumbnail,
        id,
        date_added,
    )
}

/// Flip one mod between Inactive and Active. Activation copies the
/// canonical tree to the mod's entry under the external directory;
/// deactivation removes that entry, whether or not it is present. The new
/// activation state comes back with the actions. A missing record and an
/// unconfigured external directory are reported, in that order of
/// precedence, and leave the collection unchanged.
pub fn toggle_mod(mods: &mut Vec<Mod>, settings: &AppSettings, id: &String) -> (r: Result<
    (Vec<FsAction>, bool),
    LibError,
>)
    ensures
        r is Err <==> !has_mod(old(mods).deep_view(), id@) || settings.deep_view() is None,
        r matches Err(e) ==> final(mods).deep_view() == old(mods).deep_view() && ((e
            == LibError::ModNotFound && !has_mod(old(mods).deep_view(), id@)) || (e
            == LibError::ExternalDirNotSet && has_mod(old(mods).deep_view(), id@)
            && settings.deep_view() is None)),
        r matches Ok(out) ==> ({
            let ms = old(mods).deep_view();
            match settings.deep_view() {
                Some(z) => exists|i: int|
                    is_first_mod_idx(ms, id@, i) && final(mods).deep_view() == flip_at(ms, i)
                        && out.1 == !ms[i].is_active && out.0.deep_view() == toggle_actions(
                        ms[i],
                        z,
                    ),
                None => false,
            }
        }),
{
    let ghost ms = mods.deep_view();
    let idx = match find_mod_index(mods, id) {
        Some(i) => i,
        None => {
            return Err(LibError::ModNotFound);
        }
    };
    let z = match &settings.zzmi_mods_path {
        Some(z) => z,
        None => {
            return Err(LibError::ExternalDirNotSet);
        }
    };
    let target = join_path(z.as_str(), mods[idx].original_name.as_str());
    let mut actions: Vec<FsAction> = Vec::new();
    actions.push(FsAction::EnsureDir { path: z.clone() });
    let was_active = mods[idx].is_active;
    if was_active {
        actions.push(FsAction::RemoveTree { path: target });
    } else {
        actions.push(FsAction::CopyTree { src: mods[idx].file_path.clone(), dst: target });
    }
    let mut updated = mods[idx].duplicate();
    updated.is_active = !was_active;
    proof {
        assert(updated.deep_view() =~= with_active(ms[idx as int], !was_active));
        assert(actions.deep_view() =~= toggle_actions(ms[idx as int], z@));
    }
    mods.set(idx, updated);
    proof {
        assert(mods.deep_view() =~= flip_at(ms, idx as int));
    }
    Ok((actions, !was_active))
}

/// Update the user-facing metadata of one mod: each supplied field
/// replaces the old value, each omitted one is left unchanged. Everything
/// else about the record, its activation state included, stays as it was.
pub fn update_mod(
    mods: &mut Vec<Mod>,
    id: &String,
    title: Option<String>,
    thumbnail: Option<String>,
    description: Option<String>,
) -> (r: Result<(), LibError>)
    ensures
        r is Err <==> !has_mod(old(mods).deep_view(), id@),
        r is Err ==> r == Err::<(), LibError>(LibError::ModNotFound) && final(mods).deep_view()
            == old(mods).deep_view(),
        r is Ok ==> exists|i: int|
            is_first_mod_idx(old(mods).deep_view(), id@, i)
                && final(mods).deep_view() == old(mods).deep_view().update(
                i,
                updated_view(
                    old(mods).deep_view()[i],
                    title.deep_view(),
                    thumbnail.deep_view(),
                    description.deep_view(),
                ),
            ),
{
    let ghost ms = mods.deep_view();
    let idx = match find_mod_index(mods, id) {
        Some(i) => i,
        None => {
            return Err(LibError::ModNotFound);
        }
    };
    let mut updated = mods[idx].duplicate();
    match title {
        Some(t) => {
            updated.title = t;
        }
        None => {}
    }
    match thumbnail {
        Some(t) => {
            updated.thumbnail = Some(t);
        }
        None => {}
    }
    match description {
        Some(d) => {
            updated.description = Some(d);
        }
        None => {}
    }
    proof {
        assert(updated.deep_view() =~= updated_view(
            ms[idx as int],
            title.deep_view(),
            thumbnail.deep_view(),
            description.deep_view(),
        ));
    }
    mods.set(idx, updated);
    proof {
        assert(mods.deep_view() =~= ms.update(
            idx as int,
            updated_view(
                ms[idx as int],
                title.deep_view(),
                thumbnail.deep_view(),
                description.deep_view(),
            ),
        ));
    }
    Ok(())
}

/// Delete one mod: its entry under the external directory goes first when
/// the record is Active and the directory is configured (best effort: an
/// unconfigured directory does not block deletion), then its canonical
/// tree, then the record itself. Both removals tolerate an already-absent
/// tree: the operation's goal is that the mod no longer exists.
pub fn delete_mod(mods: &mut Vec<Mod>, settings: &AppSettings, id: &String) -> (r: Result<
    Vec<FsAction>,
    LibError,
>)
    ensures
        r is Err <==> !has_mod(old(mods).deep_view(), id@),
        r is Err ==> r == Err::<Vec<FsAction>, LibError>(LibError::ModNotFound)
            && final(mods).deep_view() == old(mods).deep_view(),
        r matches Ok(acts) ==> final(mods).deep_view() == remove_mod_id(
            old(mods).deep_view(),
            id@,
        ) && exists|i: int|
            is_first_mod_idx(old(mods).deep_view(), id@, i) && acts.deep_view() == delete_actions(
                old(mods).deep_view()[i],
                settings.deep_view(),
            ),
{
    let ghost ms = mods.deep_view();
    let idx = match find_mod_index(mods, id) {
        Some(i) => i,
        None => {
            return Err(LibError::ModNotFound);
        }
    };
    let mut actions: Vec<FsAction> = Vec::new();
    if mods[idx].is_active {
        match &settings.zzmi_mods_path {
            Some(z) => {
                let target = join_path(z.as_str(), mods[idx].original_name.as_str());
                actions.push(FsAction::RemoveTree { path: target });
            }
            None => {}
        }
    }
    actions.push(FsAction::RemoveTree { path: mods[idx].file_path.clone() });
    proof {
        assert(actions.deep_view() =~= delete_actions(ms[idx as int], settings.deep_view()));
    }
    remove_mod_by_id(mods, id);
    Ok(actions)
}

} // verus!
