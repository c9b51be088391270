//! Presets: named desired-active-sets of mods, and the reconciliation
//! engine that converges the collection's active set onto a preset.

use vstd::prelude::*;
use crate::model::{
    active_id_seq, has_preset, is_first_preset_idx, reconcile_actions, reconcile_step, reconciled,
    remove_preset_id, with_active,
};
use crate::paths::join_path;
use crate::platform::{fresh_id, now_rfc3339};
use crate::store::{find_preset_index, remove_preset_by_id};
use crate::types::{ActionView, AppSettings, FsAction, LibError, Mod, Preset, PresetView};
use vstd::pervasive::VecAdditionalExecFns;

verus! {

/// Whether `x` occurs among `ids`.
fn contains_id(ids: &Vec<String>, x: &String) -> (r: bool)
    ensures
        r == ids.deep_view().contains(x@),
{
    let mut i: usize = 0;
    while i < ids.len()
        invariant
            i <= ids.len(),
            forall|j: int| 0 <= j < i ==> ids.deep_view()[j] != x@,
        decreases ids.len() - i,
    {
        if ids[i] == *x {
            proof {
                assert(ids.deep_view()[i as int] == x@);
            }
            return true;
        }
        i += 1;
    }
    false
}

/// The ids of the currently Active mods, in collection order: the default
/// contents of a new preset.
pub fn active_mod_ids(mods: &Vec<Mod>) -> (r: Vec<String>)
    ensures
        r.deep_view() == active_id_seq(mods.deep_view()),
{
    let ghost ms = mods.deep_view();
    let mut out: Vec<String> = Vec::new();
    let mut i: usize = 0;
    while i < mods.len()
        invariant
            i <= mods.len(),
            ms == mods.deep_view(),
            out.deep_view() == active_id_seq(ms.take(i as int)),
        decreases mods.len() - i,
    {
        proof {
            assert(ms.take(i as int + 1).drop_last() =~= ms.take(i as int));
            assert(ms.take(i as int + 1).last() == ms[i as int]);
        }
        if mods[i].is_active {
            let ghost pk = out.deep_view();
            out.push(mods[i].id.clone());
            proof {
                assert(out.deep_view() =~= pk.push(ms[i as int].id));
            }
        }
        i += 1;
    }
    proof {
        assert(ms.take(ms.len() as int) =~= ms);
    }
    out
}

/// Create a preset under a caller-chosen id and timestamp. A supplied id
/// list is taken verbatim, with no check against the mod collection; when
/// none is supplied the preset snapshots the currently Active mods. The
/// new record joins the collection and a copy comes back.
pub fn create_preset_with(
    presets: &mut Vec<Preset>,
    mods: &Vec<Mod>,
    name: String,
    mod_ids: Option<Vec<String>>,
    id: String,
    now: String,
) -> (p: Preset)
    ensures
        p.deep_view() == (PresetView {
            id: id@,
            name: name@,
            created_at: now@,
            updated_at: now@,
            mod_ids: match mod_ids {
                Some(v) => v.deep_view(),
                None => active_id_seq(mods.deep_view()),
            },
        }),
        final(presets).deep_view() == old(presets).deep_view().push(p.deep_view()),
{
    let ids = match mod_ids {
        Some(v) => v,
        None => active_mod_ids(mods),
    };
    let ghost gids = ids.deep_view();
    proof {
        assert(gids == match mod_ids {
            Some(v) => v.deep_view(),
            None => active_id_seq(mods.deep_view()),
        });
    }
    let created = now.clone();
    let preset = Preset { id, name, created_at: created, updated_at: now, mod_ids: ids };
    let returned = preset.duplicate();
    let ghost pv = preset.deep_view();
    proof {
        assert(pv =~= (PresetView {
            id: id@,
            name: name@,
            created_at: now@,
            updated_at: now@,
            mod_ids: gids,
        }));
    }
    presets.push(preset);
    proof {
        assert(presets.deep_view() =~= old(presets).deep_view().push(pv));
    }
    returned
}

/// Create a preset: as [`create_preset_with`], under a freshly generated
/// id and the current time. Its creation and update timestamps start out
/// equal.
pub fn create_preset(
    presets: &mut Vec<Preset>,
    mods: &Vec<Mod>,
    name: String,
    mod_ids: Option<Vec<String>>,
) -> (p: Preset)
    ensures
        p.deep_view().name == name@,
        p.deep_view().created_at == p.deep_view().updated_at,
        p.deep_view().mod_ids == match mod_ids {
            Some(v) => v.deep_view(),
            None => active_id_seq(mods.deep_view()),
        },
        final(presets).deep_view() == old(presets).deep_view().push(p.deep_view()),
{
    let id = fresh_id();
    let now = now_rfc3339();
    create_preset_with(presets, mods, name, mod_ids, id, now)
}

/// Overwrite a preset's label and id list under a caller-chosen update
/// timestamp; its id and creation timestamp are untouched. A missing
/// preset is reported and nothing changes.
pub fn update_preset_with(
    presets: &mut Vec<Preset>,
    id: &String,
    name: String,
    mod_ids: Vec<String>,
    now: String,
) -> (r: Result<(), LibError>)
    ensures
        r is Err <==> !has_preset(old(presets).deep_view(), id@),
        r is Err ==> r == Err::<(), LibError>(LibError::PresetNotFound)
            && final(presets).deep_view() == old(presets).deep_view(),
        r is Ok ==> exists|i: int|
            is_first_preset_idx(old(presets).deep_view(), id@, i)
                && final(presets).deep_view() == old(presets).deep_view().update(
                i,
                (PresetView {
                    id: old(presets).deep_view()[i].id,
                    name: name@,
                    created_at: old(presets).deep_view()[i].created_at,
                    updated_at: now@,
                    mod_ids: mod_ids.deep_view(),
                }),
            ),
{
    let ghost ps = presets.deep_view();
    let idx = match find_preset_index(presets, id) {
        Some(i) => i,
        None => {
            return Err(LibError::PresetNotFound);
        }
    };
    let mut updated = presets[idx].duplicate();
    updated.name = name;
    updated.mod_ids = mod_ids;
    updated.updated_at = now;
    proof {
        assert(updated.deep_view() =~= (PresetView {
            id: ps[idx as int].id,
            name: name@,
            created_at: ps[idx as int].created_at,
            updated_at: now@,
            mod_ids: mod_ids.deep_view(),
        }));
    }
    presets.set(idx, updated);
    proof {
        assert(presets.deep_view() =~= ps.update(
            idx as int,
            (PresetView {
                id: ps[idx as int].id,
                name: name@,
                created_at: ps[idx as int].created_at,
                updated_at: now@,
                mod_ids: mod_ids.deep_view(),
            }),
        ));
    }
    Ok(())
}

/// Overwrite a preset's label and id list: as [`update_preset_with`],
/// under the current time.
pub fn update_preset(
    presets: &mut Vec<Preset>,
    id: &String,
    name: String,
    mod_ids: Vec<String>,
) -> (r: Result<(), LibError>)
    ensures
        r is Err <==> !has_preset(old(presets).deep_view(), id@),
        r is Err ==> r == Err::<(), LibError>(LibError::PresetNotFound)
            && final(presets).deep_view() == old(presets).deep_view(),
        r is Ok ==> exists|i: int, t: Seq<char>|
            is_first_preset_idx(old(presets).deep_view(), id@, i)
                && final(presets).deep_view() == old(presets).deep_view().update(
                i,
                (PresetView {
                    id: old(presets).deep_view()[i].id,
                    name: name@,
                    created_at: old(presets).deep_view()[i].created_at,
                    updated_at: t,
                    mod_ids: mod_ids.deep_view(),
                }),
            ),
{
    let now = now_rfc3339();
    let ghost gnow = now@;
    let r = update_preset_with(presets, id, name, mod_ids, now);
    proof {
        if r is Ok {
            let i = choose|i: int|
                is_first_preset_idx(old(presets).deep_view(), id@, i) && presets.deep_view()
                    == old(presets).deep_view().update(
                    i,
                    (PresetView {
                        id: old(presets).deep_view()[i].id,
                        name: name@,
                        created_at: old(presets).deep_view()[i].created_at,
                        updated_at: gnow,
                        mod_ids: mod_ids.deep_view(),
                    }),
                );
            assert(is_first_preset_idx(old(presets).deep_view(), id@, i) && presets.deep_view()
                == old(presets).deep_view().update(
                i,
                (PresetView {
                    id: old(presets).deep_view()[i].id,
                    name: name@,
                    created_at: old(presets).deep_view()[i].created_at,
                    updated_at: gnow,
                    mod_ids: mod_ids.deep_view(),
                }),
            ));
        }
    }
    r
}

/// Remove a preset by id. A missing preset is reported and nothing
/// changes.
pub fn delete_preset(presets: &mut Vec<Preset>, id: &String) -> (r: Result<(), LibError>)
    ensures
        r is Err <==> !has_preset(old(presets).deep_view(), id@),
        r is Err ==> r == Err::<(), LibError>(LibError::PresetNotFound)
            && final(presets).deep_view() == old(presets).deep_view(),
        r is Ok ==> final(presets).deep_view() == remove_preset_id(old(presets).deep_view(), id@),
{
    match find_preset_index(presets, id) {
        Some(_) => {
            remove_preset_by_id(presets, id);
            Ok(())
        }
        None => Err(LibError::PresetNotFound),
    }
}

/// Apply a preset: converge the collection's active set onto the preset's
/// id list. Every mod whose desired and current states differ is activated
/// or deactivated exactly as by a toggle; mods already in their desired
/// state get no file-system work, and preset ids with no matching record
/// are silently skipped. The whole collection is reconciled against one
/// preset lookup, and the caller persists it once, after performing the
/// actions.
pub fn apply_preset(
    mods: &mut Vec<Mod>,
    presets: &Vec<Preset>,
    settings: &AppSettings,
    preset_id: &String,
) -> (r: Result<Vec<FsAction>, LibError>)
    ensures
        r is Err <==> !has_preset(presets.deep_view(), preset_id@) || settings.deep_view() is None,
        r matches Err(e) ==> final(mods).deep_view() == old(mods).deep_view() && ((e
            == LibError::PresetNotFound && !has_preset(presets.deep_view(), preset_id@)) || (e
            == LibError::ExternalDirNotSet && has_preset(presets.deep_view(), preset_id@)
            && settings.deep_view() is None)),
        r matches Ok(acts) ==> ({
            let ms = old(mods).deep_view();
            match settings.deep_view() {
                Some(z) => exists|i: int|
                    is_first_preset_idx(presets.deep_view(), preset_id@, i)
                        && final(mods).deep_view() == reconciled(
                        ms,
                        presets.deep_view()[i].mod_ids,
                    )
                        && acts.deep_view() == seq![(ActionView::EnsureDir { path: z })]
                        + reconcile_actions(ms, presets.deep_view()[i].mod_ids, z),
                None => false,
            }
        }),
{
    let ghost ms = mods.deep_view();
    let pidx = match find_preset_index(presets, preset_id) {
        Some(i) => i,
        None => {
            return Err(LibError::PresetNotFound);
        }
    };
    let z = match &settings.zzmi_mods_path {
        Some(z) => z,
        None => {
            return Err(LibError::ExternalDirNotSet);
        }
    };
    let ghost gz = z@;
    let ids = &presets[pidx].mod_ids;
    let ghost desired = presets.deep_view()[pidx as int].mod_ids;
    proof {
        assert(ids.deep_view() == desired);
    }
    let mut actions: Vec<FsAction> = Vec::new();
    actions.push(FsAction::EnsureDir { path: z.clone() });
    proof {
        assert(actions.deep_view() =~= seq![(ActionView::EnsureDir { path: gz })]
            + reconcile_actions(ms.take(0), desired, gz));
    }
    let mut i: usize = 0;
    while i < mods.len()
        invariant
            i <= mods.deep_view().len(),
            mods.deep_view().len() == ms.len(),
            ids.deep_view() == desired,
            gz == z@,
            forall|j: int|
                0 <= j < i ==> mods.deep_view()[j] == with_active(
                    ms[j],
                    desired.contains(ms[j].id),
                ),
            forall|j: int| i <= j < ms.len() ==> mods.deep_view()[j] == ms[j],
            actions.deep_view() == seq![(ActionView::EnsureDir { path: gz })]
                + reconcile_actions(ms.take(i as int), desired, gz),
        decreases mods.len() - i,
    {
        proof {
            assert(ms.take(i as int + 1).drop_last() =~= ms.take(i as int));
            assert(ms.take(i as int + 1).last() == ms[i as int]);
            assert(mods.deep_view()[i as int] == ms[i as int]);
        }
        let should = contains_id(ids, &mods[i].id);
        let active = mods[i].is_active;
        proof {
            assert(mods[i as int].deep_view() == mods.deep_view()[i as int]);
            assert(should == desired.contains(ms[i as int].id));
            assert(active == ms[i as int].is_active);
        }
        if should && !active {
            let target = join_path(z.as_str(), mods[i].original_name.as_str());
            let ghost pa = actions.deep_view();
            actions.push(FsAction::CopyTree { src: mods[i].file_path.clone(), dst: target });
            let mut updated = mods[i].duplicate();
            updated.is_active = true;
            proof {
                assert(updated.deep_view() =~= with_active(ms[i as int], true));
            }
            let ghost pre_dv = mods.deep_view();
            mods.set(i, updated);
            proof {
                assert(mods.deep_view() =~= pre_dv.update(
                    i as int,
                    with_active(ms[i as int], true),
                ));
                assert(actions.deep_view() =~= pa + reconcile_step(ms[i as int], desired, gz));
            }
        } else if !should && active {
            let target = join_path(z.as_str(), mods[i].original_name.as_str());
            let ghost pa = actions.deep_view();
            actions.push(FsAction::RemoveTree { path: target });
            let mut updated = mods[i].duplicate();
            updated.is_active = false;
            proof {
                assert(updated.deep_view() =~= with_active(ms[i as int], false));
            }
            let ghost pre_dv = mods.deep_view();
            mods.set(i, updated);
            proof {
                assert(mods.deep_view() =~= pre_dv.update(
                    i as int,
                    with_active(ms[i as int], false),
                ));
                assert(actions.deep_view() =~= pa + reconcile_step(ms[i as int], desired, gz));
            }
        } else {
            proof {
                assert(with_active(ms[i as int], ms[i as int].is_active) =~= ms[i as int]);
                assert(reconcile_step(ms[i as int], desired, gz) =~= Seq::<ActionView>::empty());
                assert(actions.deep_view() =~= actions.deep_view() + reconcile_step(
                    ms[i as int],
                    desired,
                    gz,
                ));
            }
        }
        i += 1;
        proof {
            assert(actions.deep_view() == seq![(ActionView::EnsureDir { path: gz })]
                + reconcile_actions(ms.take(i as int), desired, gz));
        }
    }
    proof {
        assert(ms.take(ms.len() as int) =~= ms);
        assert(mods.deep_view() =~= reconciled(ms, desired));
    }
    Ok(actions)
}

} // verus!
