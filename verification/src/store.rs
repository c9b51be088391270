//! The metadata store's record-level steps: find a record by id, insert or
//! replace one, remove one, and turn the outcome of a document read into
//! the collection an operation works on.
//!
//! Every mutating operation of the library runs as a load-modify-save
//! triple over a complete collection; these are the modify steps.

use vstd::prelude::*;
use vstd::pervasive::VecAdditionalExecFns;
use crate::model::{
    has_mod, has_preset, is_first_mod_idx, is_first_preset_idx, remove_mod_id, remove_preset_id,
    upsert_rel,
};
use crate::types::{AppSettings, DocRead, LibError, Mod, ModView, Preset, PresetView};

verus! {

/// The position of the first record carrying `id`, if any record does.
pub fn find_mod_index(mods: &Vec<Mod>, id: &String) -> (r: Option<usize>)
    ensures
        match r {
            Some(i) => is_first_mod_idx(mods.deep_view(), id@, i as int),
            None => !has_mod(mods.deep_view(), id@),
        },
{
    let mut i: usize = 0;
    while i < mods.len()
        invariant
            i <= mods.len(),
            forall|j: int| 0 <= j < i ==> mods.deep_view()[j].id != id@,
        decreases mods.len() - i,
    {
        if mods[i].id == *id {
            return Some(i);
        }
        i += 1;
    }
    None
}

/// The position of the first preset carrying `id`, if any preset does.
pub fn find_preset_index(presets: &Vec<Preset>, id: &String) -> (r: Option<usize>)
    ensures
        match r {
            Some(i) => is_first_preset_idx(presets.deep_view(), id@, i as int),
            None => !has_preset(presets.deep_view(), id@),
        },
{
    let mut i: usize = 0;
    while i < presets.len()
        invariant
            i <= presets.len(),
            forall|j: int| 0 <= j < i ==> presets.deep_view()[j].id != id@,
        decreases presets.len() - i,
    {
        if presets[i].id == *id {
            return Some(i);
        }
        i += 1;
    }
    None
}

/// Write `m` over the first record of the same id, or append it when no
/// record carries that id.
pub fn upsert_mod(mods: &mut Vec<Mod>, m: Mod)
    ensures
        upsert_rel(old(mods).deep_view(), m.deep_view(), final(mods).deep_view()),
{
    let ghost orig = mods.deep_view();
    match find_mod_index(mods, &m.id) {
        Some(i) => {
            let ghost gi = i as int;
            mods.set(i, m);
            proof {
                assert(mods.deep_view() =~= orig.update(gi, m.deep_view()));
            }
        }
        None => {
            mods.push(m);
            proof {
                assert(mods.deep_view() =~= orig.push(m.deep_view()));
            }
        }
    }
}

/// Drop every record carrying `id`, keeping the order of the rest. A
/// collection without such a record comes back unchanged: removal is
/// idempotent at this level.
pub fn remove_mod_by_id(mods: &mut Vec<Mod>, id: &String)
    ensures
        final(mods).deep_view() == remove_mod_id(old(mods).deep_view(), id@),
{
    let ghost orig = mods.deep_view();
    let mut kept: Vec<Mod> = Vec::new();
    let mut i: usize = 0;
    while i < mods.len()
        invariant
            mods.deep_view() == orig,
            i <= mods.len(),
            kept.deep_view() == remove_mod_id(orig.take(i as int), id@),
        decreases mods.len() - i,
    {
        proof {
            assert(orig.take(i as int + 1).drop_last() =~= orig.take(i as int));
            assert(orig.take(i as int + 1).last() == orig[i as int]);
        }
        if mods[i].id == *id {
            proof {
                assert(kept.deep_view() == remove_mod_id(orig.take(i as int + 1), id@));
            }
        } else {
            let m = mods[i].duplicate();
            let ghost pk: Seq<ModView> = kept.deep_view();
            proof {
                assert(m.deep_view() == orig[i as int]);
            }
            kept.push(m);
            proof {
                assert(kept.deep_view() =~= pk.push(m.deep_view()));
                assert(kept.deep_view() == remove_mod_id(orig.take(i as int + 1), id@));
            }
        }
        i += 1;
    }
    proof {
        assert(orig.take(orig.len() as int) =~= orig);
    }
    *mods = kept;
}

/// Drop every preset carrying `id`, keeping the order of the rest.
pub fn remove_preset_by_id(presets: &mut Vec<Preset>, id: &String)
    ensures
        final(presets).deep_view() == remove_preset_id(old(presets).deep_view(), id@),
{
    let ghost orig = presets.deep_view();
    let mut kept: Vec<Preset> = Vec::new();
    let mut i: usize = 0;
    while i < presets.len()
        invariant
            presets.deep_view() == orig,
            i <= presets.len(),
            kept.deep_view() == remove_preset_id(orig.take(i as int), id@),
        decreases presets.len() - i,
    {
        proof {
            assert(orig.take(i as int + 1).drop_last() =~= orig.take(i as int));
            assert(orig.take(i as int + 1).last() == orig[i as int]);
        }
        if presets[i].id == *id {
            proof {
                assert(kept.deep_view() == remove_preset_id(orig.take(i as int + 1), id@));
            }
        } else {
            let p = presets[i].duplicate();
            let ghost pk: Seq<PresetView> = kept.deep_view();
            proof {
                assert(p.deep_view() == orig[i as int]);
            }
            kept.push(p);
            proof {
                assert(kept.deep_view() =~= pk.push(p.deep_view()));
                assert(kept.deep_view() == remove_preset_id(orig.take(i as int + 1), id@));
            }
        }
        i += 1;
    }
    proof {
        assert(orig.take(orig.len() as int) =~= orig);
    }
    *presets = kept;
}

/// The collection behind a document read, for an operation that must see
/// the store as it is: a missing file is the valid empty state, but a file
/// that cannot be read or decoded fails the operation. Corruption is never
/// masked as an empty collection.
pub fn collection_from_read<T>(r: DocRead<Vec<T>>) -> (out: Result<Vec<T>, LibError>)
    ensures
        match r {
            DocRead::Missing => out matches Ok(v) && v@ == Seq::<T>::empty(),
            DocRead::Contents(v) => out matches Ok(w) && w@ == v@,
            DocRead::ReadFailed => out == Err::<Vec<T>, LibError>(LibError::StoreReadFailed),
            DocRead::Malformed => out == Err::<Vec<T>, LibError>(LibError::StoreMalformed),
        },
{
    match r {
        DocRead::Missing => {
            let v: Vec<T> = Vec::new();
            proof {
                assert(v@ =~= Seq::<T>::empty());
            }
            Ok(v)
        }
        DocRead::Contents(v) => Ok(v),
        DocRead::ReadFailed => Err(LibError::StoreReadFailed),
        DocRead::Malformed => Err(LibError::StoreMalformed),
    }
}

/// The collection behind a document read, for the statistics projection,
/// which must never be the reason a front end fails to render: any outcome
/// but readable contents counts as the empty collection.
pub fn collection_for_stats<T>(r: DocRead<Vec<T>>) -> (out: Vec<T>)
    ensures
        match r {
            DocRead::Contents(v) => out@ == v@,
            _ => out@ == Seq::<T>::empty(),
        },
{
    match r {
        DocRead::Contents(v) => v,
        _ => {
            let v: Vec<T> = Vec::new();
            proof {
                assert(v@ =~= Seq::<T>::empty());
            }
            v
        }
    }
}

/// The default configuration: no external active-mods directory yet.
pub fn default_settings() -> (s: AppSettings)
    ensures
        s.deep_view() is None,
{
    AppSettings { zzmi_mods_path: None }
}

/// The settings behind a document read. A missing file synthesizes the
/// default record, and the `true` flag tells the caller to persist it, so
/// that first access materializes the settings file. An unreadable or
/// corrupt file fails the operation.
pub fn settings_from_read(r: DocRead<AppSettings>) -> (out: Result<(AppSettings, bool), LibError>)
    ensures
        match r {
            DocRead::Missing => out matches Ok(p) && p.0.deep_view() is None && p.1,
            DocRead::Contents(s) => out matches Ok(p) && p.0.deep_view() == s.deep_view() && !p.1,
            DocRead::ReadFailed => out == Err::<(AppSettings, bool), LibError>(
                LibError::StoreReadFailed,
            ),
            DocRead::Malformed => out == Err::<(AppSettings, bool), LibError>(
                LibError::StoreMalformed,
            ),
        },
{
    match r {
        DocRead::Missing => Ok((default_settings(), true)),
        DocRead::Contents(s) => Ok((s, false)),
        DocRead::ReadFailed => Err(LibError::StoreReadFailed),
        DocRead::Malformed => Err(LibError::StoreMalformed),
    }
}

} // verus!
