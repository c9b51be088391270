//! Spec-level model of the two collections: what it means to find, insert,
//! replace, remove and reconcile records. The executable operations state
//! their contracts over these functions.

use vstd::prelude::*;
use crate::types::{ActionView, ModView, PresetView};

verus! {

/// Some record in `ms` carries the id.
pub open spec fn has_mod(ms: Seq<ModView>, id: Seq<char>) -> bool {
    exists|i: int| 0 <= i < ms.len() && ms[i].id == id
}

/// `i` is the position of the first record in `ms` that carries the id.
pub open spec fn is_first_mod_idx(ms: Seq<ModView>, id: Seq<char>, i: int) -> bool {
    &&& 0 <= i < ms.len()
    &&& ms[i].id == id
    &&& forall|j: int| 0 <= j < i ==> ms[j].id != id
}

/// `r` is `ms` with `m` written over the first record of the same id, or
/// appended when no record carries it: the store's insert-or-replace step.
pub open spec fn upsert_rel(ms: Seq<ModView>, m: ModView, r: Seq<ModView>) -> bool {
    if has_mod(ms, m.id) {
        exists|i: int| is_first_mod_idx(ms, m.id, i) && r == ms.update(i, m)
    } else {
        r == ms.push(m)
    }
}

/// `ms` without every record that carries the id, order otherwise kept.
pub open spec fn remove_mod_id(ms: Seq<ModView>, id: Seq<char>) -> Seq<ModView>
    decreases ms.len(),
{
    if ms.len() == 0 {
        Seq::empty()
    } else {
        let init = remove_mod_id(ms.drop_last(), id);
        if ms.last().id == id {
            init
        } else {
            init.push(ms.last())
        }
    }
}

/// The record with its activation state set to `b`, all else as it was.
pub open spec fn with_active(m: ModView, b: bool) -> ModView {
    ModView { is_active: b, ..m }
}

/// The collection with the record at `i` flipped between Active and
/// Inactive: the one transition of the mod state machine.
pub open spec fn flip_at(ms: Seq<ModView>, i: int) -> Seq<ModView> {
    ms.update(i, with_active(ms[i], !ms[i].is_active))
}

/// No two records carry the same id.
pub open spec fn distinct_ids(ms: Seq<ModView>) -> bool {
    forall|i: int, j: int| 0 <= i < j < ms.len() ==> ms[i].id != ms[j].id
}

/// How many records are Active.
pub open spec fn count_active(ms: Seq<ModView>) -> nat
    decreases ms.len(),
{
    if ms.len() == 0 {
        0
    } else {
        count_active(ms.drop_last()) + if ms.last().is_active {
            1nat
        } else {
            0nat
        }
    }
}

/// The ids of all records, as a set.
pub open spec fn all_ids(ms: Seq<ModView>) -> Set<Seq<char>> {
    Set::new(|id: Seq<char>| has_mod(ms, id))
}

/// The ids of the Active records, as a set.
pub open spec fn active_ids(ms: Seq<ModView>) -> Set<Seq<char>> {
    Set::new(|id: Seq<char>| exists|i: int| 0 <= i < ms.len() && ms[i].id == id && ms[i].is_active)
}

/// The ids of the Active records, in collection order.
pub open spec fn active_id_seq(ms: Seq<ModView>) -> Seq<Seq<char>>
    decreases ms.len(),
{
    if ms.len() == 0 {
        Seq::empty()
    } else {
        let init = active_id_seq(ms.drop_last());
        if ms.last().is_active {
            init.push(ms.last().id)
        } else {
            init
        }
    }
}

/// Every record set Active exactly when its id lies among `desired`, all
/// other fields untouched: the outcome a preset application converges to.
pub open spec fn reconciled(ms: Seq<ModView>, desired: Seq<Seq<char>>) -> Seq<ModView> {
    Seq::new(ms.len(), |i: int| with_active(ms[i], desired.contains(ms[i].id)))
}

/// The record's mirrored entry in the external active directory `z`.
pub open spec fn external_entry(m: ModView, z: Seq<char>) -> Seq<char> {
    z + "/"@ + m.original_name
}

/// What toggling the record asks of the file system: the external
/// directory is made to exist, and the record's entry in it is removed
/// when deactivating or copied from the canonical tree when activating.
/// Deactivation does not depend on the entry being present: removal of an
/// absent entry is already satisfied.
pub open spec fn toggle_actions(m: ModView, z: Seq<char>) -> Seq<ActionView> {
    if m.is_active {
        seq![
            (ActionView::EnsureDir { path: z }),
            (ActionView::RemoveTree { path: external_entry(m, z) }),
        ]
    } else {
        seq![
            (ActionView::EnsureDir { path: z }),
            (ActionView::CopyTree { src: m.file_path, dst: external_entry(m, z) }),
        ]
    }
}

/// What deleting the record asks of the file system: its external entry
/// goes first when the record is Active and an external directory is
/// configured (best effort: an unconfigured directory does not block the
/// deletion), and the canonical tree goes in either case.
pub open spec fn delete_actions(m: ModView, zz: Option<Seq<char>>) -> Seq<ActionView> {
    match zz {
        Some(z) => if m.is_active {
            seq![
                (ActionView::RemoveTree { path: external_entry(m, z) }),
                (ActionView::RemoveTree { path: m.file_path }),
            ]
        } else {
            seq![(ActionView::RemoveTree { path: m.file_path })]
        },
        None => seq![(ActionView::RemoveTree { path: m.file_path })],
    }
}

/// What reconciling one record against the desired set asks of the file
/// system: a copy for a record to activate, a removal for one to
/// deactivate, nothing for one already in its desired state.
pub open spec fn reconcile_step(m: ModView, desired: Seq<Seq<char>>, z: Seq<char>) -> Seq<
    ActionView,
> {
    if desired.contains(m.id) && !m.is_active {
        seq![(ActionView::CopyTree { src: m.file_path, dst: external_entry(m, z) })]
    } else if !desired.contains(m.id) && m.is_active {
        seq![(ActionView::RemoveTree { path: external_entry(m, z) })]
    } else {
        Seq::empty()
    }
}

/// The file-system work of reconciling the whole collection, record by
/// record in collection order.
pub open spec fn reconcile_actions(
    ms: Seq<ModView>,
    desired: Seq<Seq<char>>,
    z: Seq<char>,
) -> Seq<ActionView>
    decreases ms.len(),
{
    if ms.len() == 0 {
        Seq::empty()
    } else {
        reconcile_actions(ms.drop_last(), desired, z) + reconcile_step(ms.last(), desired, z)
    }
}

/// The record after a metadata update: each field the caller supplied
/// replaces the old one, each it left out stays. A supplied description or
/// thumbnail always becomes present; title, when supplied, is replaced.
pub open spec fn updated_view(
    m: ModView,
    title: Option<Seq<char>>,
    thumbnail: Option<Seq<char>>,
    description: Option<Seq<char>>,
) -> ModView {
    ModView {
        title: match title {
            Some(t) => t,
            None => m.title,
        },
        thumbnail: match thumbnail {
            Some(t) => Some(t),
            None => m.thumbnail,
        },
        description: match description {
            Some(d) => Some(d),
            None => m.description,
        },
        ..m
    }
}

/// Some preset in `ps` carries the id.
pub open spec fn has_preset(ps: Seq<PresetView>, id: Seq<char>) -> bool {
    exists|i: int| 0 <= i < ps.len() && ps[i].id == id
}

/// `i` is the position of the first preset in `ps` that carries the id.
pub open spec fn is_first_preset_idx(ps: Seq<PresetView>, id: Seq<char>, i: int) -> bool {
    &&& 0 <= i < ps.len()
    &&& ps[i].id == id
    &&& forall|j: int| 0 <= j < i ==> ps[j].id != id
}

/// `ps` without every preset that carries the id, order otherwise kept.
pub open spec fn remove_preset_id(ps: Seq<PresetView>, id: Seq<char>) -> Seq<PresetView>
    decreases ps.len(),
{
    if ps.len() == 0 {
        Seq::empty()
    } else {
        let init = remove_preset_id(ps.drop_last(), id);
        if ps.last().id == id {
            init
        } else {
            init.push(ps.last())
        }
    }
}

} // verus!
