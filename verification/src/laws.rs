//! The laws the collection model obeys: id uniqueness survives every
//! install, a double toggle is the identity, reconciliation converges the
//! active set exactly onto the desired one, and a removed id is gone.

use vstd::prelude::*;
use crate::model::{
    active_ids, all_ids, distinct_ids, external_entry, flip_at, has_mod, is_first_mod_idx,
    reconciled, remove_mod_id, toggle_actions, upsert_rel, with_active,
};
use crate::types::{ActionView, ModView};

verus! {

/// Uniqueness: a collection whose ids are pairwise distinct keeps them so
/// under the store's insert-or-replace step, whatever id the new record
/// carries. Since every install and every metadata write goes through that
/// step and the collection starts empty, the ids stay pairwise distinct
/// after any sequence of installs.
pub proof fn lemma_upsert_preserves_distinct_ids(ms: Seq<ModView>, m: ModView, r: Seq<ModView>)
    requires
        distinct_ids(ms),
        upsert_rel(ms, m, r),
    ensures
        distinct_ids(r),
{
    if has_mod(ms, m.id) {
        let i = choose|i: int| is_first_mod_idx(ms, m.id, i) && r == ms.update(i, m);
        assert forall|a: int, b: int| 0 <= a < b < r.len() implies r[a].id != r[b].id by {
            if a == i {
                assert(r[a].id == ms[i].id);
                assert(ms[i].id != ms[b].id);
            } else if b == i {
                assert(r[b].id == ms[i].id);
                assert(ms[a].id != ms[i].id);
            } else {
                assert(ms[a].id != ms[b].id);
            }
        };
    } else {
        assert forall|a: int, b: int| 0 <= a < b < r.len() implies r[a].id != r[b].id by {
            if b == ms.len() {
                if ms[a].id == m.id {
                    assert(has_mod(ms, m.id));
                }
            } else {
                assert(ms[a].id != ms[b].id);
            }
        };
    }
}

/// Toggle round-trip: flipping the same record twice returns the
/// collection to exactly its original value; and when the first toggle
/// activated the record, the second one's file-system work removes the
/// record's entry from the external directory.
pub proof fn lemma_toggle_round_trip(ms: Seq<ModView>, i: int, z: Seq<char>)
    requires
        0 <= i < ms.len(),
    ensures
        flip_at(flip_at(ms, i), i) == ms,
        !ms[i].is_active ==> toggle_actions(flip_at(ms, i)[i], z) == seq![
            (ActionView::EnsureDir { path: z }),
            (ActionView::RemoveTree { path: external_entry(ms[i], z) }),
        ],
{
    assert(flip_at(ms, i)[i] =~= with_active(ms[i], !ms[i].is_active));
    assert(flip_at(flip_at(ms, i), i) =~= ms);
    if !ms[i].is_active {
        assert(toggle_actions(flip_at(ms, i)[i], z) =~= seq![
            (ActionView::EnsureDir { path: z }),
            (ActionView::RemoveTree { path: external_entry(ms[i], z) }),
        ]);
    }
}

/// Reconciliation convergence: after reconciling against a desired id
/// list, the set of Active ids is exactly the desired ids intersected
/// with the ids of the records that exist; desired ids with no record are
/// skipped, everything else is left untouched.
pub proof fn lemma_reconcile_converges(ms: Seq<ModView>, desired: Seq<Seq<char>>)
    ensures
        active_ids(reconciled(ms, desired)) == desired.to_set().intersect(all_ids(ms)),
{
    let rec = reconciled(ms, desired);
    assert forall|id: Seq<char>| active_ids(rec).contains(id) implies desired.to_set().contains(id)
        && all_ids(ms).contains(id) by {
        let i = choose|i: int| 0 <= i < rec.len() && rec[i].id == id && rec[i].is_active;
        assert(rec[i] == with_active(ms[i], desired.contains(ms[i].id)));
        assert(ms[i].id == id);
        assert(desired.contains(id));
        assert(has_mod(ms, id));
    };
    assert forall|id: Seq<char>|
        desired.to_set().contains(id) && all_ids(ms).contains(id) implies active_ids(rec).contains(
        id,
    ) by {
        let i = choose|i: int| 0 <= i < ms.len() && ms[i].id == id;
        assert(rec[i] == with_active(ms[i], desired.contains(ms[i].id)));
        assert(rec[i].id == id && rec[i].is_active);
    };
    assert(active_ids(rec) =~= desired.to_set().intersect(all_ids(ms)));
}

/// Removal is complete: after dropping an id from the collection, no
/// record carries it any more. Together with the delete operation's
/// contract, a deleted mod is gone from every later listing.
pub proof fn lemma_remove_mod_id_absent(ms: Seq<ModView>, id: Seq<char>)
    ensures
        !has_mod(remove_mod_id(ms, id), id),
    decreases ms.len(),
{
    if ms.len() == 0 {
    } else {
        lemma_remove_mod_id_absent(ms.drop_last(), id);
        let init = remove_mod_id(ms.drop_last(), id);
        if ms.last().id == id {
        } else {
            let r = init.push(ms.last());
            assert forall|j: int| 0 <= j < r.len() implies r[j].id != id by {
                if j < init.len() {
                    if init[j].id == id {
                        assert(has_mod(init, id));
                    }
                } else {
                    assert(r[j] == ms.last());
                }
            };
        }
    }
}

} // verus!
