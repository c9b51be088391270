//! The read-only statistics projection over the two collections.

use vstd::prelude::*;
use crate::model::count_active;
use crate::types::{Mod, ModStats, Preset};

verus! {

/// Counts over the collections: how many mods are installed, how many of
/// them are Active and Inactive, and how many presets exist. A pure
/// projection with no side effect.
pub fn mod_stats(mods: &Vec<Mod>, presets: &Vec<Preset>) -> (s: ModStats)
    ensures
        s.installed_mods == mods.deep_view().len(),
        s.active_mods == count_active(mods.deep_view()),
        s.installed_mods == s.active_mods + s.inactive_mods,
        s.presets == presets.deep_view().len(),
{
    let ghost ms = mods.deep_view();
    let installed = mods.len();
    let mut active: usize = 0;
    let mut i: usize = 0;
    while i < mods.len()
        invariant
            i <= mods.len(),
            ms == mods.deep_view(),
            active <= i,
            active == count_active(ms.take(i as int)),
        decreases mods.len() - i,
    {
        proof {
            assert(ms.take(i as int + 1).drop_last() =~= ms.take(i as int));
            assert(ms.take(i as int + 1).last() == ms[i as int]);
        }
        if mods[i].is_active {
            active += 1;
        }
        i += 1;
    }
    proof {
        assert(ms.take(ms.len() as int) =~= ms);
    }
    ModStats {
        installed_mods: installed,
        active_mods: active,
        inactive_mods: installed - active,
        presets: presets.len(),
    }
}

} // verus!
