//! Finding the preset a channel plays: by bank and patch number, then in the GM sound
//! set, then the default preset.

use std::collections::HashMap;

use vstd::prelude::*;

use crate::preset::Preset;

verus! {

broadcast use vstd::std_specs::hash::group_hash_axioms;

/// The identifier of a bank and patch: the bank in the upper 16 bits, the patch in the
/// lower ones.
pub open spec fn spec_preset_id(bank: i32, patch: i32) -> i32 {
    (bank << 16u32) | patch
}

/// The identifier of a bank and patch.
pub fn preset_id(bank: i32, patch: i32) -> (r: i32)
    ensures
        r == spec_preset_id(bank, patch),
{
    (bank << 16u32) | patch
}

/// The identifiers of the presets, in order.
pub open spec fn spec_preset_ids(presets: Seq<Preset>) -> Seq<i32> {
    Seq::new(presets.len(), |i: int| spec_preset_id(presets[i].bank_number, presets[i].patch_number))
}

/// The map from identifier to preset index: where two presets share an identifier, the
/// later one is found.
pub open spec fn spec_id_map(ids: Seq<i32>) -> Map<i32, usize>
    decreases ids.len(),
{
    if ids.len() == 0 {
        Map::empty()
    } else {
        spec_id_map(ids.drop_last()).insert(ids.last(), (ids.len() - 1) as usize)
    }
}

/// `d` is the default preset: the first of those with the smallest identifier, or 0 when
/// there is no preset.
pub open spec fn spec_is_default(ids: Seq<i32>, d: usize) -> bool {
    if ids.len() == 0 {
        d == 0
    } else {
        &&& d < ids.len()
        &&& forall|j: int| 0 <= j < ids.len() ==> ids[d as int] <= #[trigger] ids[j]
        &&& forall|j: int| 0 <= j < d ==> ids[d as int] < #[trigger] ids[j]
    }
}

/// The preset found for a bank and patch: the one with their identifier; failing that,
/// the patch in bank 0 for a melodic bank (below 128) or the standard drum set 128:0 for a
/// drum bank; failing that, the default preset.
pub open spec fn spec_find(m: Map<i32, usize>, default_preset: usize, bank: i32, patch: i32) -> usize {
    let id = spec_preset_id(bank, patch);
    let gm_id = if bank < 128 {
        patch
    } else {
        spec_preset_id(128, 0)
    };
    if m.contains_key(id) {
        m[id]
    } else if m.contains_key(gm_id) {
        m[gm_id]
    } else {
        default_preset
    }
}

/// The presets of a SoundFont, indexed by bank and patch number.
pub struct PresetLookup {
    ids: HashMap<i32, usize>,
    default_preset: usize,
}

/// The map's values are indices below `n`.
pub open spec fn spec_indices_below(m: Map<i32, usize>, n: int) -> bool {
    forall|k: i32| m.contains_key(k) ==> #[trigger] m[k] < n
}

proof fn lemma_id_map_below(ids: Seq<i32>)
    ensures
        spec_indices_below(spec_id_map(ids), ids.len() as int),
    decreases ids.len(),
{
    if ids.len() > 0 {
        lemma_id_map_below(ids.drop_last());
    }
}

proof fn lemma_id_map_last(ids: Seq<i32>, i: int)
    requires
        0 <= i < ids.len(),
        ids.len() <= usize::MAX,
        forall|j: int| i < j < ids.len() ==> ids[j] != ids[i],
    ensures
        spec_id_map(ids).contains_key(ids[i]),
        spec_id_map(ids)[ids[i]] == i,
    decreases ids.len(),
{
    if i < ids.len() - 1 {
        let prefix = ids.drop_last();
        assert forall|j: int| i < j < prefix.len() implies prefix[j] != prefix[i] by {
            assert(prefix[j] == ids[j]);
        }
        lemma_id_map_last(prefix, i);
        assert(ids[ids.len() - 1] != ids[i]);
    }
}

impl PresetLookup {
    /// The map from identifier to preset index.
    pub closed spec fn map(&self) -> Map<i32, usize> {
        self.ids@
    }

    /// The preset used when nothing else is found.
    pub closed spec fn default_index(&self) -> usize {
        self.default_preset
    }

    /// Indexes the presets.
    pub fn new(presets: &[Preset]) -> (r: PresetLookup)
        ensures
            r.map() == spec_id_map(spec_preset_ids(presets@)),
            spec_is_default(spec_preset_ids(presets@), r.default_index()),
    {
        let ghost ids = spec_preset_ids(presets@);
        let mut map: HashMap<i32, usize> = HashMap::new();
        let mut min_preset_id: i32 = i32::MAX;
        let mut default_preset: usize = 0;
        let mut i: usize = 0;
        while i < presets.len()
            invariant
                i <= presets@.len(),
                ids == spec_preset_ids(presets@),
                map@ == spec_id_map(ids.take(i as int)),
                i == 0 ==> default_preset == 0 && min_preset_id == i32::MAX,
                i > 0 ==> spec_is_default(ids.take(i as int), default_preset) && min_preset_id
                    == ids[default_preset as int],
            decreases presets@.len() - i,
        {
            let id = preset_id(presets[i].bank_number, presets[i].patch_number);
            assert(ids.take(i + 1).drop_last() == ids.take(i as int));
            map.insert(id, i);
            if i == 0 || id < min_preset_id {
                default_preset = i;
                min_preset_id = id;
            }
            i += 1;
            assert forall|j: int| 0 <= j < i implies ids.take(i as int)[j] == ids[j] by {}
        }
        assert(ids.take(presets@.len() as int) == ids);
        PresetLookup { ids: map, default_preset }
    }

    /// The index of the preset a channel with this bank and patch number plays.
    pub fn find(&self, bank: i32, patch: i32) -> (r: usize)
        ensures
            r == spec_find(self.map(), self.default_index(), bank, patch),
    {
        let id = preset_id(bank, patch);
        match self.ids.get(&id) {
            Some(value) => *value,
            None => {
                let gm_id = if bank < 128 {
                    patch
                } else {
                    preset_id(128, 0)
                };
                match self.ids.get(&gm_id) {
                    Some(value) => *value,
                    None => self.default_preset,
                }
            },
        }
    }
}

/// Every index the lookup gives is a preset of the SoundFont it was made from.
pub proof fn law_found_preset_exists(presets: Seq<Preset>, lookup: PresetLookup, bank: i32, patch: i32)
    requires
        presets.len() > 0,
        lookup.map() == spec_id_map(spec_preset_ids(presets)),
        spec_is_default(spec_preset_ids(presets), lookup.default_index()),
    ensures
        spec_find(lookup.map(), lookup.default_index(), bank, patch) < presets.len(),
{
    lemma_id_map_below(spec_preset_ids(presets));
}

/// A bank and patch that a preset has is found as the last preset that has them.
pub proof fn law_find_exact(presets: Seq<Preset>, lookup: PresetLookup, i: int)
    requires
        0 <= i < presets.len(),
        presets.len() <= usize::MAX,
        lookup.map() == spec_id_map(spec_preset_ids(presets)),
        forall|j: int|
            i < j < presets.len() ==> spec_preset_id(
                #[trigger] presets[j].bank_number,
                presets[j].patch_number,
            ) != spec_preset_id(presets[i].bank_number, presets[i].patch_number),
    ensures
        spec_find(
            lookup.map(),
            lookup.default_index(),
            presets[i].bank_number,
            presets[i].patch_number,
        ) == i,
{
    let ids = spec_preset_ids(presets);
    assert forall|j: int| i < j < ids.len() implies ids[j] != ids[i] by {
        assert(presets[j].bank_number == presets[j].bank_number);
    }
    lemma_id_map_last(ids, i);
}

} // verus!
