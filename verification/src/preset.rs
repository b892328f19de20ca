//! Presets: named, numbered lists of preset regions.

use vstd::prelude::*;

use crate::error::SoundFontError;
use crate::modulator::{ModulatorDropCounts, ModulatorDropReason, ModulatorLevel};
use crate::preset_info::PresetInfo;
use crate::preset_region::{
    spec_preset_regions_from,
    spec_preset_zone_error,
    spec_preset_zone_fails,
    PresetRegion,
};
use crate::zone::{spec_zones_reason_count, Zone};

verus! {

/// Represents a preset in the SoundFont.
#[derive(Debug)]
pub struct Preset {
    pub name: String,
    pub patch_number: i32,
    pub bank_number: i32,
    pub library: i32,
    pub genre: i32,
    pub morphology: i32,
    pub regions: Vec<PresetRegion>,
}

/// The number of zones a preset header spans.
pub open spec fn spec_preset_zone_count(info: PresetInfo) -> int {
    info.zone_end_index - info.zone_start_index + 1
}

/// The preset header's zone span lies inside the zone list.
pub open spec fn spec_preset_span_ok(info: PresetInfo, zones_len: int) -> bool {
    0 <= info.zone_start_index && 0 <= spec_preset_zone_count(info) && info.zone_start_index
        + spec_preset_zone_count(info) <= zones_len
}

/// How many modulators the first `n` presets' zones drop for `reason`.
pub open spec fn spec_presets_reason_count(
    infos: Seq<PresetInfo>,
    zones: Seq<Zone>,
    n: int,
    reason: ModulatorDropReason,
) -> nat
    decreases n,
{
    if n <= 0 {
        0
    } else {
        let info = infos[n - 1];
        spec_presets_reason_count(infos, zones, n - 1, reason) + spec_zones_reason_count(
            zones,
            info.zone_start_index as int,
            info.zone_start_index + spec_preset_zone_count(info),
            ModulatorLevel::Preset,
            reason,
        )
    }
}

/// `preset` is the preset built from header `info`.
pub open spec fn spec_preset_from(
    preset: Preset,
    info: PresetInfo,
    zones: Seq<Zone>,
    instrument_count: int,
) -> bool {
    &&& preset.name@ == info.name@
    &&& preset.patch_number == info.patch_number
    &&& preset.bank_number == info.bank_number
    &&& preset.library == info.library
    &&& preset.genre == info.genre
    &&& preset.morphology == info.morphology
    &&& spec_preset_regions_from(
        preset.regions@,
        zones,
        info.zone_start_index as int,
        info.zone_start_index + spec_preset_zone_count(info),
        instrument_count,
    )
}

/// The drop counts before preset `i`'s zones are validated, when they were `base` before
/// the first preset's.
pub open spec fn spec_preset_base(
    infos: Seq<PresetInfo>,
    zones: Seq<Zone>,
    i: int,
    base: spec_fn(ModulatorDropReason) -> nat,
) -> spec_fn(ModulatorDropReason) -> nat {
    |reason: ModulatorDropReason| base(reason) + spec_presets_reason_count(infos, zones, i, reason)
}

/// Zone `k` of preset `i`'s span stops the load (see `spec_preset_zone_fails`).
pub open spec fn spec_preset_fails_at(
    infos: Seq<PresetInfo>,
    zones: Seq<Zone>,
    i: int,
    k: int,
    instrument_count: int,
    base: spec_fn(ModulatorDropReason) -> nat,
) -> bool {
    let from = infos[i].zone_start_index as int;
    let to = infos[i].zone_start_index + spec_preset_zone_count(infos[i]);
    from <= k < to && spec_preset_zone_fails(
        zones,
        from,
        to,
        k,
        instrument_count,
        spec_preset_base(infos, zones, i, base),
    )
}

/// Some zone of preset `i`'s span stops the load.
pub open spec fn spec_preset_fails(
    infos: Seq<PresetInfo>,
    zones: Seq<Zone>,
    i: int,
    instrument_count: int,
    base: spec_fn(ModulatorDropReason) -> nat,
) -> bool {
    exists|k: int| #[trigger] spec_preset_fails_at(infos, zones, i, k, instrument_count, base)
}

impl Preset {
    /// Builds every preset of the PHDR list (whose last record is the terminator). Each
    /// region must name one of the `instrument_count` instruments.
    pub fn create(
        infos: &[PresetInfo],
        zones: &[Zone],
        instrument_count: usize,
        counts: &mut ModulatorDropCounts,
    ) -> (r: Result<Vec<Preset>, SoundFontError>)
        ensures
            infos@.len() <= 1 ==> r is Err && r->Err_0 == SoundFontError::PresetNotFound,
            infos@.len() > 1 && (exists|i: int|
                0 <= i < infos@.len() - 1 && !spec_preset_span_ok(
                    #[trigger] infos@[i],
                    zones@.len() as int,
                )) ==> r is Err && {
                let k = r->Err_0->InvalidPreset_0 as int;
                &&& r->Err_0 is InvalidPreset
                &&& 0 <= k < infos@.len() - 1
                &&& !spec_preset_span_ok(infos@[k], zones@.len() as int)
                &&& forall|j: int|
                    0 <= j < k ==> spec_preset_span_ok(#[trigger] infos@[j], zones@.len() as int)
            },
            infos@.len() > 1 && (forall|i: int|
                0 <= i < infos@.len() - 1 ==> spec_preset_span_ok(
                    #[trigger] infos@[i],
                    zones@.len() as int,
                )) ==> {
                &&& r is Ok <==> forall|i: int|
                    0 <= i < infos@.len() - 1 ==> !#[trigger] spec_preset_fails(
                        infos@,
                        zones@,
                        i,
                        instrument_count as int,
                        old(counts).counts(),
                    )
                &&& r is Err ==> exists|i: int, k: int|
                    0 <= i < infos@.len() - 1 && #[trigger] spec_preset_fails_at(
                        infos@,
                        zones@,
                        i,
                        k,
                        instrument_count as int,
                        old(counts).counts(),
                    ) && (forall|j: int|
                        0 <= j < i ==> !#[trigger] spec_preset_fails(
                            infos@,
                            zones@,
                            j,
                            instrument_count as int,
                            old(counts).counts(),
                        )) && (forall|j: int|
                        infos@[i].zone_start_index <= j < k ==> !#[trigger] spec_preset_fails_at(
                            infos@,
                            zones@,
                            i,
                            j,
                            instrument_count as int,
                            old(counts).counts(),
                        )) && r->Err_0 == spec_preset_zone_error(
                        zones@,
                        infos@[i].zone_start_index as int,
                        infos@[i].zone_start_index + spec_preset_zone_count(infos@[i]),
                        k,
                        i as usize,
                        spec_preset_base(infos@, zones@, i, old(counts).counts()),
                    )
            },
            r is Ok ==> {
                &&& infos@.len() > 1
                &&& r->Ok_0@.len() == infos@.len() - 1
                &&& forall|i: int|
                    0 <= i < r->Ok_0@.len() ==> spec_preset_span_ok(infos@[i], zones@.len() as int)
                        && spec_preset_from(
                        #[trigger] r->Ok_0@[i],
                        infos@[i],
                        zones@,
                        instrument_count as int,
                    )
                &&& forall|reason: ModulatorDropReason|
                    #[trigger] final(counts).count_of(reason) == old(counts).count_of(reason)
                        + spec_presets_reason_count(infos@, zones@, infos@.len() - 1, reason)
            },
    {
        if infos.len() <= 1 {
            return Err(SoundFontError::PresetNotFound);
        }
        // The last one is the terminator.
        let count = infos.len() - 1;
        let mut k: usize = 0;
        while k < count
            invariant
                k <= count,
                count == infos@.len() - 1,
                forall|t: int|
                    0 <= t < k ==> spec_preset_span_ok(#[trigger] infos@[t], zones@.len() as int),
            decreases count - k,
        {
            let info = &infos[k];
            let start = info.zone_start_index;
            let zone_count = info.zone_end_index as i64 - start as i64 + 1;
            if start < 0 || zone_count < 0 || start as u64 + zone_count as u64 > zones.len() as u64 {
                assert(!spec_preset_span_ok(infos@[k as int], zones@.len() as int));
                let e = SoundFontError::InvalidPreset(k);
                assert(e->InvalidPreset_0 == k);
                return Err(e);
            }
            k += 1;
        }

        let mut presets: Vec<Preset> = Vec::new();
        let mut i: usize = 0;
        while i < count
            invariant
                i <= count,
                count == infos@.len() - 1,
                forall|t: int|
                    0 <= t < count ==> spec_preset_span_ok(#[trigger] infos@[t], zones@.len() as int),
                presets@.len() == i,
                forall|t: int|
                    0 <= t < i ==> spec_preset_from(
                        #[trigger] presets@[t],
                        infos@[t],
                        zones@,
                        instrument_count as int,
                    ),
                forall|reason: ModulatorDropReason|
                    #[trigger] counts.count_of(reason) == old(counts).count_of(reason)
                        + spec_presets_reason_count(infos@, zones@, i as int, reason),
                forall|t: int|
                    0 <= t < i ==> !#[trigger] spec_preset_fails(
                        infos@,
                        zones@,
                        t,
                        instrument_count as int,
                        old(counts).counts(),
                    ),
            decreases count - i,
        {
            let info = &infos[i];
            assert(spec_preset_span_ok(infos@[i as int], zones@.len() as int));
            let from = info.zone_start_index as usize;
            let zone_count = info.zone_end_index as i64 - info.zone_start_index as i64 + 1;
            let to = from + zone_count as usize;
            let ghost base_i = spec_preset_base(infos@, zones@, i as int, old(counts).counts());
            assert(counts.counts() =~= base_i);
            let regions = match PresetRegion::create(i, zones, from, to, instrument_count, counts) {
                Ok(regions) => {
                    assert forall|k: int|
                        !#[trigger] spec_preset_fails_at(
                            infos@,
                            zones@,
                            i as int,
                            k,
                            instrument_count as int,
                            old(counts).counts(),
                        ) by {}
                    regions
                },
                Err(e) => {
                    let ghost k = choose|k: int|
                        from <= k < to && #[trigger] spec_preset_zone_fails(
                            zones@,
                            from as int,
                            to as int,
                            k,
                            instrument_count as int,
                            base_i,
                        ) && (forall|j: int|
                            from <= j < k ==> !spec_preset_zone_fails(
                                zones@,
                                from as int,
                                to as int,
                                j,
                                instrument_count as int,
                                base_i,
                            )) && e == spec_preset_zone_error(
                            zones@,
                            from as int,
                            to as int,
                            k,
                            i,
                            base_i,
                        );
                    assert(spec_preset_fails_at(
                        infos@,
                        zones@,
                        i as int,
                        k,
                        instrument_count as int,
                        old(counts).counts(),
                    ));
                    assert(spec_preset_fails(
                        infos@,
                        zones@,
                        i as int,
                        instrument_count as int,
                        old(counts).counts(),
                    ));
                    assert forall|j: int|
                        infos@[i as int].zone_start_index <= j < k implies !#[trigger] spec_preset_fails_at(
                        infos@,
                        zones@,
                        i as int,
                        j,
                        instrument_count as int,
                        old(counts).counts(),
                    ) by {}
                    return Err(e);
                },
            };
            presets.push(
                Preset {
                    name: info.name.clone(),
                    patch_number: info.patch_number,
                    bank_number: info.bank_number,
                    library: info.library,
                    genre: info.genre,
                    morphology: info.morphology,
                    regions,
                },
            );
            i += 1;
        }
        Ok(presets)
    }

    /// Gets the name of the preset.
    pub fn get_name(&self) -> (r: &str)
        ensures
            r@ == self.name@,
    {
        self.name.as_str()
    }

    /// Gets the patch number of the preset.
    pub fn get_patch_number(&self) -> (r: i32)
        ensures
            r == self.patch_number,
    {
        self.patch_number
    }

    /// Gets the bank number of the preset.
    pub fn get_bank_number(&self) -> (r: i32)
        ensures
            r == self.bank_number,
    {
        self.bank_number
    }

    /// Gets the library ID of the preset.
    pub fn get_library(&self) -> (r: i32)
        ensures
            r == self.library,
    {
        self.library
    }

    /// Gets the genre ID of the preset.
    pub fn get_genre(&self) -> (r: i32)
        ensures
            r == self.genre,
    {
        self.genre
    }

    /// Gets the morphology ID of the preset.
    pub fn get_morphology(&self) -> (r: i32)
        ensures
            r == self.morphology,
    {
        self.morphology
    }

    /// Gets the regions of the preset.
    pub fn get_regions(&self) -> (r: &[PresetRegion])
        ensures
            r@ == self.regions@,
    {
        self.regions.as_slice()
    }
}

} // verus!
