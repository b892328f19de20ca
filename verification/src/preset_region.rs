//! Preset regions: the generator offsets, instrument and modulators of one preset zone.

use vstd::prelude::*;

use crate::error::SoundFontError;
use crate::generator::{apply_generators, spec_apply_generators, Generator};
use crate::generator_type::GeneratorType;
use crate::instrument_region::{range_high, range_low, spec_range_contains, spec_range_high, spec_range_low};
use crate::modulator::{
    merge, spec_merge, spec_validate_zone, validate_zone, Modulator, ModulatorDropCounts,
    ModulatorDropReason, ModulatorLevel,
};
use crate::zone::{lemma_zone_room_now, spec_zone_room, spec_zones_reason_count, Zone};

verus! {

/// The value a preset region's generator slot has before any zone sets it: the full
/// key and velocity ranges, and no offset for everything else.
pub open spec fn spec_default_preset_value(i: int) -> i16 {
    if i == GeneratorType::KEY_RANGE || i == GeneratorType::VELOCITY_RANGE {
        0x7F00i16
    } else {
        0i16
    }
}

/// The generator slots of a preset region before any zone sets them.
pub open spec fn spec_default_preset_gs() -> Seq<i16> {
    Seq::new(61, |i: int| spec_default_preset_value(i))
}

fn default_preset_gs() -> (gs: Vec<i16>)
    ensures
        gs@ == spec_default_preset_gs(),
{
    let mut gs: Vec<i16> = Vec::new();
    let mut i: usize = 0;
    while i < 61
        invariant
            i <= 61,
            gs@.len() == i,
            forall|k: int| 0 <= k < i ==> #[trigger] gs@[k] == spec_default_preset_value(k),
        decreases 61 - i,
    {
        let k = i as u16;
        let v: i16 = if k == GeneratorType::KEY_RANGE || k == GeneratorType::VELOCITY_RANGE {
            0x7F00
        } else {
            0
        };
        gs.push(v);
        i += 1;
    }
    assert(gs@ =~= spec_default_preset_gs());
    gs
}

proof fn lemma_apply_keeps_len(gs: Seq<i16>, generators: Seq<Generator>)
    ensures
        spec_apply_generators(gs, generators).len() == gs.len(),
    decreases generators.len(),
{
    if generators.len() > 0 {
        lemma_apply_keeps_len(gs, generators.drop_last());
    }
}

/// Represents a preset region.
/// A preset region indicates how the parameters of the instrument should be modified
/// in the preset.
#[derive(Debug)]
pub struct PresetRegion {
    /// The generator slots, indexed by generator number.
    pub gs: Vec<i16>,
    /// The instrument the region plays.
    pub instrument: usize,
    /// The region's modulators: its own, then the global zone's it does not override.
    pub modulators: Vec<Modulator>,
}

/// The generator slots of a preset region built from a global zone's generators (empty
/// when there is none) and its own zone's.
pub open spec fn spec_preset_region_gs(global: Seq<Generator>, local: Seq<Generator>) -> Seq<i16> {
    spec_apply_generators(spec_apply_generators(spec_default_preset_gs(), global), local)
}

/// `r` is the region built from these generators and merged modulators.
pub open spec fn spec_preset_region_from(
    r: PresetRegion,
    global: Seq<Generator>,
    local: Seq<Generator>,
    modulators: Seq<Modulator>,
) -> bool {
    let gs = spec_preset_region_gs(global, local);
    &&& r.gs@ == gs
    &&& r.gs@.len() == 61
    &&& r.instrument == gs[GeneratorType::INSTRUMENT as int] as usize
    &&& r.modulators@ == modulators
}

/// The first zone of a preset's span `from..to` is a global zone when its last
/// generator is not an instrument generator.
pub open spec fn spec_preset_has_global(zones: Seq<Zone>, from: int, to: int) -> bool {
    from < to && (zones[from].generators@.len() == 0 || zones[from].generators@.last().generator_type
        != GeneratorType::INSTRUMENT)
}

/// The index of the first zone of the span that becomes a region.
pub open spec fn spec_preset_first_local(zones: Seq<Zone>, from: int, to: int) -> int {
    if spec_preset_has_global(zones, from, to) {
        from + 1
    } else {
        from
    }
}

/// The generators of the span's global zone, empty when there is none.
pub open spec fn spec_preset_global_generators(zones: Seq<Zone>, from: int, to: int) -> Seq<
    Generator,
> {
    if spec_preset_has_global(zones, from, to) {
        zones[from].generators@
    } else {
        Seq::empty()
    }
}

/// The validated modulators of the span's global zone, empty when there is none.
pub open spec fn spec_preset_global_modulators(zones: Seq<Zone>, from: int, to: int) -> Seq<
    Modulator,
> {
    if spec_preset_has_global(zones, from, to) {
        spec_validate_zone(zones[from].modulators@, ModulatorLevel::Preset)
    } else {
        Seq::empty()
    }
}

/// `regions` are the regions a preset builds from the zones `from..to`: one per zone
/// after the global zone, each naming an existing instrument.
pub open spec fn spec_preset_regions_from(
    regions: Seq<PresetRegion>,
    zones: Seq<Zone>,
    from: int,
    to: int,
    instrument_count: int,
) -> bool {
    let first = spec_preset_first_local(zones, from, to);
    &&& regions.len() == to - first
    &&& forall|k: int|
        0 <= k < regions.len() ==> spec_preset_region_from(
            #[trigger] regions[k],
            spec_preset_global_generators(zones, from, to),
            zones[first + k].generators@,
            spec_merge(
                spec_preset_global_modulators(zones, from, to),
                spec_validate_zone(zones[first + k].modulators@, ModulatorLevel::Preset),
            ),
        ) && regions[k].instrument < instrument_count
}

/// The instrument the region built from zone `k` of the span `from..to` names.
pub open spec fn spec_zone_instrument(zones: Seq<Zone>, from: int, to: int, k: int) -> usize {
    spec_preset_region_gs(spec_preset_global_generators(zones, from, to), zones[k].generators@)[
        GeneratorType::INSTRUMENT as int
    ] as usize
}

/// Zone `k` of a preset's span `from..to` stops the load: the drop counts, `base` before
/// the span, cannot take its modulators, or it is a region naming an instrument that does
/// not exist.
pub open spec fn spec_preset_zone_fails(
    zones: Seq<Zone>,
    from: int,
    to: int,
    k: int,
    instrument_count: int,
    base: spec_fn(ModulatorDropReason) -> nat,
) -> bool {
    ||| !spec_zone_room(zones, from, k, ModulatorLevel::Preset, base)
    ||| k >= spec_preset_first_local(zones, from, to) && spec_zone_instrument(zones, from, to, k)
        >= instrument_count
}

/// The error zone `k` of preset `preset_id`'s span stops the load with.
pub open spec fn spec_preset_zone_error(
    zones: Seq<Zone>,
    from: int,
    to: int,
    k: int,
    preset_id: usize,
    base: spec_fn(ModulatorDropReason) -> nat,
) -> SoundFontError {
    if !spec_zone_room(zones, from, k, ModulatorLevel::Preset, base) {
        SoundFontError::InvalidZoneList
    } else {
        SoundFontError::InvalidInstrumentId {
            preset_id,
            instrument_id: spec_zone_instrument(zones, from, to, k),
        }
    }
}

impl PresetRegion {
    /// Builds a region from the global zone's generators (empty when there is none), its
    /// own zone and its already merged modulators.
    pub fn new(global: &[Generator], local: &Zone, modulators: Vec<Modulator>) -> (r: PresetRegion)
        ensures
            spec_preset_region_from(r, global@, local.generators@, modulators@),
    {
        let mut gs = default_preset_gs();
        apply_generators(&mut gs, global);
        apply_generators(&mut gs, local.generators.as_slice());
        proof {
            lemma_apply_keeps_len(spec_default_preset_gs(), global@);
            lemma_apply_keeps_len(
                spec_apply_generators(spec_default_preset_gs(), global@),
                local.generators@,
            );
        }
        let instrument = gs[GeneratorType::INSTRUMENT as usize] as usize;
        PresetRegion { gs, instrument, modulators }
    }

    /// Builds the regions of preset `preset_id` from its zones `from..to`. A first zone
    /// without a trailing instrument generator is the global zone. A region naming an
    /// instrument that does not exist fails the load.
    pub fn create(
        preset_id: usize,
        zones: &[Zone],
        from: usize,
        to: usize,
        instrument_count: usize,
        counts: &mut ModulatorDropCounts,
    ) -> (r: Result<Vec<PresetRegion>, SoundFontError>)
        requires
            from <= to <= zones@.len(),
        ensures
            r is Err <==> exists|k: int|
                from <= k < to && #[trigger] spec_preset_zone_fails(
                    zones@,
                    from as int,
                    to as int,
                    k,
                    instrument_count as int,
                    old(counts).counts(),
                ),
            r is Err ==> exists|k: int|
                from <= k < to && #[trigger] spec_preset_zone_fails(
                    zones@,
                    from as int,
                    to as int,
                    k,
                    instrument_count as int,
                    old(counts).counts(),
                ) && (forall|j: int|
                    from <= j < k ==> !spec_preset_zone_fails(
                        zones@,
                        from as int,
                        to as int,
                        j,
                        instrument_count as int,
                        old(counts).counts(),
                    )) && r->Err_0 == spec_preset_zone_error(
                    zones@,
                    from as int,
                    to as int,
                    k,
                    preset_id,
                    old(counts).counts(),
                ),
            r is Ok ==> spec_preset_regions_from(
                r->Ok_0@,
                zones@,
                from as int,
                to as int,
                instrument_count as int,
            ) && forall|reason: ModulatorDropReason|
                #[trigger] final(counts).count_of(reason) == old(counts).count_of(reason)
                    + spec_zones_reason_count(
                    zones@,
                    from as int,
                    to as int,
                    ModulatorLevel::Preset,
                    reason,
                ),
    {
        let ghost z = zones@;
        let ghost base = old(counts).counts();
        let mut regions: Vec<PresetRegion> = Vec::new();
        if from == to {
            return Ok(regions);
        }
        let has_global = zones[from].generators.len() == 0 || zones[from].generators[zones[from].generators.len()
            - 1].generator_type != GeneratorType::INSTRUMENT;
        assert(has_global == spec_preset_has_global(z, from as int, to as int));
        let empty_generators: Vec<Generator> = Vec::new();
        let global_generators: &[Generator] = if has_global {
            zones[from].generators.as_slice()
        } else {
            empty_generators.as_slice()
        };
        let first: usize = if has_global {
            from + 1
        } else {
            from
        };
        let global_modulators: Vec<Modulator> = if has_global {
            proof {
                lemma_zone_room_now(*counts, base, z, from as int, from as int, ModulatorLevel::Preset);
            }
            if !counts.has_room(zones[from].modulators.len()) {
                assert(spec_preset_zone_fails(
                    z,
                    from as int,
                    to as int,
                    from as int,
                    instrument_count as int,
                    base,
                ));
                return Err(SoundFontError::InvalidZoneList);
            }
            assert(!spec_preset_zone_fails(
                z,
                from as int,
                to as int,
                from as int,
                instrument_count as int,
                base,
            ));
            validate_zone(zones[from].modulators.as_slice(), ModulatorLevel::Preset, counts)
        } else {
            Vec::new()
        };
        assert(global_generators@ == spec_preset_global_generators(z, from as int, to as int));
        assert(global_modulators@ == spec_preset_global_modulators(z, from as int, to as int));
        assert forall|reason: ModulatorDropReason| #[trigger] counts.count_of(reason) == old(
            counts,
        ).count_of(reason) + spec_zones_reason_count(
            z,
            from as int,
            first as int,
            ModulatorLevel::Preset,
            reason,
        ) by {
            reveal_with_fuel(spec_zones_reason_count, 2);
        }
        let mut i: usize = first;
        while i < to
            invariant
                from <= first <= i <= to,
                to <= z.len(),
                z == zones@,
                first == spec_preset_first_local(z, from as int, to as int),
                global_generators@ == spec_preset_global_generators(z, from as int, to as int),
                global_modulators@ == spec_preset_global_modulators(z, from as int, to as int),
                regions@.len() == i - first,
                base == old(counts).counts(),
                forall|k: int|
                    from <= k < i ==> !#[trigger] spec_preset_zone_fails(
                        z,
                        from as int,
                        to as int,
                        k,
                        instrument_count as int,
                        base,
                    ),
                forall|k: int|
                    0 <= k < regions@.len() ==> spec_preset_region_from(
                        #[trigger] regions@[k],
                        spec_preset_global_generators(z, from as int, to as int),
                        z[first + k].generators@,
                        spec_merge(
                            spec_preset_global_modulators(z, from as int, to as int),
                            spec_validate_zone(z[first + k].modulators@, ModulatorLevel::Preset),
                        ),
                    ) && regions@[k].instrument < instrument_count,
                forall|reason: ModulatorDropReason|
                    #[trigger] counts.count_of(reason) == old(counts).count_of(reason)
                        + spec_zones_reason_count(
                        z,
                        from as int,
                        i as int,
                        ModulatorLevel::Preset,
                        reason,
                    ),
            decreases to - i,
        {
            let zone = &zones[i];
            proof {
                lemma_zone_room_now(*counts, base, z, from as int, i as int, ModulatorLevel::Preset);
            }
            if !counts.has_room(zone.modulators.len()) {
                assert(spec_preset_zone_fails(
                    z,
                    from as int,
                    to as int,
                    i as int,
                    instrument_count as int,
                    base,
                ));
                return Err(SoundFontError::InvalidZoneList);
            }
            let local_modulators = validate_zone(
                zone.modulators.as_slice(),
                ModulatorLevel::Preset,
                counts,
            );
            let merged = merge(global_modulators.as_slice(), local_modulators);
            let region = PresetRegion::new(global_generators, zone, merged);
            assert(region.instrument == spec_zone_instrument(z, from as int, to as int, i as int));
            if region.instrument >= instrument_count {
                assert(first <= i < to && z[i as int].generators@ == zone.generators@);
                assert(spec_preset_zone_fails(
                    z,
                    from as int,
                    to as int,
                    i as int,
                    instrument_count as int,
                    base,
                ));
                return Err(
                    SoundFontError::InvalidInstrumentId {
                        preset_id,
                        instrument_id: region.instrument,
                    },
                );
            }
            assert(!spec_preset_zone_fails(
                z,
                from as int,
                to as int,
                i as int,
                instrument_count as int,
                base,
            ));
            regions.push(region);
            i += 1;
        }
        Ok(regions)
    }

    /// The region has a slot for every generator.
    pub open spec fn wf(&self) -> bool {
        self.gs@.len() == 61
    }

    /// The index of the instrument the region plays.
    pub fn get_instrument_id(&self) -> (r: usize)
        ensures
            r == self.instrument,
    {
        self.instrument
    }

    /// The generator slot (a relative offset) for a generator number.
    pub fn generator(&self, generator: u16) -> (r: i16)
        requires
            self.wf(),
            generator < 61,
        ensures
            r == self.gs@[generator as int],
    {
        self.gs[generator as usize]
    }

    /// The lowest key of the region.
    pub fn get_key_range_start(&self) -> (r: i32)
        requires
            self.wf(),
        ensures
            r == spec_range_low(self.gs@[GeneratorType::KEY_RANGE as int]),
    {
        range_low(self.gs[GeneratorType::KEY_RANGE as usize])
    }

    /// The highest key of the region.
    pub fn get_key_range_end(&self) -> (r: i32)
        requires
            self.wf(),
        ensures
            r == spec_range_high(self.gs@[GeneratorType::KEY_RANGE as int]),
    {
        range_high(self.gs[GeneratorType::KEY_RANGE as usize])
    }

    /// The lowest velocity of the region.
    pub fn get_velocity_range_start(&self) -> (r: i32)
        requires
            self.wf(),
        ensures
            r == spec_range_low(self.gs@[GeneratorType::VELOCITY_RANGE as int]),
    {
        range_low(self.gs[GeneratorType::VELOCITY_RANGE as usize])
    }

    /// The highest velocity of the region.
    pub fn get_velocity_range_end(&self) -> (r: i32)
        requires
            self.wf(),
        ensures
            r == spec_range_high(self.gs@[GeneratorType::VELOCITY_RANGE as int]),
    {
        range_high(self.gs[GeneratorType::VELOCITY_RANGE as usize])
    }

    /// True when the region plays this key at this velocity.
    pub fn contains(&self, key: i32, velocity: i32) -> (r: bool)
        requires
            self.wf(),
        ensures
            r == (spec_range_contains(self.gs@[GeneratorType::KEY_RANGE as int], key as int)
                && spec_range_contains(
                self.gs@[GeneratorType::VELOCITY_RANGE as int],
                velocity as int,
            )),
    {
        let contains_key = self.get_key_range_start() <= key && key <= self.get_key_range_end();
        let contains_velocity = self.get_velocity_range_start() <= velocity && velocity
            <= self.get_velocity_range_end();
        contains_key && contains_velocity
    }
}

} // verus!
