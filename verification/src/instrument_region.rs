//! Instrument regions: the generator values, sample and modulators of one instrument zone.

use vstd::prelude::*;

use crate::error::SoundFontError;
use crate::generator::{apply_generators, spec_apply_generators, Generator};
use crate::generator_type::GeneratorType;
use crate::loop_mode::{loop_mode_from, spec_loop_mode, LoopMode};
use crate::modulator::{
    merge, spec_merge, spec_reason_count, spec_validate_zone, validate_zone, Modulator,
    ModulatorDropCounts, ModulatorDropReason, ModulatorLevel,
};
use crate::sample_header::SampleHeader;
use crate::zone::{lemma_zone_room_now, spec_zone_room, spec_zones_reason_count, spec_zones_room, Zone};

verus! {

/// The value an instrument region's generator slot has before any zone sets it.
pub open spec fn spec_default_instrument_value(i: int) -> i16 {
    if i == GeneratorType::INITIAL_FILTER_CUTOFF_FREQUENCY {
        13500i16
    } else if i == GeneratorType::DELAY_MODULATION_LFO || i == GeneratorType::DELAY_VIBRATO_LFO
        || i == GeneratorType::DELAY_MODULATION_ENVELOPE || i
        == GeneratorType::ATTACK_MODULATION_ENVELOPE || i == GeneratorType::HOLD_MODULATION_ENVELOPE
        || i == GeneratorType::DECAY_MODULATION_ENVELOPE || i
        == GeneratorType::RELEASE_MODULATION_ENVELOPE || i == GeneratorType::DELAY_VOLUME_ENVELOPE
        || i == GeneratorType::ATTACK_VOLUME_ENVELOPE || i == GeneratorType::HOLD_VOLUME_ENVELOPE
        || i == GeneratorType::DECAY_VOLUME_ENVELOPE || i == GeneratorType::RELEASE_VOLUME_ENVELOPE {
        -12000i16
    } else if i == GeneratorType::KEY_RANGE || i == GeneratorType::VELOCITY_RANGE {
        0x7F00i16
    } else if i == GeneratorType::KEY_NUMBER || i == GeneratorType::VELOCITY || i
        == GeneratorType::OVERRIDING_ROOT_KEY {
        -1i16
    } else if i == GeneratorType::SCALE_TUNING {
        100i16
    } else {
        0i16
    }
}

/// The generator slots of an instrument region before any zone sets them.
pub open spec fn spec_default_instrument_gs() -> Seq<i16> {
    Seq::new(61, |i: int| spec_default_instrument_value(i))
}

/// The generator slots of an instrument region built from a global zone's generators
/// (empty when there is none) and its own zone's.
pub open spec fn spec_instrument_region_gs(global: Seq<Generator>, local: Seq<Generator>) -> Seq<
    i16,
> {
    spec_apply_generators(spec_apply_generators(spec_default_instrument_gs(), global), local)
}

fn default_instrument_gs() -> (gs: Vec<i16>)
    ensures
        gs@ == spec_default_instrument_gs(),
{
    let mut gs: Vec<i16> = Vec::new();
    let mut i: usize = 0;
    while i < 61
        invariant
            i <= 61,
            gs@.len() == i,
            forall|k: int| 0 <= k < i ==> #[trigger] gs@[k] == spec_default_instrument_value(k),
        decreases 61 - i,
    {
        let k = i as u16;
        let v: i16 = if k == GeneratorType::INITIAL_FILTER_CUTOFF_FREQUENCY {
            13500
        } else if k == GeneratorType::DELAY_MODULATION_LFO || k == GeneratorType::DELAY_VIBRATO_LFO
            || k == GeneratorType::DELAY_MODULATION_ENVELOPE || k
            == GeneratorType::ATTACK_MODULATION_ENVELOPE || k
            == GeneratorType::HOLD_MODULATION_ENVELOPE || k
            == GeneratorType::DECAY_MODULATION_ENVELOPE || k
            == GeneratorType::RELEASE_MODULATION_ENVELOPE || k
            == GeneratorType::DELAY_VOLUME_ENVELOPE || k == GeneratorType::ATTACK_VOLUME_ENVELOPE
            || k == GeneratorType::HOLD_VOLUME_ENVELOPE || k == GeneratorType::DECAY_VOLUME_ENVELOPE
            || k == GeneratorType::RELEASE_VOLUME_ENVELOPE {
            -12000
        } else if k == GeneratorType::KEY_RANGE || k == GeneratorType::VELOCITY_RANGE {
            0x7F00
        } else if k == GeneratorType::KEY_NUMBER || k == GeneratorType::VELOCITY || k
            == GeneratorType::OVERRIDING_ROOT_KEY {
            -1
        } else if k == GeneratorType::SCALE_TUNING {
            100
        } else {
            0
        };
        gs.push(v);
        i += 1;
    }
    assert(gs@ =~= spec_default_instrument_gs());
    gs
}

/// Represents an instrument region.
/// An instrument region contains all the parameters necessary to synthesize a note.
#[derive(Debug)]
pub struct InstrumentRegion {
    /// The generator slots, indexed by generator number.
    pub gs: Vec<i16>,
    /// The sample the region plays, as its sampleID generator names it.
    pub sample_id: usize,
    pub sample_start: i32,
    pub sample_end: i32,
    pub sample_start_loop: i32,
    pub sample_end_loop: i32,
    pub sample_sample_rate: i32,
    pub sample_original_pitch: i32,
    pub sample_pitch_correction: i32,
    /// The region's modulators: its own, then the global zone's it does not override.
    pub modulators: Vec<Modulator>,
}

/// The index a sampleID generator value names (a negative value names none).
pub open spec fn spec_sample_index(value: i16) -> usize {
    value as usize
}

/// `r` is the region built from these generators, samples and merged modulators. A
/// region whose sampleID names no sample gets an empty sample range, which the
/// SoundFont's sanity check then removes.
pub open spec fn spec_instrument_region_from(
    r: InstrumentRegion,
    global: Seq<Generator>,
    local: Seq<Generator>,
    samples: Seq<SampleHeader>,
    modulators: Seq<Modulator>,
) -> bool {
    let gs = spec_instrument_region_gs(global, local);
    let id = spec_sample_index(gs[GeneratorType::SAMPLE_ID as int]);
    &&& r.gs@ == gs
    &&& r.gs@.len() == 61
    &&& r.sample_id == id
    &&& r.modulators@ == modulators
    &&& if id < samples.len() {
        let s = samples[id as int];
        &&& r.sample_start == s.start
        &&& r.sample_end == s.end
        &&& r.sample_start_loop == s.start_loop
        &&& r.sample_end_loop == s.end_loop
        &&& r.sample_sample_rate == s.sample_rate
        &&& r.sample_original_pitch == s.original_pitch as i32
        &&& r.sample_pitch_correction == s.pitch_correction as i32
    } else {
        &&& r.sample_start == 0
        &&& r.sample_end == 0
        &&& r.sample_start_loop == 0
        &&& r.sample_end_loop == 0
        &&& r.sample_sample_rate == 0
        &&& r.sample_original_pitch == 0
        &&& r.sample_pitch_correction == 0
    }
}

/// The first zone of an instrument's span `from..to` is a global zone when its last
/// generator is not a sampleID generator.
pub open spec fn spec_instrument_has_global(zones: Seq<Zone>, from: int, to: int) -> bool {
    from < to && (zones[from].generators@.len() == 0 || zones[from].generators@.last().generator_type
        != GeneratorType::SAMPLE_ID)
}

/// The index of the first zone of the span that becomes a region.
pub open spec fn spec_instrument_first_local(zones: Seq<Zone>, from: int, to: int) -> int {
    if spec_instrument_has_global(zones, from, to) {
        from + 1
    } else {
        from
    }
}

/// The generators of the span's global zone, empty when there is none.
pub open spec fn spec_instrument_global_generators(zones: Seq<Zone>, from: int, to: int) -> Seq<
    Generator,
> {
    if spec_instrument_has_global(zones, from, to) {
        zones[from].generators@
    } else {
        Seq::empty()
    }
}

/// The validated modulators of the span's global zone, empty when there is none.
pub open spec fn spec_instrument_global_modulators(zones: Seq<Zone>, from: int, to: int) -> Seq<
    Modulator,
> {
    if spec_instrument_has_global(zones, from, to) {
        spec_validate_zone(zones[from].modulators@, ModulatorLevel::Instrument)
    } else {
        Seq::empty()
    }
}

/// `regions` are the regions an instrument builds from the zones `from..to`: one per
/// zone after the global zone, each with the global generators applied before its own
/// and its own validated modulators merged over the global zone's.
pub open spec fn spec_instrument_regions_from(
    regions: Seq<InstrumentRegion>,
    zones: Seq<Zone>,
    from: int,
    to: int,
    samples: Seq<SampleHeader>,
) -> bool {
    let first = spec_instrument_first_local(zones, from, to);
    &&& regions.len() == to - first
    &&& forall|k: int|
        0 <= k < regions.len() ==> spec_instrument_region_from(
            #[trigger] regions[k],
            spec_instrument_global_generators(zones, from, to),
            zones[first + k].generators@,
            samples,
            spec_merge(
                spec_instrument_global_modulators(zones, from, to),
                spec_validate_zone(zones[first + k].modulators@, ModulatorLevel::Instrument),
            ),
        )
}

impl InstrumentRegion {
    /// Builds a region from the global zone's generators (empty when there is none), its
    /// own zone, the sample headers and its already merged modulators.
    pub fn new(
        global: &[Generator],
        local: &Zone,
        samples: &[SampleHeader],
        modulators: Vec<Modulator>,
    ) -> (r: InstrumentRegion)
        ensures
            spec_instrument_region_from(r, global@, local.generators@, samples@, modulators@),
    {
        let mut gs = default_instrument_gs();
        apply_generators(&mut gs, global);
        apply_generators(&mut gs, local.generators.as_slice());
        assert(gs@.len() == 61) by {
            lemma_apply_keeps_len(spec_default_instrument_gs(), global@);
            lemma_apply_keeps_len(
                spec_apply_generators(spec_default_instrument_gs(), global@),
                local.generators@,
            );
        }
        proof {
            lemma_apply_keeps_len(spec_default_instrument_gs(), global@);
            lemma_apply_keeps_len(
                spec_apply_generators(spec_default_instrument_gs(), global@),
                local.generators@,
            );
        }
        let id = gs[GeneratorType::SAMPLE_ID as usize] as usize;
        if id < samples.len() {
            let sample = &samples[id];
            InstrumentRegion {
                gs,
                sample_id: id,
                sample_start: sample.start,
                sample_end: sample.end,
                sample_start_loop: sample.start_loop,
                sample_end_loop: sample.end_loop,
                sample_sample_rate: sample.sample_rate,
                sample_original_pitch: sample.original_pitch as i32,
                sample_pitch_correction: sample.pitch_correction as i32,
                modulators,
            }
        } else {
            InstrumentRegion {
                gs,
                sample_id: id,
                sample_start: 0,
                sample_end: 0,
                sample_start_loop: 0,
                sample_end_loop: 0,
                sample_sample_rate: 0,
                sample_original_pitch: 0,
                sample_pitch_correction: 0,
                modulators,
            }
        }
    }

    /// Builds the regions of one instrument from its zones `from..to`. A first zone
    /// without a trailing sampleID generator is the global zone: its generators and
    /// modulators apply to every other zone, and it becomes no region itself. Modulators
    /// are validated per zone, and each region's local list is merged over the global one.
    pub fn create(
        zones: &[Zone],
        from: usize,
        to: usize,
        samples: &[SampleHeader],
        counts: &mut ModulatorDropCounts,
    ) -> (r: Result<Vec<InstrumentRegion>, SoundFontError>)
        requires
            from <= to <= zones@.len(),
        ensures
            r is Err ==> r->Err_0 == SoundFontError::InvalidZoneList,
            r is Err <==> !spec_zones_room(
                zones@,
                from as int,
                to as int,
                ModulatorLevel::Instrument,
                old(counts).counts(),
            ),
            r is Ok ==> spec_instrument_regions_from(
                r->Ok_0@,
                zones@,
                from as int,
                to as int,
                samples@,
            ) && forall|reason: ModulatorDropReason|
                #[trigger] final(counts).count_of(reason) == old(counts).count_of(reason)
                    + spec_zones_reason_count(
                    zones@,
                    from as int,
                    to as int,
                    ModulatorLevel::Instrument,
                    reason,
                ),
    {
        let ghost z = zones@;
        let ghost base = old(counts).counts();
        let mut regions: Vec<InstrumentRegion> = Vec::new();
        if from == to {
            return Ok(regions);
        }
        let has_global = zones[from].generators.len() == 0 || zones[from].generators[zones[from].generators.len()
            - 1].generator_type != GeneratorType::SAMPLE_ID;
        assert(has_global == spec_instrument_has_global(z, from as int, to as int));
        let empty_generators: Vec<Generator> = Vec::new();
        let global_generators: &[Generator] = if has_global {
            zones[from].generators.as_slice()
        } else {
            empty_generators.as_slice()
        };
        let first: usize = if has_global {
            from + 1
        } else {
            from
        };
        let global_modulators: Vec<Modulator> = if has_global {
            proof {
                lemma_zone_room_now(*counts, base, z, from as int, from as int, ModulatorLevel::Instrument);
            }
            if !counts.has_room(zones[from].modulators.len()) {
                return Err(SoundFontError::InvalidZoneList);
            }
            validate_zone(zones[from].modulators.as_slice(), ModulatorLevel::Instrument, counts)
        } else {
            Vec::new()
        };
        assert(global_generators@ == spec_instrument_global_generators(z, from as int, to as int));
        assert(global_modulators@ == spec_instrument_global_modulators(z, from as int, to as int));
        assert forall|reason: ModulatorDropReason| #[trigger] counts.count_of(reason) == old(
            counts,
        ).count_of(reason) + spec_zones_reason_count(
            z,
            from as int,
            first as int,
            ModulatorLevel::Instrument,
            reason,
        ) by {
            reveal_with_fuel(spec_zones_reason_count, 2);
        }
        let mut i: usize = first;
        while i < to
            invariant
                from <= first <= i <= to,
                to <= z.len(),
                z == zones@,
                first == spec_instrument_first_local(z, from as int, to as int),
                global_generators@ == spec_instrument_global_generators(z, from as int, to as int),
                global_modulators@ == spec_instrument_global_modulators(z, from as int, to as int),
                regions@.len() == i - first,
                base == old(counts).counts(),
                forall|k: int|
                    from <= k < i ==> #[trigger] spec_zone_room(
                        z,
                        from as int,
                        k,
                        ModulatorLevel::Instrument,
                        base,
                    ),
                forall|k: int|
                    0 <= k < regions@.len() ==> spec_instrument_region_from(
                        #[trigger] regions@[k],
                        spec_instrument_global_generators(z, from as int, to as int),
                        z[first + k].generators@,
                        samples@,
                        spec_merge(
                            spec_instrument_global_modulators(z, from as int, to as int),
                            spec_validate_zone(z[first + k].modulators@, ModulatorLevel::Instrument),
                        ),
                    ),
                forall|reason: ModulatorDropReason|
                    #[trigger] counts.count_of(reason) == old(counts).count_of(reason)
                        + spec_zones_reason_count(
                        z,
                        from as int,
                        i as int,
                        ModulatorLevel::Instrument,
                        reason,
                    ),
            decreases to - i,
        {
            let zone = &zones[i];
            proof {
                lemma_zone_room_now(*counts, base, z, from as int, i as int, ModulatorLevel::Instrument);
            }
            if !counts.has_room(zone.modulators.len()) {
                return Err(SoundFontError::InvalidZoneList);
            }
            let local_modulators = validate_zone(
                zone.modulators.as_slice(),
                ModulatorLevel::Instrument,
                counts,
            );
            let merged = merge(global_modulators.as_slice(), local_modulators);
            let region = InstrumentRegion::new(global_generators, zone, samples, merged);
            regions.push(region);
            i += 1;
        }
        Ok(regions)
    }

    /// The region has a slot for every generator.
    pub open spec fn wf(&self) -> bool {
        self.gs@.len() == 61
    }

    /// The generator slot for a generator number.
    pub open spec fn g(&self, generator: u16) -> int {
        self.gs@[generator as int] as int
    }

    /// The generator slot for a generator number.
    pub fn generator(&self, generator: u16) -> (r: i16)
        requires
            self.wf(),
            generator < 61,
        ensures
            r == self.gs@[generator as int],
    {
        self.gs[generator as usize]
    }

    /// The index of the sample the region plays.
    pub fn get_sample_id(&self) -> (r: usize)
        ensures
            r == self.sample_id,
    {
        self.sample_id
    }

    /// The start of the sample data to play: the sample's start moved by the start
    /// address offsets (fine + 32768 * coarse), wrapping like 32-bit arithmetic.
    pub open spec fn spec_sample_start(&self) -> i32 {
        (self.sample_start + self.spec_start_address_offset()) as i32
    }

    pub open spec fn spec_start_address_offset(&self) -> int {
        32768 * self.g(GeneratorType::START_ADDRESS_COARSE_OFFSET) + self.g(
            GeneratorType::START_ADDRESS_OFFSET,
        )
    }

    pub open spec fn spec_end_address_offset(&self) -> int {
        32768 * self.g(GeneratorType::END_ADDRESS_COARSE_OFFSET) + self.g(
            GeneratorType::END_ADDRESS_OFFSET,
        )
    }

    pub open spec fn spec_start_loop_address_offset(&self) -> int {
        32768 * self.g(GeneratorType::START_LOOP_ADDRESS_COARSE_OFFSET) + self.g(
            GeneratorType::START_LOOP_ADDRESS_OFFSET,
        )
    }

    pub open spec fn spec_end_loop_address_offset(&self) -> int {
        32768 * self.g(GeneratorType::END_LOOP_ADDRESS_COARSE_OFFSET) + self.g(
            GeneratorType::END_LOOP_ADDRESS_OFFSET,
        )
    }

    /// The end of the sample data to play, moved by the end address offsets.
    pub open spec fn spec_sample_end(&self) -> i32 {
        (self.sample_end + self.spec_end_address_offset()) as i32
    }

    /// The loop start, moved by the loop start address offsets.
    pub open spec fn spec_sample_start_loop(&self) -> i32 {
        (self.sample_start_loop + self.spec_start_loop_address_offset()) as i32
    }

    /// The loop end, moved by the loop end address offsets.
    pub open spec fn spec_sample_end_loop(&self) -> i32 {
        (self.sample_end_loop + self.spec_end_loop_address_offset()) as i32
    }

    /// The start address offset in sample points.
    pub fn get_start_address_offset(&self) -> (r: i32)
        requires
            self.wf(),
        ensures
            r == self.spec_start_address_offset(),
    {
        32768 * self.gs[GeneratorType::START_ADDRESS_COARSE_OFFSET as usize] as i32
            + self.gs[GeneratorType::START_ADDRESS_OFFSET as usize] as i32
    }

    /// The end address offset in sample points.
    pub fn get_end_address_offset(&self) -> (r: i32)
        requires
            self.wf(),
        ensures
            r == self.spec_end_address_offset(),
    {
        32768 * self.gs[GeneratorType::END_ADDRESS_COARSE_OFFSET as usize] as i32
            + self.gs[GeneratorType::END_ADDRESS_OFFSET as usize] as i32
    }

    /// The loop start address offset in sample points.
    pub fn get_start_loop_address_offset(&self) -> (r: i32)
        requires
            self.wf(),
        ensures
            r == self.spec_start_loop_address_offset(),
    {
        32768 * self.gs[GeneratorType::START_LOOP_ADDRESS_COARSE_OFFSET as usize] as i32
            + self.gs[GeneratorType::START_LOOP_ADDRESS_OFFSET as usize] as i32
    }

    /// The loop end address offset in sample points.
    pub fn get_end_loop_address_offset(&self) -> (r: i32)
        requires
            self.wf(),
        ensures
            r == self.spec_end_loop_address_offset(),
    {
        32768 * self.gs[GeneratorType::END_LOOP_ADDRESS_COARSE_OFFSET as usize] as i32
            + self.gs[GeneratorType::END_LOOP_ADDRESS_OFFSET as usize] as i32
    }

    /// The start of the sample data to play.
    pub fn get_sample_start(&self) -> (r: i32)
        requires
            self.wf(),
        ensures
            r == self.spec_sample_start(),
    {
        (self.sample_start as i64 + self.get_start_address_offset() as i64) as i32
    }

    /// The end of the sample data to play.
    pub fn get_sample_end(&self) -> (r: i32)
        requires
            self.wf(),
        ensures
            r == self.spec_sample_end(),
    {
        (self.sample_end as i64 + self.get_end_address_offset() as i64) as i32
    }

    /// The loop start point.
    pub fn get_sample_start_loop(&self) -> (r: i32)
        requires
            self.wf(),
        ensures
            r == self.spec_sample_start_loop(),
    {
        (self.sample_start_loop as i64 + self.get_start_loop_address_offset() as i64) as i32
    }

    /// The loop end point.
    pub fn get_sample_end_loop(&self) -> (r: i32)
        requires
            self.wf(),
        ensures
            r == self.spec_sample_end_loop(),
    {
        (self.sample_end_loop as i64 + self.get_end_loop_address_offset() as i64) as i32
    }

    /// How the sample loops.
    pub open spec fn spec_sample_modes(&self) -> LoopMode {
        spec_loop_mode(self.gs@[GeneratorType::SAMPLE_MODES as int])
    }

    /// How the sample loops.
    pub fn get_sample_modes(&self) -> (r: LoopMode)
        requires
            self.wf(),
        ensures
            r == self.spec_sample_modes(),
    {
        loop_mode_from(self.gs[GeneratorType::SAMPLE_MODES as usize])
    }

    /// The exclusive class (0 for none).
    pub fn get_exclusive_class(&self) -> (r: i32)
        requires
            self.wf(),
        ensures
            r == self.g(GeneratorType::EXCLUSIVE_CLASS),
    {
        self.gs[GeneratorType::EXCLUSIVE_CLASS as usize] as i32
    }

    /// The key the sample sounds at its own pitch: the overriding root key when set,
    /// the sample's original pitch otherwise.
    pub fn get_root_key(&self) -> (r: i32)
        requires
            self.wf(),
        ensures
            r == if self.g(GeneratorType::OVERRIDING_ROOT_KEY) != -1 {
                self.g(GeneratorType::OVERRIDING_ROOT_KEY)
            } else {
                self.sample_original_pitch as int
            },
    {
        let v = self.gs[GeneratorType::OVERRIDING_ROOT_KEY as usize];
        if v != -1 {
            v as i32
        } else {
            self.sample_original_pitch
        }
    }

    /// The coarse tune in semitones.
    pub fn get_coarse_tune(&self) -> (r: i32)
        requires
            self.wf(),
        ensures
            r == self.g(GeneratorType::COARSE_TUNE),
    {
        self.gs[GeneratorType::COARSE_TUNE as usize] as i32
    }

    /// The fine tune in cents, the sample's pitch correction included.
    pub fn get_fine_tune(&self) -> (r: i32)
        requires
            self.wf(),
            i32::MIN <= self.g(GeneratorType::FINE_TUNE) + self.sample_pitch_correction <= i32::MAX,
        ensures
            r == self.g(GeneratorType::FINE_TUNE) + self.sample_pitch_correction,
    {
        self.gs[GeneratorType::FINE_TUNE as usize] as i32 + self.sample_pitch_correction
    }

    /// The scale tuning in cents per key.
    pub fn get_scale_tuning(&self) -> (r: i32)
        requires
            self.wf(),
        ensures
            r == self.g(GeneratorType::SCALE_TUNING),
    {
        self.gs[GeneratorType::SCALE_TUNING as usize] as i32
    }

    /// The lowest key of the region.
    pub fn get_key_range_start(&self) -> (r: i32)
        requires
            self.wf(),
        ensures
            r == spec_range_low(self.gs@[GeneratorType::KEY_RANGE as int]),
    {
        range_low(self.gs[GeneratorType::KEY_RANGE as usize])
    }

    /// The highest key of the region.
    pub fn get_key_range_end(&self) -> (r: i32)
        requires
            self.wf(),
        ensures
            r == spec_range_high(self.gs@[GeneratorType::KEY_RANGE as int]),
    {
        range_high(self.gs[GeneratorType::KEY_RANGE as usize])
    }

    /// The lowest velocity of the region.
    pub fn get_velocity_range_start(&self) -> (r: i32)
        requires
            self.wf(),
        ensures
            r == spec_range_low(self.gs@[GeneratorType::VELOCITY_RANGE as int]),
    {
        range_low(self.gs[GeneratorType::VELOCITY_RANGE as usize])
    }

    /// The highest velocity of the region.
    pub fn get_velocity_range_end(&self) -> (r: i32)
        requires
            self.wf(),
        ensures
            r == spec_range_high(self.gs@[GeneratorType::VELOCITY_RANGE as int]),
    {
        range_high(self.gs[GeneratorType::VELOCITY_RANGE as usize])
    }

    /// True when the region plays this key at this velocity.
    pub fn contains(&self, key: i32, velocity: i32) -> (r: bool)
        requires
            self.wf(),
        ensures
            r == (spec_range_contains(self.gs@[GeneratorType::KEY_RANGE as int], key as int)
                && spec_range_contains(
                self.gs@[GeneratorType::VELOCITY_RANGE as int],
                velocity as int,
            )),
    {
        let contains_key = self.get_key_range_start() <= key && key <= self.get_key_range_end();
        let contains_velocity = self.get_velocity_range_start() <= velocity && velocity
            <= self.get_velocity_range_end();
        contains_key && contains_velocity
    }
}

/// The low byte of a range generator amount.
pub open spec fn spec_range_low(v: i16) -> i32 {
    ((v as int) % 256) as i32
}

/// The high byte of a range generator amount.
pub open spec fn spec_range_high(v: i16) -> i32 {
    (((v as int) / 256) % 256) as i32
}

/// `x` lies in the range a range generator amount encodes.
pub open spec fn spec_range_contains(v: i16, x: int) -> bool {
    spec_range_low(v) <= x <= spec_range_high(v)
}

/// The low byte of a range generator amount.
pub fn range_low(v: i16) -> (r: i32)
    ensures
        r == spec_range_low(v),
{
    let w = v as i32;
    assert(w & 0xFF == w % 256) by (bit_vector);
    w & 0xFF
}

/// The high byte of a range generator amount.
pub fn range_high(v: i16) -> (r: i32)
    ensures
        r == spec_range_high(v),
{
    let w = v as i32;
    assert((w >> 8) & 0xFF == (w / 256) % 256) by (bit_vector);
    (w >> 8) & 0xFF
}

proof fn lemma_apply_keeps_len(gs: Seq<i16>, generators: Seq<Generator>)
    ensures
        spec_apply_generators(gs, generators).len() == gs.len(),
    decreases generators.len(),
{
    if generators.len() > 0 {
        lemma_apply_keeps_len(gs, generators.drop_last());
    }
}

} // verus!
