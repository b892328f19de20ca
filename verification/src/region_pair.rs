//! Combining the generator values of a preset region and an instrument region.

use vstd::prelude::*;

use crate::generator_type::GeneratorType;
use crate::instrument_region::InstrumentRegion;
use crate::loop_mode::LoopMode;
use crate::preset_region::PresetRegion;

verus! {

/// The useful value range the SoundFont specification gives a generator in its generator
/// summary, or `None` for the generators it leaves unbounded or describes with flags and
/// sentinel values.
pub open spec fn spec_generator_range(g: usize) -> Option<(i32, i32)> {
    if g == GeneratorType::MODULATION_LFO_TO_PITCH as usize {
        Some((-12000i32, 12000i32))
    } else if g == GeneratorType::VIBRATO_LFO_TO_PITCH as usize {
        Some((-12000i32, 12000i32))
    } else if g == GeneratorType::MODULATION_ENVELOPE_TO_PITCH as usize {
        Some((-12000i32, 12000i32))
    } else if g == GeneratorType::INITIAL_FILTER_CUTOFF_FREQUENCY as usize {
        Some((1500i32, 13500i32))
    } else if g == GeneratorType::INITIAL_FILTER_Q as usize {
        Some((0i32, 960i32))
    } else if g == GeneratorType::MODULATION_LFO_TO_FILTER_CUTOFF_FREQUENCY as usize {
        Some((-12000i32, 12000i32))
    } else if g == GeneratorType::MODULATION_ENVELOPE_TO_FILTER_CUTOFF_FREQUENCY as usize {
        Some((-12000i32, 12000i32))
    } else if g == GeneratorType::MODULATION_LFO_TO_VOLUME as usize {
        Some((-960i32, 960i32))
    } else if g == GeneratorType::CHORUS_EFFECTS_SEND as usize {
        Some((0i32, 1000i32))
    } else if g == GeneratorType::REVERB_EFFECTS_SEND as usize {
        Some((0i32, 1000i32))
    } else if g == GeneratorType::PAN as usize {
        Some((-500i32, 500i32))
    } else if g == GeneratorType::DELAY_MODULATION_LFO as usize {
        Some((-12000i32, 5000i32))
    } else if g == GeneratorType::FREQUENCY_MODULATION_LFO as usize {
        Some((-16000i32, 4500i32))
    } else if g == GeneratorType::DELAY_VIBRATO_LFO as usize {
        Some((-12000i32, 5000i32))
    } else if g == GeneratorType::FREQUENCY_VIBRATO_LFO as usize {
        Some((-16000i32, 4500i32))
    } else if g == GeneratorType::DELAY_MODULATION_ENVELOPE as usize {
        Some((-12000i32, 5000i32))
    } else if g == GeneratorType::ATTACK_MODULATION_ENVELOPE as usize {
        Some((-12000i32, 8000i32))
    } else if g == GeneratorType::HOLD_MODULATION_ENVELOPE as usize {
        Some((-12000i32, 5000i32))
    } else if g == GeneratorType::DECAY_MODULATION_ENVELOPE as usize {
        Some((-12000i32, 8000i32))
    } else if g == GeneratorType::SUSTAIN_MODULATION_ENVELOPE as usize {
        Some((0i32, 1000i32))
    } else if g == GeneratorType::RELEASE_MODULATION_ENVELOPE as usize {
        Some((-12000i32, 8000i32))
    } else if g == GeneratorType::KEY_NUMBER_TO_MODULATION_ENVELOPE_HOLD as usize {
        Some((-1200i32, 1200i32))
    } else if g == GeneratorType::KEY_NUMBER_TO_MODULATION_ENVELOPE_DECAY as usize {
        Some((-1200i32, 1200i32))
    } else if g == GeneratorType::DELAY_VOLUME_ENVELOPE as usize {
        Some((-12000i32, 5000i32))
    } else if g == GeneratorType::ATTACK_VOLUME_ENVELOPE as usize {
        Some((-12000i32, 8000i32))
    } else if g == GeneratorType::HOLD_VOLUME_ENVELOPE as usize {
        Some((-12000i32, 5000i32))
    } else if g == GeneratorType::DECAY_VOLUME_ENVELOPE as usize {
        Some((-12000i32, 8000i32))
    } else if g == GeneratorType::SUSTAIN_VOLUME_ENVELOPE as usize {
        Some((0i32, 1440i32))
    } else if g == GeneratorType::RELEASE_VOLUME_ENVELOPE as usize {
        Some((-12000i32, 8000i32))
    } else if g == GeneratorType::KEY_NUMBER_TO_VOLUME_ENVELOPE_HOLD as usize {
        Some((-1200i32, 1200i32))
    } else if g == GeneratorType::KEY_NUMBER_TO_VOLUME_ENVELOPE_DECAY as usize {
        Some((-1200i32, 1200i32))
    } else if g == GeneratorType::INITIAL_ATTENUATION as usize {
        Some((0i32, 1440i32))
    } else if g == GeneratorType::SCALE_TUNING as usize {
        Some((0i32, 1200i32))
    } else {
        None
    }
}

/// The useful value range the SoundFont specification gives a generator in its generator
/// summary, or `None` for the generators it leaves unbounded or describes with flags and
/// sentinel values.
///
/// The sum of the preset and instrument values, plus any modulator offset fixed at note-on,
/// can leave that range. The specification calls for substituting the nearest realizable
/// value rather than using the sum as it stands.
///
/// Coarse and fine tune are deliberately absent: the pitch of a sounding note is offset
/// outside the region, so clamping here would not bound it anyway, and the pitch wheel
/// needs far more than the 99 cents the fine tune generator allows.
pub fn generator_range(generator: usize) -> (r: Option<(i32, i32)>)
    ensures
        r == spec_generator_range(generator),
{
    if generator == GeneratorType::MODULATION_LFO_TO_PITCH as usize {
        Some((-12000, 12000))
    } else if generator == GeneratorType::VIBRATO_LFO_TO_PITCH as usize {
        Some((-12000, 12000))
    } else if generator == GeneratorType::MODULATION_ENVELOPE_TO_PITCH as usize {
        Some((-12000, 12000))
    } else if generator == GeneratorType::INITIAL_FILTER_CUTOFF_FREQUENCY as usize {
        Some((1500, 13500))
    } else if generator == GeneratorType::INITIAL_FILTER_Q as usize {
        Some((0, 960))
    } else if generator == GeneratorType::MODULATION_LFO_TO_FILTER_CUTOFF_FREQUENCY as usize {
        Some((-12000, 12000))
    } else if generator == GeneratorType::MODULATION_ENVELOPE_TO_FILTER_CUTOFF_FREQUENCY as usize {
        Some((-12000, 12000))
    } else if generator == GeneratorType::MODULATION_LFO_TO_VOLUME as usize {
        Some((-960, 960))
    } else if generator == GeneratorType::CHORUS_EFFECTS_SEND as usize {
        Some((0, 1000))
    } else if generator == GeneratorType::REVERB_EFFECTS_SEND as usize {
        Some((0, 1000))
    } else if generator == GeneratorType::PAN as usize {
        Some((-500, 500))
    } else if generator == GeneratorType::DELAY_MODULATION_LFO as usize {
        Some((-12000, 5000))
    } else if generator == GeneratorType::FREQUENCY_MODULATION_LFO as usize {
        Some((-16000, 4500))
    } else if generator == GeneratorType::DELAY_VIBRATO_LFO as usize {
        Some((-12000, 5000))
    } else if generator == GeneratorType::FREQUENCY_VIBRATO_LFO as usize {
        Some((-16000, 4500))
    } else if generator == GeneratorType::DELAY_MODULATION_ENVELOPE as usize {
        Some((-12000, 5000))
    } else if generator == GeneratorType::ATTACK_MODULATION_ENVELOPE as usize {
        Some((-12000, 8000))
    } else if generator == GeneratorType::HOLD_MODULATION_ENVELOPE as usize {
        Some((-12000, 5000))
    } else if generator == GeneratorType::DECAY_MODULATION_ENVELOPE as usize {
        Some((-12000, 8000))
    } else if generator == GeneratorType::SUSTAIN_MODULATION_ENVELOPE as usize {
        Some((0, 1000))
    } else if generator == GeneratorType::RELEASE_MODULATION_ENVELOPE as usize {
        Some((-12000, 8000))
    } else if generator == GeneratorType::KEY_NUMBER_TO_MODULATION_ENVELOPE_HOLD as usize {
        Some((-1200, 1200))
    } else if generator == GeneratorType::KEY_NUMBER_TO_MODULATION_ENVELOPE_DECAY as usize {
        Some((-1200, 1200))
    } else if generator == GeneratorType::DELAY_VOLUME_ENVELOPE as usize {
        Some((-12000, 5000))
    } else if generator == GeneratorType::ATTACK_VOLUME_ENVELOPE as usize {
        Some((-12000, 8000))
    } else if generator == GeneratorType::HOLD_VOLUME_ENVELOPE as usize {
        Some((-12000, 5000))
    } else if generator == GeneratorType::DECAY_VOLUME_ENVELOPE as usize {
        Some((-12000, 8000))
    } else if generator == GeneratorType::SUSTAIN_VOLUME_ENVELOPE as usize {
        Some((0, 1440))
    } else if generator == GeneratorType::RELEASE_VOLUME_ENVELOPE as usize {
        Some((-12000, 8000))
    } else if generator == GeneratorType::KEY_NUMBER_TO_VOLUME_ENVELOPE_HOLD as usize {
        Some((-1200, 1200))
    } else if generator == GeneratorType::KEY_NUMBER_TO_VOLUME_ENVELOPE_DECAY as usize {
        Some((-1200, 1200))
    } else if generator == GeneratorType::INITIAL_ATTENUATION as usize {
        Some((0, 1440))
    } else if generator == GeneratorType::SCALE_TUNING as usize {
        Some((0, 1200))
    } else {
        None
    }
}

/// The nearest value of `[low, high]` to `value`.
pub open spec fn spec_clamp(value: int, low: int, high: int) -> int {
    if value < low {
        low
    } else if value > high {
        high
    } else {
        value
    }
}

/// The effective value of a generator for a preset region / instrument region pair: the
/// preset value, the instrument value and any modulator offset added up, then brought
/// into the generator's range when clamping is on.
pub open spec fn spec_combined_generator(
    generator: usize,
    preset: i16,
    instrument: i16,
    offset: Option<i32>,
    clamp_to_range: bool,
) -> int {
    let value = preset + instrument + match offset {
        Some(o) => o as int,
        None => 0int,
    };
    match spec_generator_range(generator) {
        Some((low, high)) if clamp_to_range => spec_clamp(value, low as int, high as int),
        _ => value,
    }
}

/// Adds up a generator's preset value, instrument value and rounded modulator offset, and
/// clamps the sum to the generator's useful range when `clamp_to_range` is set.
pub fn combined_generator(
    generator: usize,
    preset: i16,
    instrument: i16,
    offset: Option<i32>,
    clamp_to_range: bool,
) -> (r: i32)
    requires
        match offset {
            Some(o) => i32::MIN <= preset + instrument + o <= i32::MAX,
            None => true,
        },
    ensures
        r == spec_combined_generator(generator, preset, instrument, offset, clamp_to_range),
{
    let value = preset as i32 + instrument as i32;
    let value = match offset {
        Some(o) => value + o,
        None => value,
    };
    match generator_range(generator) {
        Some((low, high)) if clamp_to_range => {
            if value < low {
                low
            } else if value > high {
                high
            } else {
                value
            }
        },
        _ => value,
    }
}

/// Modulator offsets, rounded to generator units, with which every generator's preset
/// value, instrument value and offset add up to a value of `i32` (a sum outside it
/// overflows the `i32` addition).
pub open spec fn spec_offsets_fit(preset: &PresetRegion, instrument: &InstrumentRegion, offsets: [i32; 61]) -> bool {
    forall|i: int|
        0 <= i < 61 ==> i32::MIN <= preset.gs@[i] + instrument.gs@[i] + #[trigger] offsets@[i]
            <= i32::MAX
}

/// A preset region and an instrument region played together, with the modulator offsets
/// fixed at note-on when there are any.
pub struct RegionPair<'a> {
    pub preset: &'a PresetRegion,
    pub instrument: &'a InstrumentRegion,
    pub offsets: Option<&'a [i32; 61]>,
    pub clamp_to_range: bool,
}

impl<'a> RegionPair<'a> {
    /// Both regions have a slot for each generator, and the offsets fit.
    pub open spec fn wf(&self) -> bool {
        &&& self.preset.wf()
        &&& self.instrument.wf()
        &&& match self.offsets {
            Some(o) => spec_offsets_fit(self.preset, self.instrument, *o),
            None => true,
        }
    }

    /// The offset of generator `i`, if there are offsets.
    pub open spec fn spec_offset(&self, i: int) -> Option<i32> {
        match self.offsets {
            Some(o) => Some(o@[i]),
            None => None,
        }
    }

    /// The value of generator `i` for the pair.
    pub open spec fn spec_gs(&self, i: int) -> int {
        spec_combined_generator(
            i as usize,
            self.preset.gs@[i],
            self.instrument.gs@[i],
            self.spec_offset(i),
            self.clamp_to_range,
        )
    }

    /// The pair, without offsets.
    pub fn new(preset: &'a PresetRegion, instrument: &'a InstrumentRegion, clamp_to_range: bool) -> (r:
        RegionPair<'a>)
        ensures
            r.preset == preset,
            r.instrument == instrument,
            r.offsets is None,
            r.clamp_to_range == clamp_to_range,
    {
        RegionPair { preset, instrument, offsets: None, clamp_to_range }
    }

    /// The same pair with modulator offsets added to every generator.
    pub fn with_offsets(&self, offsets: &'a [i32; 61]) -> (r: RegionPair<'a>)
        ensures
            r.preset == self.preset,
            r.instrument == self.instrument,
            r.offsets == Some(offsets),
            r.clamp_to_range == self.clamp_to_range,
    {
        RegionPair {
            preset: self.preset,
            instrument: self.instrument,
            offsets: Some(offsets),
            clamp_to_range: self.clamp_to_range,
        }
    }

    /// The value of generator `i`: the preset's and the instrument's values and the offset
    /// added up, clamped to the generator's useful range when clamping is on.
    pub fn gs(&self, i: usize) -> (r: i32)
        requires
            self.wf(),
            i < 61,
        ensures
            r == self.spec_gs(i as int),
    {
        let offset = match self.offsets {
            Some(o) => Some(o[i]),
            None => None,
        };
        combined_generator(i, self.preset.gs[i], self.instrument.gs[i], offset, self.clamp_to_range)
    }

    pub fn get_modulation_lfo_to_pitch(&self) -> (r: i32)
        requires
            self.wf(),
        ensures
            r == self.spec_gs(GeneratorType::MODULATION_LFO_TO_PITCH as int),
    {
        self.gs(GeneratorType::MODULATION_LFO_TO_PITCH as usize)
    }

    pub fn get_vibrato_lfo_to_pitch(&self) -> (r: i32)
        requires
            self.wf(),
        ensures
            r == self.spec_gs(GeneratorType::VIBRATO_LFO_TO_PITCH as int),
    {
        self.gs(GeneratorType::VIBRATO_LFO_TO_PITCH as usize)
    }

    pub fn get_modulation_envelope_to_pitch(&self) -> (r: i32)
        requires
            self.wf(),
        ensures
            r == self.spec_gs(GeneratorType::MODULATION_ENVELOPE_TO_PITCH as int),
    {
        self.gs(GeneratorType::MODULATION_ENVELOPE_TO_PITCH as usize)
    }

    pub fn get_modulation_lfo_to_filter_cutoff_frequency(&self) -> (r: i32)
        requires
            self.wf(),
        ensures
            r == self.spec_gs(GeneratorType::MODULATION_LFO_TO_FILTER_CUTOFF_FREQUENCY as int),
    {
        self.gs(GeneratorType::MODULATION_LFO_TO_FILTER_CUTOFF_FREQUENCY as usize)
    }

    pub fn get_modulation_envelope_to_filter_cutoff_frequency(&self) -> (r: i32)
        requires
            self.wf(),
        ensures
            r == self.spec_gs(GeneratorType::MODULATION_ENVELOPE_TO_FILTER_CUTOFF_FREQUENCY as int),
    {
        self.gs(GeneratorType::MODULATION_ENVELOPE_TO_FILTER_CUTOFF_FREQUENCY as usize)
    }

    pub fn get_key_number_to_modulation_envelope_hold(&self) -> (r: i32)
        requires
            self.wf(),
        ensures
            r == self.spec_gs(GeneratorType::KEY_NUMBER_TO_MODULATION_ENVELOPE_HOLD as int),
    {
        self.gs(GeneratorType::KEY_NUMBER_TO_MODULATION_ENVELOPE_HOLD as usize)
    }

    pub fn get_key_number_to_modulation_envelope_decay(&self) -> (r: i32)
        requires
            self.wf(),
        ensures
            r == self.spec_gs(GeneratorType::KEY_NUMBER_TO_MODULATION_ENVELOPE_DECAY as int),
    {
        self.gs(GeneratorType::KEY_NUMBER_TO_MODULATION_ENVELOPE_DECAY as usize)
    }

    pub fn get_key_number_to_volume_envelope_hold(&self) -> (r: i32)
        requires
            self.wf(),
        ensures
            r == self.spec_gs(GeneratorType::KEY_NUMBER_TO_VOLUME_ENVELOPE_HOLD as int),
    {
        self.gs(GeneratorType::KEY_NUMBER_TO_VOLUME_ENVELOPE_HOLD as usize)
    }

    pub fn get_key_number_to_volume_envelope_decay(&self) -> (r: i32)
        requires
            self.wf(),
        ensures
            r == self.spec_gs(GeneratorType::KEY_NUMBER_TO_VOLUME_ENVELOPE_DECAY as int),
    {
        self.gs(GeneratorType::KEY_NUMBER_TO_VOLUME_ENVELOPE_DECAY as usize)
    }

    pub fn get_coarse_tune(&self) -> (r: i32)
        requires
            self.wf(),
        ensures
            r == self.spec_gs(GeneratorType::COARSE_TUNE as int),
    {
        self.gs(GeneratorType::COARSE_TUNE as usize)
    }

    /// The fine tune generator plus the sample's pitch correction, in cents.
    pub fn get_fine_tune(&self) -> (r: i32)
        requires
            self.wf(),
            i32::MIN <= self.spec_gs(GeneratorType::FINE_TUNE as int)
                + self.instrument.sample_pitch_correction <= i32::MAX,
        ensures
            r == self.spec_gs(GeneratorType::FINE_TUNE as int) + self.instrument.sample_pitch_correction,
    {
        self.gs(GeneratorType::FINE_TUNE as usize) + self.instrument.sample_pitch_correction
    }

    pub fn get_scale_tuning(&self) -> (r: i32)
        requires
            self.wf(),
        ensures
            r == self.spec_gs(GeneratorType::SCALE_TUNING as int),
    {
        self.gs(GeneratorType::SCALE_TUNING as usize)
    }

    pub fn get_sample_start(&self) -> (r: i32)
        requires
            self.wf(),
        ensures
            r == self.instrument.spec_sample_start(),
    {
        self.instrument.get_sample_start()
    }

    pub fn get_sample_end(&self) -> (r: i32)
        requires
            self.wf(),
        ensures
            r == self.instrument.spec_sample_end(),
    {
        self.instrument.get_sample_end()
    }

    pub fn get_sample_start_loop(&self) -> (r: i32)
        requires
            self.wf(),
        ensures
            r == self.instrument.spec_sample_start_loop(),
    {
        self.instrument.get_sample_start_loop()
    }

    pub fn get_sample_end_loop(&self) -> (r: i32)
        requires
            self.wf(),
        ensures
            r == self.instrument.spec_sample_end_loop(),
    {
        self.instrument.get_sample_end_loop()
    }

    pub fn get_sample_modes(&self) -> (r: LoopMode)
        requires
            self.wf(),
        ensures
            r == self.instrument.spec_sample_modes(),
    {
        self.instrument.get_sample_modes()
    }

    pub fn get_exclusive_class(&self) -> (r: i32)
        requires
            self.wf(),
        ensures
            r == self.instrument.g(GeneratorType::EXCLUSIVE_CLASS),
    {
        self.instrument.get_exclusive_class()
    }

    /// The key the sample sounds at its own pitch.
    pub fn get_root_key(&self) -> (r: i32)
        requires
            self.wf(),
        ensures
            r == if self.instrument.g(GeneratorType::OVERRIDING_ROOT_KEY) != -1 {
                self.instrument.g(GeneratorType::OVERRIDING_ROOT_KEY)
            } else {
                self.instrument.sample_original_pitch as int
            },
    {
        self.instrument.get_root_key()
    }
}

/// With clamping on, a generator that has a range always ends up inside it; with
/// clamping off, or for a generator without a range, the value is the plain sum.
pub proof fn law_combined_generator_respects_range(
    generator: usize,
    preset: i16,
    instrument: i16,
    offset: Option<i32>,
    clamp_to_range: bool,
)
    ensures
        ({
            let v = spec_combined_generator(generator, preset, instrument, offset, clamp_to_range);
            let sum = preset + instrument + match offset {
                Some(o) => o as int,
                None => 0int,
            };
            match spec_generator_range(generator) {
                Some((low, high)) => if clamp_to_range {
                    low <= v <= high
                } else {
                    v == sum
                },
                None => v == sum,
            }
        }),
{
}

} // verus!
