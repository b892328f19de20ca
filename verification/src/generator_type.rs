//! Generator numbers of the SoundFont 2.04 specification (section 8.1.2).

use vstd::prelude::*;

verus! {

/// Namespace for the generator numbers.
pub struct GeneratorType;

impl GeneratorType {
    pub const START_ADDRESS_OFFSET: u16 = 0;
    pub const END_ADDRESS_OFFSET: u16 = 1;
    pub const START_LOOP_ADDRESS_OFFSET: u16 = 2;
    pub const END_LOOP_ADDRESS_OFFSET: u16 = 3;
    pub const START_ADDRESS_COARSE_OFFSET: u16 = 4;
    pub const MODULATION_LFO_TO_PITCH: u16 = 5;
    pub const VIBRATO_LFO_TO_PITCH: u16 = 6;
    pub const MODULATION_ENVELOPE_TO_PITCH: u16 = 7;
    pub const INITIAL_FILTER_CUTOFF_FREQUENCY: u16 = 8;
    pub const INITIAL_FILTER_Q: u16 = 9;
    pub const MODULATION_LFO_TO_FILTER_CUTOFF_FREQUENCY: u16 = 10;
    pub const MODULATION_ENVELOPE_TO_FILTER_CUTOFF_FREQUENCY: u16 = 11;
    pub const END_ADDRESS_COARSE_OFFSET: u16 = 12;
    pub const MODULATION_LFO_TO_VOLUME: u16 = 13;
    pub const UNUSED_1: u16 = 14;
    pub const CHORUS_EFFECTS_SEND: u16 = 15;
    pub const REVERB_EFFECTS_SEND: u16 = 16;
    pub const PAN: u16 = 17;
    pub const UNUSED_2: u16 = 18;
    pub const UNUSED_3: u16 = 19;
    pub const UNUSED_4: u16 = 20;
    pub const DELAY_MODULATION_LFO: u16 = 21;
    pub const FREQUENCY_MODULATION_LFO: u16 = 22;
    pub const DELAY_VIBRATO_LFO: u16 = 23;
    pub const FREQUENCY_VIBRATO_LFO: u16 = 24;
    pub const DELAY_MODULATION_ENVELOPE: u16 = 25;
    pub const ATTACK_MODULATION_ENVELOPE: u16 = 26;
    pub const HOLD_MODULATION_ENVELOPE: u16 = 27;
    pub const DECAY_MODULATION_ENVELOPE: u16 = 28;
    pub const SUSTAIN_MODULATION_ENVELOPE: u16 = 29;
    pub const RELEASE_MODULATION_ENVELOPE: u16 = 30;
    pub const KEY_NUMBER_TO_MODULATION_ENVELOPE_HOLD: u16 = 31;
    pub const KEY_NUMBER_TO_MODULATION_ENVELOPE_DECAY: u16 = 32;
    pub const DELAY_VOLUME_ENVELOPE: u16 = 33;
    pub const ATTACK_VOLUME_ENVELOPE: u16 = 34;
    pub const HOLD_VOLUME_ENVELOPE: u16 = 35;
    pub const DECAY_VOLUME_ENVELOPE: u16 = 36;
    pub const SUSTAIN_VOLUME_ENVELOPE: u16 = 37;
    pub const RELEASE_VOLUME_ENVELOPE: u16 = 38;
    pub const KEY_NUMBER_TO_VOLUME_ENVELOPE_HOLD: u16 = 39;
    pub const KEY_NUMBER_TO_VOLUME_ENVELOPE_DECAY: u16 = 40;
    pub const INSTRUMENT: u16 = 41;
    pub const RESERVED_1: u16 = 42;
    pub const KEY_RANGE: u16 = 43;
    pub const VELOCITY_RANGE: u16 = 44;
    pub const START_LOOP_ADDRESS_COARSE_OFFSET: u16 = 45;
    pub const KEY_NUMBER: u16 = 46;
    pub const VELOCITY: u16 = 47;
    pub const INITIAL_ATTENUATION: u16 = 48;
    pub const RESERVED_2: u16 = 49;
    pub const END_LOOP_ADDRESS_COARSE_OFFSET: u16 = 50;
    pub const COARSE_TUNE: u16 = 51;
    pub const FINE_TUNE: u16 = 52;
    pub const SAMPLE_ID: u16 = 53;
    pub const SAMPLE_MODES: u16 = 54;
    pub const RESERVED_3: u16 = 55;
    pub const SCALE_TUNING: u16 = 56;
    pub const EXCLUSIVE_CLASS: u16 = 57;
    pub const OVERRIDING_ROOT_KEY: u16 = 58;
    pub const UNUSED_5: u16 = 59;
    pub const UNUSED_END: u16 = 60;

    /// The number of generator slots a region stores.
    pub const COUNT: usize = 61;
}

} // verus!
