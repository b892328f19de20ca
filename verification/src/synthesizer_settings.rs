//! The parameters a synthesizer is built with.

use vstd::prelude::*;

use crate::error::SynthesizerError;
use crate::volume_attack_curve::VolumeAttackCurve;

verus! {

/// Specifies a set of parameters for synthesis.
#[derive(Debug)]
#[non_exhaustive]
pub struct SynthesizerSettings {
    /// The sample rate for synthesis.
    pub sample_rate: i32,
    /// The block size for rendering waveform.
    pub block_size: usize,
    /// The number of maximum polyphony.
    pub maximum_polyphony: usize,
    /// The value indicating whether reverb and chorus are enabled.
    pub enable_reverb_and_chorus: bool,
    /// The shape of the volume envelope attack stage.
    pub volume_attack_curve: VolumeAttackCurve,
    /// The value indicating whether the SF2 default modulator from note-on velocity to
    /// filter cutoff is applied. It lowers the cutoff by up to two octaves for soft notes,
    /// even for instruments that do not otherwise use the filter. A SoundFont modulator with
    /// the same definition still overrides this setting.
    pub enable_velocity_to_filter_cutoff: bool,
    /// The value indicating whether modulators defined in the SoundFont are applied.
    /// When disabled, only the SF2 default modulators are used.
    pub enable_soundfont_modulators: bool,
    /// The value indicating whether Master Coarse Tune (and GS Master Key Shift) also
    /// transposes percussion channels. Off by default, matching hardware.
    pub enable_master_coarse_tune_on_percussion: bool,
    /// The value indicating whether generator values that leave the range the SoundFont
    /// specification gives them are clamped to the nearest value in range.
    pub enable_generator_range_clamp: bool,
}

/// The accepted sample rates.
pub open spec fn spec_sample_rate_ok(value: i32) -> bool {
    16_000 <= value <= 192_000
}

/// The accepted block sizes.
pub open spec fn spec_block_size_ok(value: usize) -> bool {
    8 <= value <= 1024
}

/// The accepted polyphony limits.
pub open spec fn spec_maximum_polyphony_ok(value: usize) -> bool {
    8 <= value <= 256
}

impl SynthesizerSettings {
    pub const DEFAULT_BLOCK_SIZE: usize = 64;
    pub const DEFAULT_MAXIMUM_POLYPHONY: usize = 64;
    pub const DEFAULT_ENABLE_REVERB_AND_CHORUS: bool = true;
    pub const DEFAULT_ENABLE_VELOCITY_TO_FILTER_CUTOFF: bool = true;
    pub const DEFAULT_ENABLE_SOUNDFONT_MODULATORS: bool = true;
    pub const DEFAULT_ENABLE_MASTER_COARSE_TUNE_ON_PERCUSSION: bool = false;
    pub const DEFAULT_ENABLE_GENERATOR_RANGE_CLAMP: bool = true;

    /// Initializes a new instance of synthesizer settings.
    ///
    /// # Arguments
    ///
    /// * `sample_rate` - The sample rate for synthesis.
    pub fn new(sample_rate: i32) -> (r: Self)
        ensures
            r.sample_rate == sample_rate,
            r.block_size == 64,
            r.maximum_polyphony == 64,
            r.enable_reverb_and_chorus,
            r.volume_attack_curve == VolumeAttackCurve::Cubic,
            r.enable_velocity_to_filter_cutoff,
            r.enable_soundfont_modulators,
            !r.enable_master_coarse_tune_on_percussion,
            r.enable_generator_range_clamp,
    {
        Self {
            sample_rate,
            block_size: SynthesizerSettings::DEFAULT_BLOCK_SIZE,
            maximum_polyphony: SynthesizerSettings::DEFAULT_MAXIMUM_POLYPHONY,
            enable_reverb_and_chorus: SynthesizerSettings::DEFAULT_ENABLE_REVERB_AND_CHORUS,
            volume_attack_curve: VolumeAttackCurve::Cubic,
            enable_velocity_to_filter_cutoff:
                SynthesizerSettings::DEFAULT_ENABLE_VELOCITY_TO_FILTER_CUTOFF,
            enable_soundfont_modulators: SynthesizerSettings::DEFAULT_ENABLE_SOUNDFONT_MODULATORS,
            enable_master_coarse_tune_on_percussion:
                SynthesizerSettings::DEFAULT_ENABLE_MASTER_COARSE_TUNE_ON_PERCUSSION,
            enable_generator_range_clamp:
                SynthesizerSettings::DEFAULT_ENABLE_GENERATOR_RANGE_CLAMP,
        }
    }

    /// Checks the settings a synthesizer cannot work with, reporting the first bad one
    /// in the order sample rate, block size, polyphony.
    pub fn validate(&self) -> (r: Result<(), SynthesizerError>)
        ensures
            r == (if !spec_sample_rate_ok(self.sample_rate) {
                Err(SynthesizerError::SampleRateOutOfRange(self.sample_rate))
            } else if !spec_block_size_ok(self.block_size) {
                Err(SynthesizerError::BlockSizeOutOfRange(self.block_size))
            } else if !spec_maximum_polyphony_ok(self.maximum_polyphony) {
                Err(SynthesizerError::MaximumPolyphonyOutOfRange(self.maximum_polyphony))
            } else {
                Ok(())
            }),
    {
        SynthesizerSettings::check_sample_rate(self.sample_rate)?;
        SynthesizerSettings::check_block_size(self.block_size)?;
        SynthesizerSettings::check_maximum_polyphony(self.maximum_polyphony)?;
        Ok(())
    }

    /// Rejects a sample rate outside 16000..=192000.
    pub fn check_sample_rate(value: i32) -> (r: Result<(), SynthesizerError>)
        ensures
            r == (if spec_sample_rate_ok(value) {
                Ok(())
            } else {
                Err(SynthesizerError::SampleRateOutOfRange(value))
            }),
    {
        if !(16_000 <= value && value <= 192_000) {
            return Err(SynthesizerError::SampleRateOutOfRange(value));
        }
        Ok(())
    }

    /// Rejects a block size outside 8..=1024.
    pub fn check_block_size(value: usize) -> (r: Result<(), SynthesizerError>)
        ensures
            r == (if spec_block_size_ok(value) {
                Ok(())
            } else {
                Err(SynthesizerError::BlockSizeOutOfRange(value))
            }),
    {
        if !(8 <= value && value <= 1024) {
            return Err(SynthesizerError::BlockSizeOutOfRange(value));
        }
        Ok(())
    }

    /// Rejects a polyphony limit outside 8..=256.
    pub fn check_maximum_polyphony(value: usize) -> (r: Result<(), SynthesizerError>)
        ensures
            r == (if spec_maximum_polyphony_ok(value) {
                Ok(())
            } else {
                Err(SynthesizerError::MaximumPolyphonyOutOfRange(value))
            }),
    {
        if !(8 <= value && value <= 256) {
            return Err(SynthesizerError::MaximumPolyphonyOutOfRange(value));
        }
        Ok(())
    }
}

} // verus!
