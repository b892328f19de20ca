//! The errors the library reports.

use vstd::prelude::*;

use crate::four_cc::FourCC;

verus! {

/// Represents an error when initializing a synthesizer.
#[derive(Clone, Copy, Debug, PartialEq, Eq, Structural)]
pub enum SynthesizerError {
    SampleRateOutOfRange(i32),
    BlockSizeOutOfRange(usize),
    MaximumPolyphonyOutOfRange(usize),
}

/// Represents an error when loading a SoundFont.
#[derive(Clone, Copy, Debug, PartialEq, Eq, Structural)]
pub enum SoundFontError {
    /// The data ended before a value the format requires could be read.
    UnexpectedEndOfData,
    RiffChunkNotFound,
    InvalidRiffChunkType { expected: FourCC, actual: FourCC },
    ListChunkNotFound,
    InvalidListChunkType { expected: FourCC, actual: FourCC },
    ListContainsUnknownId(FourCC),
    SampleDataNotFound,
    UnsupportedSampleFormat,
    SubChunkNotFound(FourCC),
    InvalidPresetList,
    InvalidInstrumentId { preset_id: usize, instrument_id: usize },
    InvalidPreset(usize),
    PresetNotFound,
    InvalidInstrumentList,
    InvalidInstrument(usize),
    InstrumentNotFound,
    InvalidSampleHeaderList,
    InvalidZoneList,
    ZoneNotFound,
    InvalidGeneratorList,
}

/// Represents an error when loading a MIDI file.
#[derive(Clone, Copy, Debug, PartialEq, Eq, Structural)]
pub enum MidiFileError {
    /// The data ended before a value the format requires could be read.
    UnexpectedEndOfData,
    InvalidChunkType { expected: FourCC, actual: FourCC },
    InvalidChunkData(FourCC),
    UnsupportedFormat(i16),
    InvalidTempoValue,
    /// A variable-length quantity ran over four bytes.
    InvalidVariableLengthValue,
}

} // verus!
