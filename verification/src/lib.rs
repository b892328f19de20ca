//! A SoundFont and MIDI file library: parsing, validation and the integer
//! state that drives a SoundFont synthesizer, with its behaviour stated in
//! contracts and proved.

pub mod generator_type;

pub mod modulator_source;
pub mod modulator;
pub mod text;
pub mod region_pair;
pub mod four_cc;
pub mod error;
pub mod synthesizer_settings;
pub mod volume_attack_curve;
pub mod binary_reader;
pub mod fixed_string;
pub mod generator;
pub mod zone_info;
pub mod sample_header;
pub mod instrument_info;
pub mod preset_info;
pub mod zone;
pub mod loop_mode;
pub mod instrument_region;
pub mod instrument;
pub mod preset_region;
pub mod preset;
pub mod soundfont_info;
pub mod soundfont_sampledata;
pub mod soundfont_parameters;
pub mod soundfont;
pub mod midifile;
pub mod channel;
pub mod sysex;
pub mod synthesizer_state;
pub mod preset_lookup;
pub mod note_regions;
pub mod sequencer;
pub mod voice_modulators;
pub mod voice_pool;

pub use channel::{Channel, SystemMode};
pub use error::{MidiFileError, SoundFontError, SynthesizerError};
pub use generator_type::GeneratorType;
pub use loop_mode::LoopMode;
pub use midifile::{Message, MidiFile, MidiFileLoopType};
pub use modulator::Modulator;
pub use modulator_source::ModulatorSource;
pub use preset_lookup::PresetLookup;
pub use sequencer::{SequencerCursor, SequencerStep};
pub use soundfont::SoundFont;
pub use synthesizer_settings::SynthesizerSettings;
pub use synthesizer_state::{MidiAction, SynthesizerState};
pub use sysex::SysExMessage;
pub use volume_attack_curve::VolumeAttackCurve;
