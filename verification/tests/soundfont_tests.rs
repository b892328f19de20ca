use rustysynth::error::SoundFontError;
use rustysynth::generator_type::GeneratorType;
use rustysynth::loop_mode::LoopMode;
use rustysynth::soundfont::SoundFont;
use rustysynth::note_regions::{regions_for_note, start_note};
use rustysynth::voice_pool::{SlotChoice, VoicePool};
use rustysynth::preset_lookup::PresetLookup;
use rustysynth::region_pair::RegionPair;

/// Zero samples the format asks for after each sample's data.
const SAMPLE_PADDING: usize = 46;

struct SampleRecord {
    name: String,
    start: i32,
    end: i32,
    start_loop: i32,
    end_loop: i32,
    sample_rate: i32,
    original_pitch: u8,
}

type ModulatorRecord = (u16, u16, i16, u16, u16);
type ZoneSpec = (Vec<(u16, i16)>, usize);
type ZoneSpecWithModulators = (Vec<(u16, i16)>, Vec<ModulatorRecord>, usize);

/// Assembles a small SoundFont file in memory.
struct Builder {
    smpl: Vec<i16>,
    samples: Vec<SampleRecord>,
    ibag: Vec<(u16, u16)>,
    igen: Vec<(u16, i16)>,
    imod: Vec<ModulatorRecord>,
    instruments: Vec<(String, u16)>,
    pbag: Vec<(u16, u16)>,
    pgen: Vec<(u16, i16)>,
    pmod: Vec<ModulatorRecord>,
    presets: Vec<(String, i32, i32, u16)>,
    imod_extra_bytes: usize,
    pmod_extra_bytes: usize,
    version_major: i16,
    omit_pgen: bool,
}

impl Builder {
    fn new() -> Self {
        Builder {
            smpl: Vec::new(),
            samples: Vec::new(),
            ibag: Vec::new(),
            igen: Vec::new(),
            imod: Vec::new(),
            instruments: Vec::new(),
            pbag: Vec::new(),
            pgen: Vec::new(),
            pmod: Vec::new(),
            presets: Vec::new(),
            imod_extra_bytes: 0,
            pmod_extra_bytes: 0,
            version_major: 2,
            omit_pgen: false,
        }
    }

    fn sample(&mut self, name: &str, data: &[i16], original_pitch: u8, loop_start: i32, loop_end: i32) -> usize {
        let start = self.smpl.len() as i32;
        self.smpl.extend_from_slice(data);
        let end = self.smpl.len() as i32;
        self.smpl.extend(std::iter::repeat(0_i16).take(SAMPLE_PADDING));
        self.samples.push(SampleRecord {
            name: name.to_string(),
            start,
            end,
            start_loop: start + loop_start,
            end_loop: start + loop_end,
            sample_rate: 44100,
            original_pitch,
        });
        self.samples.len() - 1
    }

    fn ordered(mut generators: Vec<(u16, i16)>, terminal: Option<(u16, i16)>) -> Vec<(u16, i16)> {
        let mut ordered = Vec::new();
        for range in [GeneratorType::KEY_RANGE, GeneratorType::VELOCITY_RANGE] {
            if let Some(pos) = generators.iter().position(|(t, _)| *t == range) {
                ordered.push(generators.remove(pos));
            }
        }
        ordered.extend(generators);
        if let Some(t) = terminal {
            ordered.push(t);
        }
        ordered
    }

    fn instrument(&mut self, name: &str, zones: Vec<ZoneSpec>) -> usize {
        let zones = zones.into_iter().map(|(g, s)| (g, Vec::new(), s)).collect();
        self.instrument_with_modulators(name, None, zones)
    }

    fn instrument_with_modulators(
        &mut self,
        name: &str,
        global: Option<(Vec<(u16, i16)>, Vec<ModulatorRecord>)>,
        zones: Vec<ZoneSpecWithModulators>,
    ) -> usize {
        let start = self.ibag.len() as u16;
        if let Some((generators, modulators)) = global {
            self.ibag.push((self.igen.len() as u16, self.imod.len() as u16));
            self.igen.extend(Self::ordered(generators, None));
            self.imod.extend(modulators);
        }
        for (generators, modulators, sample) in zones {
            self.ibag.push((self.igen.len() as u16, self.imod.len() as u16));
            self.igen
                .extend(Self::ordered(generators, Some((GeneratorType::SAMPLE_ID, sample as i16))));
            self.imod.extend(modulators);
        }
        self.instruments.push((name.to_string(), start));
        self.instruments.len() - 1
    }

    fn preset(&mut self, name: &str, bank: i32, patch: i32, zones: Vec<ZoneSpec>) -> usize {
        let zones = zones.into_iter().map(|(g, i)| (g, Vec::new(), i)).collect();
        self.preset_with_modulators(name, bank, patch, None, zones)
    }

    fn preset_with_modulators(
        &mut self,
        name: &str,
        bank: i32,
        patch: i32,
        global: Option<(Vec<(u16, i16)>, Vec<ModulatorRecord>)>,
        zones: Vec<ZoneSpecWithModulators>,
    ) -> usize {
        let start = self.pbag.len() as u16;
        if let Some((generators, modulators)) = global {
            self.pbag.push((self.pgen.len() as u16, self.pmod.len() as u16));
            self.pgen.extend(Self::ordered(generators, None));
            self.pmod.extend(modulators);
        }
        for (generators, modulators, instrument) in zones {
            self.pbag.push((self.pgen.len() as u16, self.pmod.len() as u16));
            self.pgen.extend(Self::ordered(
                generators,
                Some((GeneratorType::INSTRUMENT, instrument as i16)),
            ));
            self.pmod.extend(modulators);
        }
        self.presets.push((name.to_string(), bank, patch, start));
        self.presets.len() - 1
    }

    /// Points an instrument zone's first modulator at `modulator_index`.
    fn set_instrument_zone_modulator_index(&mut self, zone_index: usize, modulator_index: u16) {
        self.ibag[zone_index].1 = modulator_index;
    }

    fn build(mut self) -> Vec<u8> {
        let izones = self.ibag.len() as u16;
        self.ibag.push((self.igen.len() as u16, self.imod.len() as u16));
        self.igen.push((0, 0));
        self.imod.push((0, 0, 0, 0, 0));
        self.instruments.push(("EOI".to_string(), izones));
        let pzones = self.pbag.len() as u16;
        self.pbag.push((self.pgen.len() as u16, self.pmod.len() as u16));
        self.pgen.push((0, 0));
        self.pmod.push((0, 0, 0, 0, 0));
        self.presets.push(("EOP".to_string(), 0, 0, pzones));
        self.samples.push(SampleRecord {
            name: "EOS".to_string(),
            start: 0,
            end: 0,
            start_loop: 0,
            end_loop: 0,
            sample_rate: 0,
            original_pitch: 0,
        });

        let mut ifil = Vec::new();
        ifil.extend_from_slice(&self.version_major.to_le_bytes());
        ifil.extend_from_slice(&1_i16.to_le_bytes());
        let info = list_chunk(
            b"INFO",
            vec![chunk(b"ifil", ifil), text_chunk(b"INAM", "Test SoundFont"), text_chunk(b"IENG", "Someone")],
        );

        let mut wave = Vec::new();
        for s in &self.smpl {
            wave.extend_from_slice(&s.to_le_bytes());
        }
        let sdta = list_chunk(b"sdta", vec![chunk(b"smpl", wave)]);

        let mut pmod = mod_bytes(&self.pmod);
        pmod.extend(std::iter::repeat(0_u8).take(self.pmod_extra_bytes));
        let mut imod = mod_bytes(&self.imod);
        imod.extend(std::iter::repeat(0_u8).take(self.imod_extra_bytes));

        let mut phdr = Vec::new();
        for (name, bank, patch, start) in &self.presets {
            push_name(&mut phdr, name);
            phdr.extend_from_slice(&(*patch as u16).to_le_bytes());
            phdr.extend_from_slice(&(*bank as u16).to_le_bytes());
            phdr.extend_from_slice(&start.to_le_bytes());
            phdr.extend_from_slice(&[0_u8; 12]);
        }
        let mut inst = Vec::new();
        for (name, start) in &self.instruments {
            push_name(&mut inst, name);
            inst.extend_from_slice(&start.to_le_bytes());
        }
        let mut shdr = Vec::new();
        for s in &self.samples {
            push_name(&mut shdr, &s.name);
            for v in [s.start, s.end, s.start_loop, s.end_loop, s.sample_rate] {
                shdr.extend_from_slice(&v.to_le_bytes());
            }
            shdr.push(s.original_pitch);
            shdr.push(0);
            shdr.extend_from_slice(&0_u16.to_le_bytes());
            shdr.extend_from_slice(&1_u16.to_le_bytes());
        }
        let mut subchunks = vec![
            chunk(b"phdr", phdr),
            chunk(b"pbag", bag_bytes(&self.pbag)),
            chunk(b"pmod", pmod),
        ];
        if !self.omit_pgen {
            subchunks.push(chunk(b"pgen", gen_bytes(&self.pgen)));
        }
        subchunks.push(chunk(b"inst", inst));
        subchunks.push(chunk(b"ibag", bag_bytes(&self.ibag)));
        subchunks.push(chunk(b"imod", imod));
        subchunks.push(chunk(b"igen", gen_bytes(&self.igen)));
        subchunks.push(chunk(b"shdr", shdr));
        let pdta = list_chunk(b"pdta", subchunks);

        let mut riff = Vec::new();
        riff.extend_from_slice(b"sfbk");
        riff.extend_from_slice(&info);
        riff.extend_from_slice(&sdta);
        riff.extend_from_slice(&pdta);
        chunk(b"RIFF", riff)
    }
}

fn chunk(id: &[u8; 4], data: Vec<u8>) -> Vec<u8> {
    let mut out = Vec::new();
    out.extend_from_slice(id);
    out.extend_from_slice(&(data.len() as u32).to_le_bytes());
    let odd = data.len() % 2 != 0;
    out.extend_from_slice(&data);
    if odd {
        out.push(0);
    }
    out
}

fn list_chunk(list_type: &[u8; 4], subchunks: Vec<Vec<u8>>) -> Vec<u8> {
    let mut data = Vec::new();
    data.extend_from_slice(list_type);
    for s in subchunks {
        data.extend_from_slice(&s);
    }
    chunk(b"LIST", data)
}

fn text_chunk(id: &[u8; 4], text: &str) -> Vec<u8> {
    let mut data = text.as_bytes().to_vec();
    data.push(0);
    if data.len() % 2 != 0 {
        data.push(0);
    }
    chunk(id, data)
}

fn push_name(buf: &mut Vec<u8>, s: &str) {
    let bytes = s.as_bytes();
    let n = bytes.len().min(20);
    buf.extend_from_slice(&bytes[..n]);
    buf.extend(std::iter::repeat(0_u8).take(20 - n));
}

fn bag_bytes(bag: &[(u16, u16)]) -> Vec<u8> {
    let mut data = Vec::new();
    for (g, m) in bag {
        data.extend_from_slice(&g.to_le_bytes());
        data.extend_from_slice(&m.to_le_bytes());
    }
    data
}

fn gen_bytes(generators: &[(u16, i16)]) -> Vec<u8> {
    let mut data = Vec::new();
    for (t, v) in generators {
        data.extend_from_slice(&t.to_le_bytes());
        data.extend_from_slice(&v.to_le_bytes());
    }
    data
}

fn mod_bytes(modulators: &[ModulatorRecord]) -> Vec<u8> {
    let mut data = Vec::new();
    for (source, destination, amount, amount_source, transform) in modulators {
        data.extend_from_slice(&source.to_le_bytes());
        data.extend_from_slice(&destination.to_le_bytes());
        data.extend_from_slice(&amount.to_le_bytes());
        data.extend_from_slice(&amount_source.to_le_bytes());
        data.extend_from_slice(&transform.to_le_bytes());
    }
    data
}

fn wave(len: usize) -> Vec<i16> {
    (0..len).map(|i| ((i as i32 * 997) % 20000 - 10000) as i16).collect()
}

fn minimal() -> Builder {
    let mut builder = Builder::new();
    let sample = builder.sample("Sine", &wave(32), 60, 0, 32);
    let instrument =
        builder.instrument("Instrument", vec![(vec![(GeneratorType::SAMPLE_MODES, 1)], sample)]);
    builder.preset("Preset", 0, 0, vec![(Vec::new(), instrument)]);
    builder
}

fn load(bytes: Vec<u8>) -> SoundFont {
    SoundFont::new(&bytes).expect("the builder makes a loadable SoundFont")
}

#[test]
fn minimal_soundfont_loads_without_warnings() {
    let sound_font = load(minimal().build());
    assert!(sound_font.get_warnings().is_empty());
    assert_eq!(sound_font.get_presets().len(), 1);
    assert_eq!(sound_font.get_instruments().len(), 1);
    assert_eq!(sound_font.get_bits_per_sample(), 16);
    assert_eq!(sound_font.get_wave_data().len(), 32 + SAMPLE_PADDING);

    let preset = &sound_font.get_presets()[0];
    assert_eq!(preset.get_name(), "Preset");
    assert_eq!(preset.get_bank_number(), 0);
    assert_eq!(preset.get_patch_number(), 0);
    assert_eq!(preset.get_regions().len(), 1);
    assert_eq!(preset.get_regions()[0].get_instrument_id(), 0);

    let instrument = &sound_font.get_instruments()[0];
    assert_eq!(instrument.get_name(), "Instrument");
    assert_eq!(instrument.get_regions().len(), 1);
    let region = &instrument.get_regions()[0];
    assert_eq!(region.get_sample_id(), 0);
    assert_eq!(region.get_sample_start(), 0);
    assert_eq!(region.get_sample_end(), 32);
    assert_eq!(region.get_sample_modes(), LoopMode::Continuous);

    let sample = &sound_font.get_sample_headers()[0];
    assert_eq!(sound_font.get_sample_headers().len(), 1);
    assert_eq!(sample.get_name(), "Sine");
    assert_eq!(sample.get_start(), 0);
    assert_eq!(sample.get_end(), 32);
    assert_eq!(sample.get_start_loop(), 0);
    assert_eq!(sample.get_end_loop(), 32);
    assert_eq!(sample.get_sample_rate(), 44100);
    assert_eq!(sample.get_original_pitch(), 60);

    let info = sound_font.get_info();
    assert_eq!(info.get_version().get_major(), 2);
    assert_eq!(info.get_version().get_minor(), 1);
    assert_eq!(info.get_bank_name(), "Test SoundFont");
    assert_eq!(info.get_author(), "Someone");
    assert_eq!(info.get_copyright(), "");
}

#[test]
fn melodic_and_drum_presets_are_told_apart() {
    let mut builder = Builder::new();
    let melodic_sample = builder.sample("Sine", &wave(64), 60, 0, 64);
    let drum_sample = builder.sample("Sine Drum", &wave(64), 36, 0, 64);
    let melodic = builder
        .instrument("Melodic", vec![(vec![(GeneratorType::SAMPLE_MODES, 1)], melodic_sample)]);
    let drum = builder.instrument("Drum", vec![(vec![(GeneratorType::SAMPLE_MODES, 1)], drum_sample)]);
    builder.preset("Sine Melodic", 0, 0, vec![(Vec::new(), melodic)]);
    builder.preset("Sine Drum", 128, 0, vec![(Vec::new(), drum)]);
    let sound_font = load(builder.build());

    assert!(sound_font.get_warnings().is_empty());
    let presets = sound_font.get_presets();
    assert_eq!(presets[1].get_bank_number(), 128);
    let melodic_sample_id = sound_font.get_instruments()[presets[0].get_regions()[0].get_instrument_id()]
        .get_regions()[0]
        .get_sample_id();
    let drum_sample_id = sound_font.get_instruments()[presets[1].get_regions()[0].get_instrument_id()]
        .get_regions()[0]
        .get_sample_id();
    assert_eq!(sound_font.get_sample_headers()[melodic_sample_id].get_original_pitch(), 60);
    assert_eq!(sound_font.get_sample_headers()[drum_sample_id].get_original_pitch(), 36);
}

#[test]
fn instrument_zone_modulators_are_parsed_and_terminal_dropped() {
    let mut builder = Builder::new();
    let sample = builder.sample("Sine", &wave(32), 60, 0, 32);
    let modulator: ModulatorRecord = (0x0081, GeneratorType::VIBRATO_LFO_TO_PITCH, 50, 0, 0);
    let instrument = builder.instrument_with_modulators(
        "Instrument",
        None,
        vec![(vec![(GeneratorType::SAMPLE_MODES, 1)], vec![modulator], sample)],
    );
    builder.preset("Preset", 0, 0, vec![(Vec::new(), instrument)]);
    let sound_font = load(builder.build());

    assert!(sound_font.get_warnings().is_empty());
    let region = &sound_font.get_instruments()[0].get_regions()[0];
    assert_eq!(region.modulators.len(), 1);
    assert_eq!(region.modulators[0].source, 0x0081);
    assert_eq!(region.modulators[0].destination, GeneratorType::VIBRATO_LFO_TO_PITCH);
    assert_eq!(region.modulators[0].amount, 50);
}

#[test]
fn malformed_imod_chunk_size_loads_with_warning() {
    let mut builder = Builder::new();
    let sample = builder.sample("Sine", &wave(32), 60, 0, 32);
    let modulator: ModulatorRecord = (0x0081, GeneratorType::VIBRATO_LFO_TO_PITCH, 50, 0, 0);
    let instrument = builder.instrument_with_modulators(
        "Instrument",
        None,
        vec![(vec![(GeneratorType::SAMPLE_MODES, 1)], vec![modulator], sample)],
    );
    builder.preset("Preset", 0, 0, vec![(Vec::new(), instrument)]);
    builder.imod_extra_bytes = 2;
    let sound_font = load(builder.build());

    assert_eq!(
        sound_font.get_warnings(),
        &[
            "a modulator chunk had an invalid size (22 bytes, not a positive multiple of 10); its modulators were ignored".to_string(),
            "1 zone(s) had an out-of-range modulator index/count; their modulators were dropped".to_string(),
        ]
    );
    assert!(sound_font.get_instruments()[0].get_regions()[0].modulators.is_empty());
}

#[test]
fn malformed_pmod_chunk_size_loads_with_warning() {
    let mut builder = Builder::new();
    let sample = builder.sample("Sine", &wave(32), 60, 0, 32);
    let instrument =
        builder.instrument("Instrument", vec![(vec![(GeneratorType::SAMPLE_MODES, 1)], sample)]);
    let modulator: ModulatorRecord = (0x0081, GeneratorType::PAN, 50, 0, 0);
    builder.preset_with_modulators("Preset", 0, 0, None, vec![(Vec::new(), vec![modulator], instrument)]);
    builder.pmod_extra_bytes = 2;
    let sound_font = load(builder.build());

    assert!(!sound_font.get_warnings().is_empty());
    assert!(sound_font.get_presets()[0].get_regions()[0].modulators.is_empty());
}

#[test]
fn multiple_invalid_modulators_of_same_reason_produce_one_summary_warning() {
    let mut builder = Builder::new();
    let sample = builder.sample("Sine", &wave(32), 60, 0, 32);
    let banned_cc6: ModulatorRecord = (0x0086, GeneratorType::PAN, 1, 0, 0);
    let banned_cc120: ModulatorRecord = (0x00F8, GeneratorType::PAN, 1, 0, 0);
    let instrument = builder.instrument_with_modulators(
        "Instrument",
        None,
        vec![(vec![(GeneratorType::SAMPLE_MODES, 1)], vec![banned_cc6, banned_cc120], sample)],
    );
    builder.preset("Preset", 0, 0, vec![(Vec::new(), instrument)]);
    let sound_font = load(builder.build());

    assert!(sound_font.get_instruments()[0].get_regions()[0].modulators.is_empty());
    let banned: Vec<&String> =
        sound_font.get_warnings().iter().filter(|w| w.contains("banned MIDI CC")).collect();
    assert_eq!(banned.len(), 1);
    assert_eq!(banned[0], "2 modulator(s) dropped: banned MIDI CC used as a source");
}

#[test]
fn instrument_region_merges_local_over_identical_global_modulator() {
    let mut builder = Builder::new();
    let sample = builder.sample("Sine", &wave(32), 60, 0, 32);
    let shared: ModulatorRecord = (0x0081, GeneratorType::VIBRATO_LFO_TO_PITCH, 50, 0, 0);
    let overridden: ModulatorRecord = (0x0081, GeneratorType::VIBRATO_LFO_TO_PITCH, 75, 0, 0);
    let extra_global: ModulatorRecord = (0x028A, GeneratorType::PAN, 1000, 0, 0);
    let instrument = builder.instrument_with_modulators(
        "Instrument",
        Some((Vec::new(), vec![shared, extra_global])),
        vec![(vec![(GeneratorType::SAMPLE_MODES, 1)], vec![overridden], sample)],
    );
    builder.preset("Preset", 0, 0, vec![(Vec::new(), instrument)]);
    let sound_font = load(builder.build());

    assert!(sound_font.get_warnings().is_empty());
    let region = &sound_font.get_instruments()[0].get_regions()[0];
    assert_eq!(region.modulators.len(), 2);
    let vibrato = region
        .modulators
        .iter()
        .find(|m| m.destination == GeneratorType::VIBRATO_LFO_TO_PITCH)
        .unwrap();
    assert_eq!(vibrato.amount, 75);
    assert!(region.modulators.iter().any(|m| m.destination == GeneratorType::PAN && m.amount == 1000));
}

#[test]
fn region_past_the_sample_data_is_removed_with_warnings() {
    let mut builder = Builder::new();
    let sample = builder.sample("Sine", &wave(32), 60, 0, 32);
    // An end offset that moves the sample end far past the sample data.
    let instrument = builder.instrument(
        "Broken",
        vec![(
            vec![(GeneratorType::SAMPLE_MODES, 1), (GeneratorType::END_ADDRESS_COARSE_OFFSET, 1)],
            sample,
        )],
    );
    builder.preset("Preset", 0, 0, vec![(Vec::new(), instrument)]);
    let sound_font = load(builder.build());

    assert_eq!(sound_font.get_instruments()[0].get_regions().len(), 0);
    assert_eq!(
        sound_font.get_warnings(),
        &[
            "instrument 'Broken': region removed (sample_end 32800 >= wave_data len 78)".to_string(),
            "instrument 'Broken': all 1 regions removed".to_string(),
        ]
    );
}

#[test]
fn empty_loop_is_removed_only_for_a_looping_region() {
    let mut builder = Builder::new();
    let sample = builder.sample("Sine", &wave(32), 60, 8, 8);
    let instrument = builder.instrument(
        "Loops",
        vec![
            (vec![(GeneratorType::SAMPLE_MODES, 1)], sample),
            (vec![(GeneratorType::SAMPLE_MODES, 0)], sample),
        ],
    );
    builder.preset("Preset", 0, 0, vec![(Vec::new(), instrument)]);
    let sound_font = load(builder.build());

    let regions = sound_font.get_instruments()[0].get_regions();
    assert_eq!(regions.len(), 1);
    assert_eq!(regions[0].get_sample_modes(), LoopMode::NoLoop);
    assert_eq!(
        sound_font.get_warnings(),
        &["instrument 'Loops': region removed (loop mode active but start_loop 8 >= end_loop 8)".to_string()]
    );
}

#[test]
fn region_naming_a_missing_sample_is_removed() {
    let mut builder = Builder::new();
    let sample = builder.sample("Sine", &wave(32), 60, 0, 32);
    let instrument = builder.instrument(
        "Missing",
        vec![(vec![(GeneratorType::SAMPLE_MODES, 1)], sample), (Vec::new(), 7)],
    );
    builder.preset("Preset", 0, 0, vec![(Vec::new(), instrument)]);
    let sound_font = load(builder.build());

    assert_eq!(sound_font.get_instruments()[0].get_regions().len(), 1);
    assert_eq!(
        sound_font.get_warnings(),
        &["instrument 'Missing': region removed (sample_end 0 <= sample_start 0)".to_string()]
    );
}

#[test]
fn not_a_riff_file_is_rejected() {
    assert_eq!(SoundFont::new(b"RIFX\0\0\0\0sfbk").err(), Some(SoundFontError::RiffChunkNotFound));
    assert_eq!(SoundFont::new(b"RIF").err(), Some(SoundFontError::UnexpectedEndOfData));
}

#[test]
fn wrong_form_type_is_rejected() {
    let r = SoundFont::new(b"RIFF\0\0\0\0WAVE");
    match r {
        Err(SoundFontError::InvalidRiffChunkType { expected, actual }) => {
            assert_eq!(expected.as_bytes(), *b"sfbk");
            assert_eq!(actual.as_bytes(), *b"WAVE");
        },
        _ => panic!("expected InvalidRiffChunkType"),
    }
}

#[test]
fn test_load_reject_sf3() {
    let mut builder = minimal();
    builder.version_major = 3;
    assert_eq!(SoundFont::new(&builder.build()).err(), Some(SoundFontError::UnsupportedSampleFormat));
}

#[test]
fn test_load_empty_samples() {
    let mut builder = Builder::new();
    let instrument = builder.instrument("Instrument", vec![(Vec::new(), 0)]);
    builder.preset("Preset", 0, 0, vec![(Vec::new(), instrument)]);
    assert_eq!(SoundFont::new(&builder.build()).err(), Some(SoundFontError::SampleDataNotFound));
}

#[test]
fn missing_pgen_sub_chunk_is_reported() {
    let mut builder = minimal();
    builder.omit_pgen = true;
    match SoundFont::new(&builder.build()) {
        Err(SoundFontError::SubChunkNotFound(id)) => assert_eq!(id.as_bytes(), *b"pgen"),
        _ => panic!("expected SubChunkNotFound"),
    }
}

#[test]
fn preset_naming_a_missing_instrument_is_rejected() {
    let mut builder = Builder::new();
    let sample = builder.sample("Sine", &wave(32), 60, 0, 32);
    builder.instrument("Instrument", vec![(vec![(GeneratorType::SAMPLE_MODES, 1)], sample)]);
    builder.preset("Preset", 0, 0, vec![(Vec::new(), 5)]);
    assert_eq!(
        SoundFont::new(&builder.build()).err(),
        Some(SoundFontError::InvalidInstrumentId { preset_id: 0, instrument_id: 5 })
    );
}

#[test]
fn truncated_file_is_rejected() {
    let bytes = minimal().build();
    for cut in [bytes.len() - 1, bytes.len() / 2, 13] {
        assert!(SoundFont::new(&bytes[..cut]).is_err());
    }
}

/// A font with a melodic preset 0:0 with two layers (keys 0-63, and 40-127 above
/// velocity 64), a drum kit 128:0, a drum kit 128:5 for keys 60-127, and 1:0.
fn lookup_font() -> SoundFont {
    let mut builder = Builder::new();
    let sample = builder.sample("Sine", &wave(64), 60, 0, 64);
    let low = builder.instrument(
        "Layers",
        vec![
            (vec![(GeneratorType::KEY_RANGE, 0x3F00), (GeneratorType::SAMPLE_MODES, 1)], sample),
            (
                vec![
                    (GeneratorType::KEY_RANGE, 0x7F28),
                    (GeneratorType::VELOCITY_RANGE, 0x7F41),
                    (GeneratorType::SAMPLE_MODES, 1),
                ],
                sample,
            ),
        ],
    );
    let drums = builder.instrument("Drums", vec![(vec![(GeneratorType::SAMPLE_MODES, 1)], sample)]);
    builder.preset("Piano", 0, 0, vec![(Vec::new(), low)]);
    builder.preset("Standard", 128, 0, vec![(Vec::new(), drums)]);
    builder.preset("Room", 128, 5, vec![(vec![(GeneratorType::KEY_RANGE, 0x7F3C)], drums)]);
    builder.preset("Bright", 1, 0, vec![(Vec::new(), low)]);
    load(builder.build())
}

#[test]
fn preset_lookup_falls_back_to_gm_and_default() {
    let sound_font = lookup_font();
    let lookup = PresetLookup::new(sound_font.get_presets());
    assert_eq!(lookup.find(0, 0), 0);
    assert_eq!(lookup.find(128, 0), 1);
    assert_eq!(lookup.find(128, 5), 2);
    assert_eq!(lookup.find(1, 0), 3);
    // A missing melodic bank falls back to the patch in bank 0.
    assert_eq!(lookup.find(7, 0), 0);
    // A missing drum kit falls back to the standard set.
    assert_eq!(lookup.find(128, 9), 1);
    // A missing patch falls back to the default preset, the one with the smallest id.
    assert_eq!(lookup.find(0, 40), 0);
}

#[test]
fn note_regions_follow_key_and_velocity_ranges() {
    let sound_font = lookup_font();
    assert_eq!(regions_for_note(&sound_font, 0, 30, 100), vec![(0, 0)]);
    assert_eq!(regions_for_note(&sound_font, 0, 50, 100), vec![(0, 0), (0, 1)]);
    assert_eq!(regions_for_note(&sound_font, 0, 50, 40), vec![(0, 0)]);
    assert_eq!(regions_for_note(&sound_font, 0, 100, 40), Vec::<(usize, usize)>::new());
    assert_eq!(regions_for_note(&sound_font, 2, 60, 100), vec![(0, 0)]);
    assert_eq!(regions_for_note(&sound_font, 2, 40, 100), Vec::<(usize, usize)>::new());
}

#[test]
fn region_pair_adds_preset_and_instrument_values() {
    let mut builder = Builder::new();
    let sample = builder.sample("Sine", &wave(64), 60, 0, 64);
    let instrument = builder.instrument(
        "Quiet",
        vec![(
            vec![
                (GeneratorType::INITIAL_ATTENUATION, 1000),
                (GeneratorType::COARSE_TUNE, 3),
                (GeneratorType::SAMPLE_MODES, 1),
            ],
            sample,
        )],
    );
    builder.preset(
        "Quieter",
        0,
        0,
        vec![(vec![(GeneratorType::INITIAL_ATTENUATION, 600), (GeneratorType::COARSE_TUNE, 2)], instrument)],
    );
    let sound_font = load(builder.build());
    let preset_region = &sound_font.get_presets()[0].get_regions()[0];
    let instrument_region = &sound_font.get_instruments()[0].get_regions()[0];

    let clamped = RegionPair::new(preset_region, instrument_region, true);
    assert_eq!(clamped.gs(GeneratorType::INITIAL_ATTENUATION as usize), 1440);
    assert_eq!(clamped.get_coarse_tune(), 5);
    assert_eq!(clamped.get_root_key(), 60);

    let plain = RegionPair::new(preset_region, instrument_region, false);
    assert_eq!(plain.gs(GeneratorType::INITIAL_ATTENUATION as usize), 1600);

    let mut offsets = [0; 61];
    offsets[GeneratorType::INITIAL_ATTENUATION as usize] = -300;
    let offset = clamped.with_offsets(&offsets);
    assert_eq!(offset.gs(GeneratorType::INITIAL_ATTENUATION as usize), 1300);
}

fn sine_wave(len: usize, amplitude: i16) -> Vec<i16> {
    (0..len)
        .map(|i| {
            let phase = 2.0 * std::f64::consts::PI * i as f64 / len as f64;
            (phase.sin() * amplitude as f64).round() as i16
        })
        .collect()
}

/// One looped sine sample per preset: a melodic preset 0:0 and a drum preset 128:0, with
/// samples of different original pitches.
fn sine_soundfont() -> SoundFont {
    let mut builder = Builder::new();
    let wave = sine_wave(64, 12000);
    let melodic_sample = builder.sample("Sine", &wave, 60, 0, 64);
    let drum_sample = builder.sample("Sine Drum", &wave, 36, 0, 64);
    let melodic = builder
        .instrument("Sine Instrument", vec![(vec![(GeneratorType::SAMPLE_MODES, 1)], melodic_sample)]);
    let drum = builder
        .instrument("Sine Drum Instrument", vec![(vec![(GeneratorType::SAMPLE_MODES, 1)], drum_sample)]);
    builder.preset("Sine Melodic", 0, 0, vec![(Vec::new(), melodic)]);
    builder.preset("Sine Drum", 128, 0, vec![(Vec::new(), drum)]);
    load(builder.build())
}

/// A single preset that sounds two instrument zones, panned hard left and right, on every
/// key.
fn layered_soundfont() -> SoundFont {
    let mut builder = Builder::new();
    let wave = sine_wave(64, 12000);
    let sample = builder.sample("Sine", &wave, 60, 0, 64);
    let instrument = builder.instrument(
        "Layered Instrument",
        vec![
            (vec![(GeneratorType::SAMPLE_MODES, 1), (GeneratorType::PAN, -500)], sample),
            (vec![(GeneratorType::SAMPLE_MODES, 1), (GeneratorType::PAN, 500)], sample),
        ],
    );
    builder.preset("Layered Preset", 0, 0, vec![(Vec::new(), instrument)]);
    load(builder.build())
}

#[test]
fn sine_soundfont_has_distinguishable_melodic_and_drum_presets() {
    let sound_font = sine_soundfont();

    assert!(sound_font.get_warnings().is_empty());
    assert_eq!(sound_font.get_presets().len(), 2);

    let melodic = &sound_font.get_presets()[0];
    assert_eq!(melodic.get_bank_number(), 0);
    assert_eq!(melodic.get_patch_number(), 0);

    let drum = &sound_font.get_presets()[1];
    assert_eq!(drum.get_bank_number(), 128);
    assert_eq!(drum.get_patch_number(), 0);

    let melodic_sample_id = sound_font.get_instruments()[melodic.get_regions()[0].get_instrument_id()]
        .get_regions()[0]
        .get_sample_id();
    let drum_sample_id = sound_font.get_instruments()[drum.get_regions()[0].get_instrument_id()]
        .get_regions()[0]
        .get_sample_id();

    assert_ne!(
        sound_font.get_sample_headers()[melodic_sample_id].get_original_pitch(),
        sound_font.get_sample_headers()[drum_sample_id].get_original_pitch()
    );
}

#[test]
fn layered_soundfont_triggers_two_panned_zones_for_one_key() {
    let sound_font = layered_soundfont();

    assert!(sound_font.get_warnings().is_empty());
    let instrument = &sound_font.get_instruments()[0];
    assert_eq!(instrument.get_regions().len(), 2);

    let pans: Vec<f32> = instrument
        .get_regions()
        .iter()
        .map(|region| 0.1 * region.gs[GeneratorType::PAN as usize] as f32)
        .collect();
    assert!(pans.contains(&-50.0));
    assert!(pans.contains(&50.0));

    assert_eq!(regions_for_note(&sound_font, 0, 60, 100), vec![(0, 0), (0, 1)]);
}

#[test]
fn out_of_range_instrument_zone_modulator_index_loads_with_warning() {
    let mut builder = Builder::new();
    let wave = sine_wave(32, 10000);
    let sample = builder.sample("Sine", &wave, 60, 0, 32);
    let modulator: ModulatorRecord = (0x0081, GeneratorType::VIBRATO_LFO_TO_PITCH, 50, 0, 0);
    let instrument = builder.instrument_with_modulators(
        "Instrument",
        None,
        vec![(vec![(GeneratorType::SAMPLE_MODES, 1)], vec![modulator], sample)],
    );
    builder.preset("Preset", 0, 0, vec![(Vec::new(), instrument)]);
    // Only one zone (index 0); point it past the end of imod (1 real record + terminal).
    builder.set_instrument_zone_modulator_index(0, 999);

    let sound_font = load(builder.build());

    assert!(!sound_font.get_warnings().is_empty());
    let region = &sound_font.get_instruments()[0].get_regions()[0];
    assert!(region.modulators.is_empty());
}

#[test]
fn preset_region_drops_sample_modes_destination_with_summary_warning() {
    let mut builder = Builder::new();
    let wave = sine_wave(32, 10000);
    let sample = builder.sample("Sine", &wave, 60, 0, 32);
    let instrument =
        builder.instrument("Instrument", vec![(vec![(GeneratorType::SAMPLE_MODES, 1)], sample)]);

    // Valid at the instrument level, but preset generators are relative offsets, so
    // SAMPLE_MODES is not a modulatable preset destination.
    let invalid: ModulatorRecord = (0x0081, GeneratorType::SAMPLE_MODES, 1, 0, 0);
    builder.preset_with_modulators(
        "Preset",
        0,
        0,
        None,
        vec![(Vec::new(), vec![invalid], instrument)],
    );

    let sound_font = load(builder.build());

    assert!(!sound_font.get_warnings().is_empty());
    let region = &sound_font.get_presets()[0].get_regions()[0];
    assert!(region.modulators.is_empty());
}

#[test]
fn start_note_gives_each_layer_a_slot() {
    let sound_font = layered_soundfont();
    let lookup = PresetLookup::new(sound_font.get_presets());
    let mut voices = VoicePool::new(8);
    let start = start_note(&sound_font, &lookup, &mut voices, 0, 60, 100, 0, 0);
    assert_eq!(start.preset, 0);
    assert_eq!(start.regions, vec![(0, 0), (0, 1)]);
    assert_eq!(start.slots, vec![SlotChoice::Fresh(0), SlotChoice::Fresh(1)]);
    assert_eq!(voices.active_count(), 2);
    assert_eq!(voices.slots_of_key(0, 60), vec![0, 1]);
}

#[test]
fn start_note_reports_busy_slots_when_the_pool_is_full() {
    let sound_font = layered_soundfont();
    let lookup = PresetLookup::new(sound_font.get_presets());
    let mut voices = VoicePool::new(2);
    start_note(&sound_font, &lookup, &mut voices, 1, 40, 100, 0, 0);
    let start = start_note(&sound_font, &lookup, &mut voices, 0, 60, 100, 0, 0);
    assert_eq!(start.slots, vec![SlotChoice::Busy, SlotChoice::Busy]);
    assert_eq!(voices.active_count(), 2);
    assert_eq!(voices.slots_of_channel(0), Vec::<usize>::new());
}

#[test]
fn start_note_cuts_off_the_voice_of_the_same_exclusive_class() {
    let mut builder = Builder::new();
    let wave = sine_wave(32, 10000);
    let sample = builder.sample("Hat", &wave, 60, 0, 32);
    let instrument = builder.instrument(
        "Hats",
        vec![(vec![(GeneratorType::EXCLUSIVE_CLASS, 1), (GeneratorType::SAMPLE_MODES, 1)], sample)],
    );
    builder.preset("Kit", 128, 0, vec![(Vec::new(), instrument)]);
    let sound_font = load(builder.build());
    let lookup = PresetLookup::new(sound_font.get_presets());
    let mut voices = VoicePool::new(8);
    let open = start_note(&sound_font, &lookup, &mut voices, 9, 46, 100, 128, 0);
    assert_eq!(open.slots, vec![SlotChoice::Fresh(0)]);
    let closed = start_note(&sound_font, &lookup, &mut voices, 9, 42, 100, 128, 0);
    assert_eq!(closed.slots, vec![SlotChoice::Reused(0)]);
    assert_eq!(voices.active_count(), 1);
    assert_eq!(voices.tag(0).key, 42);
    // Another channel has its own voice of the class.
    let other = start_note(&sound_font, &lookup, &mut voices, 10, 42, 100, 128, 0);
    assert_eq!(other.slots, vec![SlotChoice::Fresh(1)]);
}

#[test]
fn unusable_loop_points_remove_only_a_looping_region() {
    let mut builder = Builder::new();
    // Loop points before the sample data and past its end.
    let sample = builder.sample("Sine", &wave(32), 60, -1, 500);
    let instrument = builder.instrument(
        "Loops",
        vec![
            (vec![(GeneratorType::SAMPLE_MODES, 1)], sample),
            (vec![(GeneratorType::SAMPLE_MODES, 0)], sample),
        ],
    );
    builder.preset("Preset", 0, 0, vec![(Vec::new(), instrument)]);
    let sound_font = load(builder.build());

    let regions = sound_font.get_instruments()[0].get_regions();
    assert_eq!(regions.len(), 1);
    assert_eq!(regions[0].get_sample_modes(), LoopMode::NoLoop);
    assert_eq!(regions[0].get_sample_start_loop(), -1);
    assert_eq!(
        sound_font.get_warnings(),
        &["instrument 'Loops': region removed (sample_start_loop -1 < 0)".to_string()]
    );
}
