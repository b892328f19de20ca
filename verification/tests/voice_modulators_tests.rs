use rustysynth::generator_type::GeneratorType;
use rustysynth::modulator::Modulator;
use rustysynth::voice_modulators::{
    default_modulator, default_modulator_at, is_realtime_destination, DefaultModulator,
    VoiceModulators, DEFAULT_MODULATOR_COUNT, MAX_VOICE_MODULATORS,
};

fn modulator(source: u16, destination: u16, amount: i16, amount_source: u16) -> Modulator {
    default_modulator(source, destination, amount, amount_source)
}

/// The amount of a default modulator relative to its SF2 default amount.
fn default_scale(modulators: &VoiceModulators, m: DefaultModulator) -> f32 {
    modulators.default_amount(m) as f32 / default_modulator_at(m.index()).amount as f32
}

fn items(modulators: &VoiceModulators) -> Vec<(u16, f32)> {
    modulators
        .items
        .iter()
        .zip(modulators.item_amounts.iter())
        .map(|(m, &amount)| (m.source, amount as f32))
        .collect()
}

#[test]
fn no_modulators_keeps_default_scales() {
    let mut modulators = VoiceModulators::new();
    modulators.start(&[], &[], true, true);
    for k in 0..DEFAULT_MODULATOR_COUNT {
        assert_eq!(
            modulators.default_amounts[k] as f32 / default_modulator_at(k).amount as f32,
            1.0
        );
    }
    assert_eq!(modulators.items.len(), 0);
}

#[test]
fn instrument_replaces_and_preset_adds_to_default() {
    let mut modulators = VoiceModulators::new();
    let instrument = [modulator(0x0102, GeneratorType::INITIAL_FILTER_CUTOFF_FREQUENCY, 0, 0x0D02)];
    let preset = [
        modulator(0x0502, GeneratorType::INITIAL_ATTENUATION, 960, 0),
        modulator(0x00DB, GeneratorType::REVERB_EFFECTS_SEND, 800, 0),
    ];
    modulators.start(&instrument, &preset, true, true);

    assert_eq!(default_scale(&modulators, DefaultModulator::VelocityToFilterCutoff), 0.0);
    assert_eq!(default_scale(&modulators, DefaultModulator::VelocityToAttenuation), 2.0);
    assert_eq!(default_scale(&modulators, DefaultModulator::ReverbSend), 5.0);
    assert_eq!(modulators.items.len(), 0);
}

#[test]
fn non_default_modulators_are_collected_and_preset_amounts_added() {
    let mut modulators = VoiceModulators::new();
    // CC2 -> attenuation, and the same without the concave curve (different identity).
    let instrument = [
        modulator(0x0582, GeneratorType::INITIAL_ATTENUATION, 480, 0),
        modulator(0x0182, GeneratorType::INITIAL_ATTENUATION, 100, 0),
    ];
    let preset = [modulator(0x0582, GeneratorType::INITIAL_ATTENUATION, 120, 0)];
    modulators.start(&instrument, &preset, true, true);

    assert_eq!(items(&modulators), vec![(0x0582, 600.0), (0x0182, 100.0)]);
    assert!(modulators.has_realtime_items());
    assert_eq!(modulators.realtime_len, 2);
}

#[test]
fn settings_disable_file_modulators_and_velocity_to_cutoff() {
    let mut modulators = VoiceModulators::new();
    let instrument = [modulator(0x0081, GeneratorType::VIBRATO_LFO_TO_PITCH, 0, 0)];
    modulators.start(&instrument, &[], false, false);

    assert_eq!(default_scale(&modulators, DefaultModulator::ModulationWheelToVibrato), 1.0);
    assert_eq!(default_scale(&modulators, DefaultModulator::VelocityToFilterCutoff), 0.0);

    // A file modulator can still restore the default the setting turned off.
    let instrument = [modulator(0x0102, GeneratorType::INITIAL_FILTER_CUTOFF_FREQUENCY, -1200, 0x0D02)];
    modulators.start(&instrument, &[], true, false);
    assert_eq!(default_scale(&modulators, DefaultModulator::VelocityToFilterCutoff), 0.5);
}

#[test]
fn modulators_beyond_capacity_are_ignored() {
    let mut modulators = VoiceModulators::new();
    let instrument: Vec<Modulator> = (0..40)
        .map(|i| modulator(0x0080 | (i + 1), GeneratorType::PAN, 10, 0))
        .collect();
    modulators.start(&instrument, &[], true, true);
    assert_eq!(modulators.items.len(), MAX_VOICE_MODULATORS);
}

#[test]
fn envelope_and_lfo_timing_are_not_realtime() {
    assert!(is_realtime_destination(GeneratorType::PAN));
    assert!(is_realtime_destination(GeneratorType::FINE_TUNE));
    assert!(!is_realtime_destination(GeneratorType::ATTACK_VOLUME_ENVELOPE));
    assert!(!is_realtime_destination(GeneratorType::DELAY_VIBRATO_LFO));

    let mut modulators = VoiceModulators::new();
    let instrument = [modulator(0x0002, GeneratorType::ATTACK_VOLUME_ENVELOPE, 16000, 0)];
    modulators.start(&instrument, &[], true, true);
    assert_eq!(modulators.items.len(), 1);
    assert!(!modulators.has_realtime_items());
}
