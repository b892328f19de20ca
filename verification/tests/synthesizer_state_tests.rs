use rustysynth::channel::{Rx, SystemMode};
use rustysynth::synthesizer_state::{MidiAction, SynthesizerState};
use rustysynth::sysex::SysExMessage;

const GS_RESET: &[u8] = &[0x41, 0x10, 0x42, 0x12, 0x40, 0x00, 0x7F, 0x00, 0x41];
const XG_SYSTEM_ON: &[u8] = &[0x43, 0x10, 0x4C, 0x00, 0x00, 0x7E, 0x00];
const GM_SYSTEM_ON: &[u8] = &[0x7E, 0x7F, 0x09, 0x01];

/// The master volume received by SysEx, as a level.
fn sysex_master_volume(state: &SynthesizerState) -> f32 {
    state.volume_value as f32 / state.volume_full_scale as f32
}

/// The master fine tune received by SysEx, in semitones.
fn sysex_fine_tune(state: &SynthesizerState) -> f32 {
    state.fine_tune as f32 / 8192.0
}

/// The master coarse tune received by SysEx, in semitones.
fn sysex_coarse_tune(state: &SynthesizerState) -> f32 {
    state.coarse_tune as f32
}

fn note_started(action: MidiAction) -> bool {
    matches!(action, MidiAction::NoteOn { .. })
}

#[test]
fn gs_reset_restores_default_drum_channel() {
    let mut synthesizer = SynthesizerState::new();
    synthesizer.set_percussion_channel(9, false);
    synthesizer.set_percussion_channel(10, true);

    synthesizer.process_sysex(GS_RESET);
    assert_eq!(synthesizer.channels[9].get_bank_number(), 128);
    assert_eq!(synthesizer.channels[10].get_bank_number(), 0);
}

#[test]
fn gs_use_for_rhythm_part_switches_drum_channel() {
    let mut synthesizer = SynthesizerState::new();

    // Part 1 is channel 1 (index 0); part 0 is channel 10.
    synthesizer.process_sysex(&[0x41, 0x10, 0x42, 0x12, 0x40, 0x11, 0x15, 0x02, 0x18]);
    synthesizer.process_sysex(&[0x41, 0x10, 0x42, 0x12, 0x40, 0x10, 0x15, 0x00, 0x1B]);
    assert_eq!(synthesizer.channels[0].get_bank_number(), 128);
    assert_eq!(synthesizer.channels[9].get_bank_number(), 0);
}

#[test]
fn plain_reset_keeps_configured_drum_channel() {
    let mut synthesizer = SynthesizerState::new();
    synthesizer.set_percussion_channel(10, true);

    synthesizer.reset();
    assert_eq!(synthesizer.channels[10].get_bank_number(), 128);
}

#[test]
fn reset_messages_select_system_mode_and_reset_returns_to_gm() {
    let mut synthesizer = SynthesizerState::new();

    let assert_mode_pushed = |synthesizer: &SynthesizerState, mode: SystemMode| {
        assert_eq!(synthesizer.system_mode, mode);
        assert_eq!(synthesizer.channels[0].get_system_mode(), mode);
        assert_eq!(synthesizer.channels[15].get_system_mode(), mode);
    };

    assert_mode_pushed(&synthesizer, SystemMode::Gm);

    synthesizer.process_sysex(GS_RESET);
    assert_mode_pushed(&synthesizer, SystemMode::Gs);

    synthesizer.process_sysex(XG_SYSTEM_ON);
    assert_mode_pushed(&synthesizer, SystemMode::Xg);

    synthesizer.process_sysex(GM_SYSTEM_ON);
    assert_mode_pushed(&synthesizer, SystemMode::Gm);

    synthesizer.process_sysex(XG_SYSTEM_ON);
    assert_mode_pushed(&synthesizer, SystemMode::Xg);

    synthesizer.reset();
    assert_mode_pushed(&synthesizer, SystemMode::Gm);
}

#[test]
fn gs_and_xg_device_ids_10_to_1f_are_accepted() {
    let mut synthesizer = SynthesizerState::new();
    synthesizer.set_percussion_channel(9, false);

    synthesizer.process_sysex(&[0x41, 0x1F, 0x42, 0x12, 0x40, 0x00, 0x7F, 0x00, 0x41]);
    assert_eq!(synthesizer.system_mode, SystemMode::Gs);
    assert_eq!(synthesizer.channels[9].get_bank_number(), 128);

    synthesizer.process_sysex(&[0x43, 0x1F, 0x4C, 0x00, 0x00, 0x7E, 0x00]);
    assert_eq!(synthesizer.system_mode, SystemMode::Xg);

    // Device ID 0x20 falls outside the accepted 10h-1Fh range, so the message is ignored.
    synthesizer.process_sysex(&[0x41, 0x20, 0x42, 0x12, 0x40, 0x00, 0x7F, 0x00, 0x41]);
    assert_eq!(synthesizer.system_mode, SystemMode::Xg);
}

#[test]
fn xg_bank_msb_127_selects_drum_bank_and_keeps_patch() {
    let mut synthesizer = SynthesizerState::new();
    synthesizer.process_sysex(XG_SYSTEM_ON);

    synthesizer.process_midi_message(0, 0xB0, 0, 127);
    synthesizer.process_midi_message(0, 0xC0, 5, 0);
    assert_eq!(synthesizer.channels[0].get_bank_number(), 128);
    assert_eq!(synthesizer.channels[0].get_patch_number(), 5);

    synthesizer.process_midi_message(0, 0xB0, 0, 0);
    assert_eq!(synthesizer.channels[0].get_bank_number(), 0);
    assert!(!synthesizer.channels[0].get_is_percussion_channel());
}

#[test]
fn xg_part_mode_sysex_sets_and_clears_percussion() {
    let mut synthesizer = SynthesizerState::new();

    // No reset message is sent, so this also shows Part Mode works in GM mode.
    synthesizer.process_sysex(&[0x43, 0x10, 0x4C, 0x08, 0x02, 0x07, 0x01]);
    assert!(synthesizer.channels[2].get_is_percussion_channel());

    synthesizer.process_sysex(&[0x43, 0x10, 0x4C, 0x08, 0x02, 0x07, 0x00]);
    assert!(!synthesizer.channels[2].get_is_percussion_channel());

    synthesizer.process_sysex(&[0x43, 0x1F, 0x4C, 0x08, 0x09, 0x07, 0x00]);
    assert!(!synthesizer.channels[9].get_is_percussion_channel());

    // Out-of-range part index is ignored without panicking.
    let m = synthesizer.process_sysex(&[0x43, 0x10, 0x4C, 0x08, 0x10, 0x07, 0x01]);
    assert!(matches!(m, SysExMessage::Ignored));
}

#[test]
fn master_fine_and_coarse_tune_sysex_add_up() {
    let mut synthesizer = SynthesizerState::new();
    synthesizer.process_sysex(&[0x7F, 0x7F, 0x04, 0x04, 0x00, 0x42]);
    synthesizer.process_sysex(&[0x7F, 0x7F, 0x04, 0x03, 0x00, 0x60]);
    assert_eq!(sysex_coarse_tune(&synthesizer), 2.0);
    assert_eq!(sysex_fine_tune(&synthesizer), 0.5);

    synthesizer.reset();
    assert_eq!(sysex_coarse_tune(&synthesizer), 0.0);
    assert_eq!(sysex_fine_tune(&synthesizer), 0.0);
}

#[test]
fn full_scale_master_volume_sysex_keeps_default_level() {
    let mut synthesizer = SynthesizerState::new();
    synthesizer.process_sysex(&[0x7F, 0x7F, 0x04, 0x01, 0x7F, 0x7F]);
    assert_eq!(sysex_master_volume(&synthesizer), 1.0);

    synthesizer.process_sysex(&[0x7F, 0x7F, 0x04, 0x01, 0x00, 0x00]);
    assert_eq!(sysex_master_volume(&synthesizer), 0.0);

    synthesizer.reset();
    assert_eq!(sysex_master_volume(&synthesizer), 1.0);
}

#[test]
fn truncated_master_volume_sysex_is_ignored() {
    let mut synthesizer = SynthesizerState::new();
    synthesizer.process_sysex(&[0x7F, 0x7F, 0x04, 0x01, 0x7F]);
    assert_eq!(sysex_master_volume(&synthesizer), 1.0);
}

#[test]
fn gs_part_parameters_reach_the_same_state_as_their_controllers() {
    let mut synthesizer = SynthesizerState::new();
    // Part 2 is MIDI channel 1: 41 1n 42 12 40 1x nn vv.
    let part = |synthesizer: &mut SynthesizerState, nn: u8, vv: u8| {
        synthesizer.process_sysex(&[0x41, 0x10, 0x42, 0x12, 0x40, 0x12, nn, vv]);
    };

    let mut reference = SynthesizerState::new();
    reference.process_midi_message(1, 0xB0, 0x07, 90); // Channel Volume
    reference.process_midi_message(1, 0xB0, 0x0A, 100); // Pan
    reference.process_midi_message(1, 0xB0, 0x5B, 70); // Reverb Send
    reference.process_midi_message(1, 0xB0, 0x5D, 30); // Chorus Send

    part(&mut synthesizer, 0x19, 90);
    part(&mut synthesizer, 0x1C, 100);
    part(&mut synthesizer, 0x22, 70);
    part(&mut synthesizer, 0x21, 30);

    assert_eq!(synthesizer.channels[1].volume, reference.channels[1].volume);
    assert_eq!(synthesizer.channels[1].pan, reference.channels[1].pan);
    assert_eq!(synthesizer.channels[1].reverb_send, reference.channels[1].reverb_send);
    assert_eq!(synthesizer.channels[1].chorus_send, reference.channels[1].chorus_send);

    // Pitch Key Shift is additive with the RPN coarse tune.
    part(&mut synthesizer, 0x16, 0x40 + 3);
    let c = &synthesizer.channels[1];
    let tune = c.coarse_tune as f32 + c.key_shift as f32 + (c.fine_tune as f32 - 8192.0) / 8192.0;
    assert_eq!(tune, 3.0);

    // A panpot of 0 asks for a random position and is taken as centre.
    part(&mut synthesizer, 0x1C, 0);
    reference.process_midi_message(1, 0xB0, 0x0A, 64);
    assert_eq!(synthesizer.channels[1].pan, reference.channels[1].pan);
}

#[test]
fn gs_keyboard_range_silences_keys_outside_it() {
    let mut synthesizer = SynthesizerState::new();
    // Part 1 is MIDI channel 0: keyboard range 60-72.
    synthesizer.process_sysex(&[0x41, 0x10, 0x42, 0x12, 0x40, 0x11, 0x1D, 60]);
    synthesizer.process_sysex(&[0x41, 0x10, 0x42, 0x12, 0x40, 0x11, 0x1E, 72]);

    assert!(!note_started(synthesizer.process_midi_message(0, 0x90, 59, 100)));
    assert!(note_started(synthesizer.process_midi_message(0, 0x90, 60, 100)));
    assert!(!note_started(synthesizer.process_midi_message(0, 0x90, 73, 100)));
}

#[test]
fn gs_receive_switches_discard_the_messages_they_cover() {
    let mut synthesizer = SynthesizerState::new();
    // Part 1 is MIDI channel 0: 41 1n 42 12 40 11 nn vv.
    let rx = |synthesizer: &mut SynthesizerState, nn: u8, on: u8| {
        synthesizer.process_sysex(&[0x41, 0x10, 0x42, 0x12, 0x40, 0x11, nn, on]);
    };

    // Rx. NOTE MESSAGE off silences the part.
    rx(&mut synthesizer, 0x08, 0);
    assert!(!synthesizer.channels[0].receives(Rx::Note));
    assert_eq!(synthesizer.process_midi_message(0, 0x90, 60, 100), MidiAction::Nothing);
    rx(&mut synthesizer, 0x08, 1);
    assert!(note_started(synthesizer.process_midi_message(0, 0x90, 60, 100)));

    // Rx. VOLUME off leaves the channel volume alone, and the raw controller with it.
    let volume = synthesizer.channels[0].volume;
    rx(&mut synthesizer, 0x0C, 0);
    synthesizer.process_midi_message(0, 0xB0, 0x07, 10);
    assert_eq!(synthesizer.channels[0].volume, volume);
    assert_eq!(synthesizer.channels[0].get_controller_value(0x07), 100);

    // Another controller is still received: the switch covers one parameter.
    synthesizer.process_midi_message(0, 0xB0, 0x0A, 100);
    assert_eq!(synthesizer.channels[0].get_controller_value(0x0A), 100);

    // Rx. CONTROL CHANGE off blocks every controller.
    rx(&mut synthesizer, 0x06, 0);
    synthesizer.process_midi_message(0, 0xB0, 0x0A, 20);
    assert_eq!(synthesizer.channels[0].get_controller_value(0x0A), 100);
    rx(&mut synthesizer, 0x06, 1);

    // Rx. NRPN off blocks the parameter number and the data entry that follows it,
    // while RPN keeps working.
    rx(&mut synthesizer, 0x0A, 0);
    synthesizer.process_midi_message(0, 0xB0, 0x63, 0x01);
    synthesizer.process_midi_message(0, 0xB0, 0x62, 0x20);
    synthesizer.process_midi_message(0, 0xB0, 0x06, 100);
    assert_eq!(synthesizer.channels[0].get_brightness_raw(), 64);
    synthesizer.process_midi_message(0, 0xB0, 0x65, 0);
    synthesizer.process_midi_message(0, 0xB0, 0x64, 0);
    synthesizer.process_midi_message(0, 0xB0, 0x06, 4);
    let range = synthesizer.channels[0].pitch_bend_range;
    assert_eq!((range >> 7) as f32 + 0.01 * (range & 0x7F) as f32, 4.0);

    // Rx. PITCH BEND off freezes the bend.
    rx(&mut synthesizer, 0x03, 0);
    synthesizer.process_midi_message(0, 0xE0, 0, 100);
    assert_eq!(synthesizer.channels[0].get_pitch_bend_raw(), 8192);
}

#[test]
fn gs_master_volume_and_key_shift_use_sysex_fields() {
    let mut synthesizer = SynthesizerState::new();

    // GS Master Volume: 40 00 04 vv
    synthesizer.process_sysex(&[0x41, 0x10, 0x42, 0x12, 0x40, 0x00, 0x04, 0x40]);
    assert!((sysex_master_volume(&synthesizer) - 64.0 / 127.0).abs() < 1e-5);

    // GS Master Key Shift: 40 00 05 vv, 0x42 = +2 semitones.
    synthesizer.process_sysex(&[0x41, 0x10, 0x42, 0x12, 0x40, 0x00, 0x05, 0x42]);
    assert_eq!(sysex_coarse_tune(&synthesizer), 2.0);

    synthesizer.reset();
    assert_eq!(sysex_master_volume(&synthesizer), 1.0);
    assert_eq!(sysex_coarse_tune(&synthesizer), 0.0);
}

#[test]
fn gs_reverb_macro_sets_effect_parameters() {
    let mut synthesizer = SynthesizerState::new();
    let m = synthesizer.process_sysex(&[0x41, 0x10, 0x42, 0x12, 0x40, 0x01, 0x30, 0x00]);
    assert!(matches!(m, SysExMessage::ReverbMacro(0)));
    let m = synthesizer.process_sysex(&[0x41, 0x10, 0x42, 0x12, 0x40, 0x01, 0x30, 0x04]);
    assert!(matches!(m, SysExMessage::ReverbMacro(4)));
    // Out-of-range macro 8 is ignored.
    let m = synthesizer.process_sysex(&[0x41, 0x10, 0x42, 0x12, 0x40, 0x01, 0x30, 0x08]);
    assert!(matches!(m, SysExMessage::Ignored));
}

#[test]
fn xg_bank_lsb_selects_melodic_bank_only_in_xg_mode() {
    let mut synthesizer = SynthesizerState::new();

    synthesizer.process_sysex(XG_SYSTEM_ON);
    synthesizer.process_midi_message(0, 0xB0, 0, 0);
    synthesizer.process_midi_message(0, 0xB0, 32, 5);
    assert_eq!(synthesizer.channels[0].get_bank_number(), 5);

    synthesizer.process_sysex(GS_RESET);
    synthesizer.process_midi_message(0, 0xB0, 0, 0);
    synthesizer.process_midi_message(0, 0xB0, 32, 5);
    assert_eq!(synthesizer.channels[0].get_bank_number(), 0);

    synthesizer.process_sysex(GM_SYSTEM_ON);
    synthesizer.process_midi_message(0, 0xB0, 0, 0);
    synthesizer.process_midi_message(0, 0xB0, 32, 5);
    assert_eq!(synthesizer.channels[0].get_bank_number(), 0);
}

#[test]
fn xg_drum_kit_note_on_uses_bank_128_with_patch() {
    let mut synthesizer = SynthesizerState::new();
    synthesizer.process_sysex(XG_SYSTEM_ON);
    synthesizer.process_midi_message(0, 0xB0, 0, 127);
    synthesizer.process_midi_message(0, 0xC0, 5, 0);

    match synthesizer.process_midi_message(0, 0x90, 60, 100) {
        MidiAction::NoteOn { bank, patch, .. } => {
            assert_eq!(bank, 128);
            assert_eq!(patch, 5);
        }
        other => panic!("expected a note on, got {:?}", other),
    }
}

#[test]
fn gs_chorus_macro_sets_effect_parameters() {
    let mut synthesizer = SynthesizerState::new();
    for macro_number in 0..8u8 {
        let m = synthesizer.process_sysex(&[0x41, 0x10, 0x42, 0x12, 0x40, 0x01, 0x38, macro_number]);
        assert!(matches!(m, SysExMessage::ChorusMacro(n) if n == macro_number));
    }
    // Out-of-range macro 8 is ignored.
    let m = synthesizer.process_sysex(&[0x41, 0x10, 0x42, 0x12, 0x40, 0x01, 0x38, 0x08]);
    assert!(matches!(m, SysExMessage::Ignored));
}

#[test]
fn gs_reverb_level_scales_wet_level() {
    let mut synthesizer = SynthesizerState::new();
    let m = synthesizer.process_sysex(&[0x41, 0x10, 0x42, 0x12, 0x40, 0x01, 0x33, 0x40]);
    assert!(matches!(m, SysExMessage::ReverbLevel(0x40)));
    let m = synthesizer.process_sysex(&[0x41, 0x10, 0x42, 0x12, 0x40, 0x01, 0x33, 0x7F]);
    assert!(matches!(m, SysExMessage::ReverbLevel(0x7F)));
    let m = synthesizer.process_sysex(&[0x41, 0x10, 0x42, 0x12, 0x40, 0x01, 0x33, 0x00]);
    assert!(matches!(m, SysExMessage::ReverbLevel(0)));
}

#[test]
fn xg_system_on_restores_default_drum_channel() {
    let mut synthesizer = SynthesizerState::new();
    synthesizer.set_percussion_channel(9, false);
    synthesizer.set_percussion_channel(10, true);

    synthesizer.process_sysex(XG_SYSTEM_ON);
    assert_eq!(synthesizer.channels[9].get_bank_number(), 128);
    assert_eq!(synthesizer.channels[10].get_bank_number(), 0);
}

#[test]
fn sostenuto_sustains_only_notes_held_when_pedal_goes_down() {
    let mut synthesizer = SynthesizerState::new();
    assert_eq!(
        synthesizer.process_midi_message(0, 0xB0, 66, 127),
        MidiAction::CaptureSostenuto { channel: 0 }
    );
    // Re-sending pedal down must not capture notes started in the meantime.
    assert_eq!(synthesizer.process_midi_message(0, 0xB0, 66, 127), MidiAction::Nothing);
    assert_eq!(synthesizer.process_midi_message(0, 0xB0, 66, 0), MidiAction::Nothing);
    assert_eq!(
        synthesizer.process_midi_message(0, 0xB0, 66, 100),
        MidiAction::CaptureSostenuto { channel: 0 }
    );
}

#[test]
fn scale_tuning_sysex_sets_the_part_tuning() {
    let mut synthesizer = SynthesizerState::new();
    // Part 1 is MIDI channel 0: 12 bytes, 64 is no offset.
    let mut message = vec![0x41, 0x10, 0x42, 0x12, 0x40, 0x11, 0x40];
    message.extend_from_slice(&[64, 64, 78, 64, 64, 64, 64, 64, 64, 64, 64, 34]);
    message.push(0x00);
    synthesizer.process_sysex(&message);
    assert_eq!(synthesizer.channels[0].get_scale_tuning_for_key(62), 14);
    assert_eq!(synthesizer.channels[0].get_scale_tuning_for_key(71), -30);

    // Eleven bytes are too few.
    let m = synthesizer.process_sysex(&message[..17]);
    assert!(matches!(m, SysExMessage::Ignored));
}

#[test]
fn note_on_velocity_zero_is_a_note_off() {
    let mut synthesizer = SynthesizerState::new();
    assert_eq!(
        synthesizer.process_midi_message(3, 0x90, 60, 0),
        MidiAction::NoteOff { channel: 3, key: 60 }
    );
    assert_eq!(
        synthesizer.process_midi_message(3, 0x80, 61, 40),
        MidiAction::NoteOff { channel: 3, key: 61 }
    );
    assert_eq!(synthesizer.process_midi_message(16, 0x90, 60, 100), MidiAction::Nothing);
    assert_eq!(synthesizer.process_midi_message(-1, 0x90, 60, 100), MidiAction::Nothing);
}

#[test]
fn portamento_source_is_the_previous_key_or_the_control() {
    let mut synthesizer = SynthesizerState::new();
    let source = |action: MidiAction| match action {
        MidiAction::NoteOn { portamento_source, .. } => portamento_source,
        other => panic!("expected a note on, got {:?}", other),
    };
    assert_eq!(source(synthesizer.process_midi_message(0, 0x90, 60, 100)), -1);
    assert_eq!(source(synthesizer.process_midi_message(0, 0x90, 64, 100)), 60);
    synthesizer.process_midi_message(0, 0xB0, 84, 50);
    assert_eq!(source(synthesizer.process_midi_message(0, 0x90, 67, 100)), 50);
    assert_eq!(source(synthesizer.process_midi_message(0, 0x90, 69, 100)), 67);
}

#[test]
fn all_sound_off_and_reset_all_controllers() {
    let mut synthesizer = SynthesizerState::new();
    assert_eq!(
        synthesizer.process_midi_message(2, 0xB0, 0x78, 0),
        MidiAction::AllSoundOff { channel: 2 }
    );
    assert_eq!(
        synthesizer.process_midi_message(2, 0xB0, 0x7B, 0),
        MidiAction::AllNotesOff { channel: 2 }
    );
    synthesizer.process_midi_message(2, 0xB0, 0x01, 100);
    synthesizer.process_midi_message(2, 0xB0, 0x07, 20);
    synthesizer.process_midi_message(2, 0xB0, 0x79, 0);
    assert_eq!(synthesizer.channels[2].modulation, 0);
    assert_eq!(synthesizer.channels[2].get_volume_raw(), 20);
}

#[test]
fn channel_mutes_read_back() {
    let mut synthesizer = SynthesizerState::new();
    synthesizer.set_channel_mute(3, true);
    synthesizer.set_channel_mute(15, true);
    synthesizer.set_channel_mute(16, true);
    assert!(synthesizer.is_channel_muted(3));
    assert!(synthesizer.is_channel_muted(15));
    assert!(!synthesizer.is_channel_muted(4));
    assert!(!synthesizer.is_channel_muted(16));
    assert_eq!(synthesizer.get_channel_mute_mask(), 0x8008);
    assert!(synthesizer.is_voice_muted(3));
    assert!(!synthesizer.is_voice_muted(-1));

    synthesizer.set_channel_mute(3, false);
    assert!(!synthesizer.is_channel_muted(3));
    assert_eq!(synthesizer.get_channel_mute_mask(), 0x8000);

    synthesizer.reset();
    assert_eq!(synthesizer.get_channel_mute_mask(), 0x8000);
    synthesizer.set_channel_mute_mask(0x0001);
    assert!(synthesizer.is_channel_muted(0));
}

#[test]
fn master_volume_bytes_are_joined_by_shift_and_or() {
    let mut state = SynthesizerState::new();
    // A low byte with its top bit set overlaps the lowest bit of the shifted high byte.
    state.process_sysex(&[0x7F, 0x7F, 0x04, 0x01, 0x80, 0x01]);
    assert_eq!(state.volume_value, 128);
    assert_eq!(state.volume_full_scale, 16383);
    state.process_sysex(&[0x7F, 0x7F, 0x04, 0x01, 0x7F, 0x7F]);
    assert_eq!(state.volume_value, 16383);
    state.process_sysex(&[0x7F, 0x7F, 0x04, 0x03, 0x80, 0x40]);
    assert_eq!(state.fine_tune, 0x2080 - 0x2000);
}
