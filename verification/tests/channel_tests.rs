use rustysynth::channel::{Channel, SystemMode};

/// Sends one GS drum instrument NRPN: MSB, then the note number as LSB, then data entry.
fn drum_nrpn(channel: &mut Channel, msb: i32, note: i32, value: i32) {
    channel.set_nrpn_coarse(msb);
    channel.set_nrpn_fine(note);
    channel.data_entry_coarse(value);
}

/// A drum level or send as a gain.
fn gain(value: Option<u8>) -> Option<f32> {
    value.map(|v| v as f32 / 127.0)
}

/// A drum pan in the units of the pan generator; 0 (random) is centre.
fn pan(value: Option<u8>) -> Option<f32> {
    value.map(|v| match v {
        0 => 0.0,
        _ => (v as f32 - 64.0) * (50.0 / 63.0),
    })
}

#[test]
fn gs_drum_nrpns_are_stored_per_note() {
    let mut channel = Channel::new(true);

    drum_nrpn(&mut channel, 0x18, 38, 66); // pitch coarse, +2 semitones
    drum_nrpn(&mut channel, 0x1A, 38, 64); // level
    drum_nrpn(&mut channel, 0x1C, 38, 127); // pan, hard right
    drum_nrpn(&mut channel, 0x1D, 38, 127); // reverb send
    drum_nrpn(&mut channel, 0x1E, 38, 0); // chorus send

    assert_eq!(channel.get_drum_pitch_coarse(38) as f32, 2.0);
    assert_eq!(gain(channel.get_drum_level(38)), Some(64.0 / 127.0));
    assert_eq!(pan(channel.get_drum_pan(38)), Some(50.0));
    assert_eq!(gain(channel.get_drum_reverb_send(38)), Some(1.0));
    assert_eq!(gain(channel.get_drum_chorus_send(38)), Some(0.0));

    // Another note keeps the SoundFont values.
    assert_eq!(channel.get_drum_pitch_coarse(36) as f32, 0.0);
    assert_eq!(gain(channel.get_drum_level(36)), None);
    assert_eq!(pan(channel.get_drum_pan(36)), None);

    // A pan of 0 asks for a random position, which is taken as centre.
    drum_nrpn(&mut channel, 0x1C, 40, 0);
    assert_eq!(pan(channel.get_drum_pan(40)), Some(0.0));
}

#[test]
fn gs_drum_nrpns_apply_only_to_percussion_channels() {
    let mut channel = Channel::new(false);
    drum_nrpn(&mut channel, 0x1A, 38, 64);
    assert_eq!(gain(channel.get_drum_level(38)), None);

    // The value was stored all along and applies once the channel becomes percussion.
    channel.set_percussion_channel(true);
    assert_eq!(gain(channel.get_drum_level(38)), Some(64.0 / 127.0));
}

#[test]
fn gs_drum_nrpns_survive_reset_all_controllers() {
    let mut channel = Channel::new(true);
    drum_nrpn(&mut channel, 0x1A, 38, 64);

    channel.reset_all_controllers();
    assert_eq!(gain(channel.get_drum_level(38)), Some(64.0 / 127.0));

    channel.reset();
    assert_eq!(gain(channel.get_drum_level(38)), None);
}

#[test]
fn percussion_flag_switch_applies_to_current_bank() {
    let mut channel = Channel::new(false);
    channel.set_bank(3);
    assert_eq!(channel.get_bank_number(), 3);

    channel.set_percussion_channel(true);
    assert_eq!(channel.get_bank_number(), 131);

    channel.set_percussion_channel(false);
    assert_eq!(channel.get_bank_number(), 3);
}

#[test]
fn reset_all_controllers_deselects_nrpn() {
    let mut channel = Channel::new(false);
    channel.set_nrpn_coarse(1);
    channel.set_nrpn_fine(8);
    channel.data_entry_coarse(80);
    assert_eq!(channel.get_vibrato_rate_raw(), 80);

    channel.reset_all_controllers();
    channel.data_entry_coarse(20);
    assert_eq!(channel.get_vibrato_rate_raw(), 80);
}

#[test]
fn raw_controller_state_follows_resets() {
    let mut channel = Channel::new(false);
    assert_eq!(channel.get_controller_value(7), 100);
    assert_eq!(channel.get_controller_value(11), 127);
    assert_eq!(channel.get_pitch_bend_raw(), 8192);

    channel.set_controller_value(7, 20);
    channel.set_controller_value(2, 90);
    channel.set_controller_value(11, 30);
    channel.set_controller_value(128, 1);
    channel.set_poly_pressure(60, 77);
    channel.set_poly_pressure(-1, 77);
    channel.set_pitch_bend(0, 0);
    assert_eq!(channel.get_poly_pressure(60), 77);
    assert_eq!(channel.get_pitch_bend_raw(), 0);

    // Reset All Controllers leaves volume and other controllers untouched.
    channel.reset_all_controllers();
    assert_eq!(channel.get_controller_value(7), 20);
    assert_eq!(channel.get_controller_value(2), 90);
    assert_eq!(channel.get_controller_value(11), 127);
    assert_eq!(channel.get_poly_pressure(60), 0);
    assert_eq!(channel.get_pitch_bend_raw(), 8192);

    channel.reset();
    assert_eq!(channel.get_controller_value(7), 100);
    assert_eq!(channel.get_controller_value(2), 0);
}

#[test]
fn reset_keeps_percussion_drum_bank() {
    let mut channel = Channel::new(true);
    channel.set_bank(5);
    channel.reset();
    assert_eq!(channel.get_bank_number(), 128);
}

#[test]
fn xg_mode_uses_bank_lsb_for_melodic_channels() {
    let mut channel = Channel::new(false);
    channel.set_system_mode(SystemMode::Xg);
    channel.set_bank(0);
    channel.set_bank_lsb(5);
    assert_eq!(channel.get_bank_number(), 5);

    channel.set_bank_lsb(0);
    assert_eq!(channel.get_bank_number(), 0);
}

#[test]
fn xg_mode_bank_msb_switches_percussion_flag() {
    let mut channel = Channel::new(false);
    channel.set_system_mode(SystemMode::Xg);
    channel.set_patch(9);

    channel.set_bank(127);
    assert!(channel.get_is_percussion_channel());
    assert_eq!(channel.get_bank_number(), 128);
    assert_eq!(channel.get_patch_number(), 9);

    channel.set_bank(126);
    assert!(channel.get_is_percussion_channel());

    channel.set_bank(0);
    assert!(!channel.get_is_percussion_channel());
    assert_eq!(channel.get_bank_number(), 0);

    channel.set_bank(127);
    channel.set_bank_lsb(3);
    assert_eq!(channel.get_bank_number(), 128);
}

#[test]
fn gm_and_gs_modes_ignore_bank_lsb_and_drum_msb() {
    for mode in [SystemMode::Gm, SystemMode::Gs] {
        let mut channel = Channel::new(false);
        channel.set_system_mode(mode);

        channel.set_bank(0);
        channel.set_bank_lsb(5);
        assert_eq!(channel.get_bank_number(), 0);

        channel.set_bank(127);
        assert!(!channel.get_is_percussion_channel());
        assert_eq!(channel.get_bank_number(), 127);

        channel.set_percussion_channel(true);
        assert_eq!(channel.get_bank_number(), 255);
    }
}

#[test]
fn scale_tuning_is_cleared_by_reset() {
    let mut channel = Channel::new(false);
    let mut cents = [0; 12];
    cents[2] = 14;
    cents[11] = -30;
    channel.set_scale_tuning(cents);
    assert_eq!(channel.get_scale_tuning_for_key(62), 14);
    assert_eq!(channel.get_scale_tuning_for_key(71), -30);
    assert_eq!(channel.get_scale_tuning_for_key(60), 0);
    channel.reset_all_controllers();
    assert_eq!(channel.get_scale_tuning(), cents);
    channel.reset();
    assert_eq!(channel.get_scale_tuning(), [0; 12]);
}

#[test]
fn key_shift_is_limited_to_two_octaves() {
    let mut channel = Channel::new(false);
    channel.set_key_shift(30);
    assert_eq!(channel.key_shift, 24);
    channel.set_key_shift(-30);
    assert_eq!(channel.key_shift, -24);
    channel.set_key_shift(3);
    assert_eq!(channel.key_shift, 3);
}
