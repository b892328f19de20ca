//! The control state of a synthesizer: its sixteen channels, the system mode, the master
//! volume and tuning received by SysEx, and the channel mutes; and what MIDI messages and
//! SysEx messages do to it.

use vstd::prelude::*;

use crate::channel::{
    law_rx_switch_reads_back,
    lemma_with_coarse,
    lemma_with_fine,
    DataType,
    receives_controller,
    spec_bank_number,
    spec_controllers_reset,
    spec_receives_controller,
    spec_reset_values,
    spec_rx_bit,
    spec_set_bank,
    spec_set_controller_value,
    spec_set_poly_pressure,
    spec_with_coarse,
    spec_with_fine,
    spec_clamp,
    spec_data_entry_coarse,
    spec_data_entry_fine,
    Channel,
    Rx,
    SystemMode,
};
use crate::sysex::{decode_sysex, spec_channel_in_range, spec_gs_part_parameter, spec_sysex_message, SysExMessage};

verus! {

/// The number of channels.
pub const CHANNEL_COUNT: usize = 16;

/// The channel that plays the drum bank by default.
pub const PERCUSSION_CHANNEL: usize = 9;

/// What the synthesizer must do to its voices after a MIDI message.
#[derive(Clone, Copy, Debug, PartialEq, Eq, Structural)]
pub enum MidiAction {
    /// Nothing beyond the change to the channel's state.
    Nothing,
    NoteOff { channel: i32, key: i32 },
    /// Start the key's voices: `portamento_source` is the key a portamento glides from
    /// (-1 for none), `bank` and `patch` select the preset.
    NoteOn {
        channel: i32,
        key: i32,
        velocity: i32,
        portamento_source: i32,
        bank: i32,
        patch: i32,
    },
    /// The sostenuto pedal went down: the notes held now are sustained.
    CaptureSostenuto { channel: i32 },
    /// All Sound Off: the channel's voices stop at once.
    AllSoundOff { channel: i32 },
    /// All Notes Off: the channel's voices are released.
    AllNotesOff { channel: i32 },
}

/// The control state of a synthesizer.
pub struct SynthesizerState {
    pub channels: Vec<Channel>,
    pub system_mode: SystemMode,
    /// The master volume received by SysEx, as `volume_value / volume_full_scale`.
    pub volume_value: u16,
    pub volume_full_scale: u16,
    /// The master fine tune received by SysEx, in 1/8192 of a semitone.
    pub fine_tune: i32,
    /// The master coarse tune received by SysEx, in semitones.
    pub coarse_tune: i32,
    /// One bit per muted channel.
    pub channel_mute: u16,
}

/// `c` after a control change: the raw value is stored, then the controller acts.
pub open spec fn spec_control_change(c: Channel, controller: i32, value: i32) -> Channel {
    let s = spec_set_controller_value(c, controller, value);
    if controller == 0x00 {
        spec_set_bank(s, value)
    } else if controller == 0x01 {
        Channel { modulation: spec_with_coarse(s.modulation, value), ..s }
    } else if controller == 0x21 {
        Channel { modulation: spec_with_fine(s.modulation, value), ..s }
    } else if controller == 0x06 {
        spec_data_entry_coarse(s, value)
    } else if controller == 0x26 {
        spec_data_entry_fine(s, value)
    } else if controller == 0x07 {
        Channel { volume: spec_with_coarse(s.volume, value), ..s }
    } else if controller == 0x27 {
        Channel { volume: spec_with_fine(s.volume, value), ..s }
    } else if controller == 0x0A {
        Channel { pan: spec_with_coarse(s.pan, value), ..s }
    } else if controller == 0x2A {
        Channel { pan: spec_with_fine(s.pan, value), ..s }
    } else if controller == 0x0B {
        Channel { expression: spec_with_coarse(s.expression, value), ..s }
    } else if controller == 0x2B {
        Channel { expression: spec_with_fine(s.expression, value), ..s }
    } else if controller == 0x20 {
        Channel { bank_lsb: value, ..s }
    } else if controller == 0x05 {
        Channel { portamento_time: value as u8, ..s }
    } else if controller == 0x40 {
        Channel { hold_pedal: value >= 64, ..s }
    } else if controller == 0x41 {
        Channel { portamento_on: value >= 64, ..s }
    } else if controller == 0x42 {
        Channel { sostenuto_pedal: value >= 64, ..s }
    } else if controller == 0x43 {
        Channel { soft_pedal: value >= 64, ..s }
    } else if controller == 0x47 {
        Channel { filter_resonance: value as u8, ..s }
    } else if controller == 0x48 {
        Channel { release_time: value as u8, ..s }
    } else if controller == 0x49 {
        Channel { attack_time: value as u8, ..s }
    } else if controller == 0x4A {
        Channel { brightness: value as u8, ..s }
    } else if controller == 0x4B {
        Channel { decay_time: value as u8, ..s }
    } else if controller == 0x54 {
        Channel { portamento_control: value, ..s }
    } else if controller == 0x5B {
        Channel { reverb_send: value as u8, ..s }
    } else if controller == 0x5D {
        Channel { chorus_send: value as u8, ..s }
    } else if controller == 0x5E {
        Channel { variation_send: value as u8, ..s }
    } else if controller == 0x63 {
        Channel {
            nrpn: spec_with_coarse(s.nrpn, value),
            last_data_type: crate::channel::DataType::Nrpn,
            ..s
        }
    } else if controller == 0x62 {
        Channel {
            nrpn: spec_with_fine(s.nrpn, value),
            last_data_type: crate::channel::DataType::Nrpn,
            ..s
        }
    } else if controller == 0x65 {
        Channel {
            rpn: spec_with_coarse(s.rpn, value),
            last_data_type: crate::channel::DataType::Rpn,
            ..s
        }
    } else if controller == 0x64 {
        Channel {
            rpn: spec_with_fine(s.rpn, value),
            last_data_type: crate::channel::DataType::Rpn,
            ..s
        }
    } else {
        s
    }
}

/// `mask` with the bit of `channel` (0 to 15; others leave it) set or cleared.
pub open spec fn spec_set_mute(mask: u16, channel: usize, muted: bool) -> u16 {
    if channel < 16 {
        if muted {
            mask | (1u16 << (channel as u16))
        } else {
            mask & !(1u16 << (channel as u16))
        }
    } else {
        mask
    }
}

/// Whether `mask` mutes `channel`; channels outside 0 to 15 are never muted.
pub open spec fn spec_is_muted(mask: u16, channel: usize) -> bool {
    channel < 16 && mask & (1u16 << (channel as u16)) != 0
}

/// True when a part receives a message: note, poly pressure, control change (with the
/// switch of the controller itself), program change, channel pressure and pitch bend
/// each have a receive switch; other messages are always received.
pub open spec fn spec_receives(c: Channel, command: i32, data1: i32) -> bool {
    let on = |rx: Rx| c.rx_switches & spec_rx_bit(rx) != 0;
    if command == 0x80 || command == 0x90 {
        on(Rx::Note)
    } else if command == 0xA0 {
        on(Rx::PolyPressure)
    } else if command == 0xB0 {
        on(Rx::ControlChange) && spec_receives_controller(c, data1)
    } else if command == 0xC0 {
        on(Rx::ProgramChange)
    } else if command == 0xD0 {
        on(Rx::ChannelPressure)
    } else if command == 0xE0 {
        on(Rx::PitchBend)
    } else {
        true
    }
}

/// A received channel message's effect on the channel (Reset All Controllers is given
/// by `spec_controllers_reset`).
pub open spec fn spec_channel_message(c: Channel, command: i32, data1: i32, data2: i32) -> Channel {
    if command == 0xA0 {
        spec_set_poly_pressure(c, data1, data2)
    } else if command == 0xB0 {
        spec_control_change(c, data1, data2)
    } else if command == 0xC0 {
        Channel { patch_number: data1, ..c }
    } else if command == 0xD0 {
        Channel { channel_pressure: data1 as u8, ..c }
    } else if command == 0xE0 {
        Channel {
            pitch_bend_value: data1 | (data2 << 7),
            pitch_bend_raw: ((data1 & 0x7F) | ((data2 & 0x7F) << 7)) as u16,
            ..c
        }
    } else {
        c
    }
}

/// The key a portamento glides from on the next note: the one portamento control set,
/// or else the last key played (-1 for none).
pub open spec fn spec_portamento_source(c: Channel) -> i32 {
    if c.portamento_control >= 0 {
        c.portamento_control
    } else {
        c.last_note_on_key
    }
}

/// True when a message is a note on that sounds: a velocity above 0, in the keyboard range.
pub open spec fn spec_sounds(c: Channel, command: i32, data1: i32, data2: i32) -> bool {
    command == 0x90 && data2 != 0 && c.keyboard_range_low <= data1 <= c.keyboard_range_high
}

/// What a received channel message asks of the voices. A note on of velocity 0 is a note
/// off; one outside the keyboard range is ignored.
pub open spec fn spec_midi_action(c: Channel, channel: i32, command: i32, data1: i32, data2: i32) -> MidiAction {
    if command == 0x80 || (command == 0x90 && data2 == 0) {
        MidiAction::NoteOff { channel, key: data1 }
    } else if spec_sounds(c, command, data1, data2) {
        MidiAction::NoteOn {
            channel,
            key: data1,
            velocity: data2,
            portamento_source: spec_portamento_source(c),
            bank: spec_bank_number(c),
            patch: c.patch_number,
        }
    } else if command == 0xB0 && data1 == 0x42 && !c.sostenuto_pedal && data2 >= 64 {
        MidiAction::CaptureSostenuto { channel }
    } else if command == 0xB0 && data1 == 0x78 {
        MidiAction::AllSoundOff { channel }
    } else if command == 0xB0 && data1 == 0x7B {
        MidiAction::AllNotesOff { channel }
    } else {
        MidiAction::Nothing
    }
}

/// `r` is what a received channel message makes of channel `c`: a sounding note on takes
/// the portamento source and becomes the last key, Reset All Controllers resets the
/// controllers after its raw value is stored, and the rest is `spec_channel_message`.
pub open spec fn spec_after_message(c: Channel, command: i32, data1: i32, data2: i32, r: Channel) -> bool {
    if spec_sounds(c, command, data1, data2) {
        r == Channel {
            portamento_control: if c.portamento_control >= 0 {
                -1i32
            } else {
                c.portamento_control
            },
            last_note_on_key: data1,
            ..c
        }
    } else if command == 0xB0 && data1 == 0x79 {
        spec_controllers_reset(spec_channel_message(c, command, data1, data2), r)
    } else {
        r == spec_channel_message(c, command, data1, data2)
    }
}

/// `r` is a channel after a system reset into `mode`: reset, in that mode, and a drum
/// channel exactly when it is channel 10; `c` gives the data entry target it keeps.
pub open spec fn spec_system_reset_channel(c: Channel, r: Channel, i: int, mode: SystemMode) -> bool {
    &&& spec_reset_values(r)
    &&& r.is_percussion_channel == (i == PERCUSSION_CHANNEL)
    &&& r.last_data_type == c.last_data_type
    &&& r.system_mode == mode
}

/// True when the part receives the message.
fn receives(c: &Channel, command: i32, data1: i32) -> (r: bool)
    ensures
        r == spec_receives(*c, command, data1),
{
    if command == 0x80 || command == 0x90 {
        c.receives(Rx::Note)
    } else if command == 0xA0 {
        c.receives(Rx::PolyPressure)
    } else if command == 0xB0 {
        c.receives(Rx::ControlChange) && receives_controller(c, data1)
    } else if command == 0xC0 {
        c.receives(Rx::ProgramChange)
    } else if command == 0xD0 {
        c.receives(Rx::ChannelPressure)
    } else if command == 0xE0 {
        c.receives(Rx::PitchBend)
    } else {
        true
    }
}

/// What a received message asks of the voices.
fn midi_action(c: &Channel, channel: i32, command: i32, data1: i32, data2: i32) -> (r: MidiAction)
    ensures
        r == spec_midi_action(*c, channel, command, data1, data2),
{
    if command == 0x80 || (command == 0x90 && data2 == 0) {
        MidiAction::NoteOff { channel, key: data1 }
    } else if command == 0x90 && c.is_key_in_range(data1) {
        let portamento_source = if c.portamento_control >= 0 {
            c.portamento_control
        } else {
            c.last_note_on_key
        };
        MidiAction::NoteOn {
            channel,
            key: data1,
            velocity: data2,
            portamento_source,
            bank: c.get_bank_number(),
            patch: c.get_patch_number(),
        }
    } else if command == 0xB0 && data1 == 0x42 && !c.sostenuto_pedal && data2 >= 64 {
        MidiAction::CaptureSostenuto { channel }
    } else if command == 0xB0 && data1 == 0x78 {
        MidiAction::AllSoundOff { channel }
    } else if command == 0xB0 && data1 == 0x7B {
        MidiAction::AllNotesOff { channel }
    } else {
        MidiAction::Nothing
    }
}

/// A control change: the raw value is stored, then the controller acts.
fn control_change(c: &mut Channel, controller: i32, value: i32)
    ensures
        *final(c) == spec_control_change(*old(c), controller, value),
{
    c.set_controller_value(controller, value);
    if controller == 0x00 {
        c.set_bank(value);
    } else if controller == 0x01 {
        c.set_modulation_coarse(value);
    } else if controller == 0x21 {
        c.set_modulation_fine(value);
    } else if controller == 0x06 {
        c.data_entry_coarse(value);
    } else if controller == 0x26 {
        c.data_entry_fine(value);
    } else if controller == 0x07 {
        c.set_volume_coarse(value);
    } else if controller == 0x27 {
        c.set_volume_fine(value);
    } else if controller == 0x0A {
        c.set_pan_coarse(value);
    } else if controller == 0x2A {
        c.set_pan_fine(value);
    } else if controller == 0x0B {
        c.set_expression_coarse(value);
    } else if controller == 0x2B {
        c.set_expression_fine(value);
    } else if controller == 0x20 {
        c.set_bank_lsb(value);
    } else if controller == 0x05 {
        c.set_portamento_time(value);
    } else if controller == 0x40 {
        c.set_hold_pedal(value);
    } else if controller == 0x41 {
        c.set_portamento_on(value);
    } else if controller == 0x42 {
        c.set_sostenuto_pedal(value);
    } else if controller == 0x43 {
        c.set_soft_pedal(value);
    } else if controller == 0x47 {
        c.set_filter_resonance(value);
    } else if controller == 0x48 {
        c.set_release_time(value);
    } else if controller == 0x49 {
        c.set_attack_time(value);
    } else if controller == 0x4A {
        c.set_brightness(value);
    } else if controller == 0x4B {
        c.set_decay_time(value);
    } else if controller == 0x54 {
        c.set_portamento_control(value);
    } else if controller == 0x5B {
        c.set_reverb_send(value);
    } else if controller == 0x5D {
        c.set_chorus_send(value);
    } else if controller == 0x5E {
        c.set_variation_send(value);
    } else if controller == 0x63 {
        c.set_nrpn_coarse(value);
    } else if controller == 0x62 {
        c.set_nrpn_fine(value);
    } else if controller == 0x65 {
        c.set_rpn_coarse(value);
    } else if controller == 0x64 {
        c.set_rpn_fine(value);
    }
}

impl SynthesizerState {
    /// The state has its sixteen channels.
    pub open spec fn wf(&self) -> bool {
        self.channels@.len() == CHANNEL_COUNT
    }

    /// `self` after `reset` of `old`: every channel reset and back in GM mode (keeping
    /// its drum flag), the SysEx master volume and tuning cleared; the mutes stay.
    pub open spec fn spec_is_reset_of(&self, old: SynthesizerState) -> bool {
        &&& self.channels@.len() == old.channels@.len()
        &&& forall|i: int|
            0 <= i < self.channels@.len() ==> {
                let r = #[trigger] self.channels@[i];
                let c = old.channels@[i];
                &&& spec_reset_values(r)
                &&& r.is_percussion_channel == c.is_percussion_channel
                &&& r.last_data_type == c.last_data_type
                &&& r.system_mode == SystemMode::Gm
            }
        &&& self.system_mode == SystemMode::Gm
        &&& self.volume_value == 1 && self.volume_full_scale == 1
        &&& self.fine_tune == 0 && self.coarse_tune == 0
        &&& self.channel_mute == old.channel_mute
    }

    /// `self` after a system reset of `old` into `mode`.
    pub open spec fn spec_is_system_reset_of(&self, old: SynthesizerState, mode: SystemMode) -> bool {
        &&& self.channels@.len() == old.channels@.len()
        &&& forall|i: int|
            0 <= i < self.channels@.len() ==> spec_system_reset_channel(
                old.channels@[i],
                #[trigger] self.channels@[i],
                i,
                mode,
            )
        &&& self.system_mode == mode
        &&& self.volume_value == 1 && self.volume_full_scale == 1
        &&& self.fine_tune == 0 && self.coarse_tune == 0
        &&& self.channel_mute == old.channel_mute
    }

    /// `self` is `old` with channel `ch` replaced by `c`.
    pub open spec fn spec_with_channel(&self, old: SynthesizerState, ch: int, c: Channel) -> bool {
        &&& self.channels@ == old.channels@.update(ch, c)
        &&& self.system_mode == old.system_mode
        &&& self.volume_value == old.volume_value
        &&& self.volume_full_scale == old.volume_full_scale
        &&& self.fine_tune == old.fine_tune
        &&& self.coarse_tune == old.coarse_tune
        &&& self.channel_mute == old.channel_mute
    }

    /// `self` is `old` with only the SysEx master values changed as given.
    pub open spec fn spec_with_master(
        &self,
        old: SynthesizerState,
        volume_value: u16,
        volume_full_scale: u16,
        fine_tune: i32,
        coarse_tune: i32,
    ) -> bool {
        &&& self.channels@ == old.channels@
        &&& self.system_mode == old.system_mode
        &&& self.volume_value == volume_value
        &&& self.volume_full_scale == volume_full_scale
        &&& self.fine_tune == fine_tune
        &&& self.coarse_tune == coarse_tune
        &&& self.channel_mute == old.channel_mute
    }

    /// `self` is what SysEx message `m` makes of `old`. The reverb and chorus messages
    /// change none of this state.
    pub open spec fn spec_after_sysex(&self, old: SynthesizerState, m: SysExMessage) -> bool {
        match m {
            SysExMessage::SystemReset(mode) => self.spec_is_system_reset_of(old, mode),
            SysExMessage::MasterVolume { level, full_scale } => self.spec_with_master(
                old,
                level,
                full_scale,
                old.fine_tune,
                old.coarse_tune,
            ),
            SysExMessage::MasterFineTune(v) => self.spec_with_master(
                old,
                old.volume_value,
                old.volume_full_scale,
                v,
                old.coarse_tune,
            ),
            SysExMessage::MasterCoarseTune(v) => self.spec_with_master(
                old,
                old.volume_value,
                old.volume_full_scale,
                old.fine_tune,
                v,
            ),
            SysExMessage::RxSwitch { channel, rx, on } => {
                let c = old.channels@[channel as int];
                self.spec_with_channel(
                    old,
                    channel as int,
                    Channel {
                        rx_switches: if on {
                            c.rx_switches | spec_rx_bit(rx)
                        } else {
                            c.rx_switches & !spec_rx_bit(rx)
                        },
                        ..c
                    },
                )
            },
            SysExMessage::KeyShift { channel, semitones } => {
                let c = old.channels@[channel as int];
                self.spec_with_channel(
                    old,
                    channel as int,
                    Channel { key_shift: spec_clamp(semitones as int, -24, 24) as i16, ..c },
                )
            },
            SysExMessage::PartLevel { channel, value } => {
                let c = old.channels@[channel as int];
                self.spec_with_channel(
                    old,
                    channel as int,
                    Channel { volume: spec_with_coarse(c.volume, value), ..c },
                )
            },
            SysExMessage::PartPanpot { channel, value } => {
                let c = old.channels@[channel as int];
                self.spec_with_channel(
                    old,
                    channel as int,
                    Channel { pan: spec_with_coarse(c.pan, value), ..c },
                )
            },
            SysExMessage::KeyboardRangeLow { channel, value } => {
                let c = old.channels@[channel as int];
                self.spec_with_channel(
                    old,
                    channel as int,
                    Channel { keyboard_range_low: spec_clamp(value as int, 0, 127) as u8, ..c },
                )
            },
            SysExMessage::KeyboardRangeHigh { channel, value } => {
                let c = old.channels@[channel as int];
                self.spec_with_channel(
                    old,
                    channel as int,
                    Channel { keyboard_range_high: spec_clamp(value as int, 0, 127) as u8, ..c },
                )
            },
            SysExMessage::ChorusSend { channel, value } => {
                let c = old.channels@[channel as int];
                self.spec_with_channel(old, channel as int, Channel { chorus_send: value as u8, ..c })
            },
            SysExMessage::ReverbSend { channel, value } => {
                let c = old.channels@[channel as int];
                self.spec_with_channel(old, channel as int, Channel { reverb_send: value as u8, ..c })
            },
            SysExMessage::UseForRhythmPart { channel, on } => {
                let c = old.channels@[channel as int];
                self.spec_with_channel(
                    old,
                    channel as int,
                    Channel { is_percussion_channel: on, ..c },
                )
            },
            SysExMessage::ScaleTuning { channel, cents } => {
                let c = old.channels@[channel as int];
                self.spec_with_channel(old, channel as int, Channel { scale_tuning: cents, ..c })
            },
            SysExMessage::XgPartMode { channel, percussion } => {
                let c = old.channels@[channel as int];
                self.spec_with_channel(
                    old,
                    channel as int,
                    Channel { is_percussion_channel: percussion, ..c },
                )
            },
            _ => self.spec_with_master(
                old,
                old.volume_value,
                old.volume_full_scale,
                old.fine_tune,
                old.coarse_tune,
            ),
        }
    }

    /// Sixteen channels in GM mode, channel 10 playing the drum bank; full master volume
    /// and no master tuning or mutes.
    pub fn new() -> (r: SynthesizerState)
        ensures
            r.wf(),
            forall|i: int|
                0 <= i < CHANNEL_COUNT ==> {
                    let c = #[trigger] r.channels@[i];
                    &&& spec_reset_values(c)
                    &&& c.is_percussion_channel == (i == PERCUSSION_CHANNEL)
                    &&& c.last_data_type == crate::channel::DataType::NoParameter
                    &&& c.system_mode == SystemMode::Gm
                },
            r.system_mode == SystemMode::Gm,
            r.volume_value == 1 && r.volume_full_scale == 1,
            r.fine_tune == 0 && r.coarse_tune == 0,
            r.channel_mute == 0,
    {
        let mut channels: Vec<Channel> = Vec::new();
        let mut i: usize = 0;
        while i < CHANNEL_COUNT
            invariant
                i <= CHANNEL_COUNT,
                channels@.len() == i,
                forall|k: int|
                    0 <= k < i ==> {
                        let c = #[trigger] channels@[k];
                        &&& spec_reset_values(c)
                        &&& c.is_percussion_channel == (k == PERCUSSION_CHANNEL)
                        &&& c.last_data_type == crate::channel::DataType::NoParameter
                        &&& c.system_mode == SystemMode::Gm
                    },
            decreases CHANNEL_COUNT - i,
        {
            channels.push(Channel::new(i == PERCUSSION_CHANNEL));
            i += 1;
        }
        SynthesizerState {
            channels,
            system_mode: SystemMode::Gm,
            volume_value: 1,
            volume_full_scale: 1,
            fine_tune: 0,
            coarse_tune: 0,
            channel_mute: 0,
        }
    }

    /// Resets every channel and clears the SysEx master volume and tuning; the system
    /// mode returns to GM. Drum channels and mutes stay as they are.
    pub fn reset(&mut self)
        ensures
            final(self).spec_is_reset_of(*old(self)),
    {
        let n = self.channels.len();
        let mut i: usize = 0;
        while i < n
            invariant
                i <= n,
                n == self.channels@.len(),
                self.channels@.len() == old(self).channels@.len(),
                forall|k: int|
                    0 <= k < i ==> {
                        let r = #[trigger] self.channels@[k];
                        let c = old(self).channels@[k];
                        &&& spec_reset_values(r)
                        &&& r.is_percussion_channel == c.is_percussion_channel
                        &&& r.last_data_type == c.last_data_type
                        &&& r.system_mode == SystemMode::Gm
                    },
                forall|k: int| i <= k < n ==> #[trigger] self.channels@[k] == old(self).channels@[k],
                self.channel_mute == old(self).channel_mute,
            decreases n - i,
        {
            let mut c = self.channels[i];
            c.reset();
            c.set_system_mode(SystemMode::Gm);
            self.channels.set(i, c);
            i += 1;
        }
        self.volume_value = 1;
        self.volume_full_scale = 1;
        self.fine_tune = 0;
        self.coarse_tune = 0;
        self.system_mode = SystemMode::Gm;
    }

    /// A GM System On, GS Reset or XG System On: channel 10 becomes the only drum channel,
    /// everything is reset, and the system mode is the message's.
    pub fn reset_system(&mut self, mode: SystemMode)
        ensures
            final(self).spec_is_system_reset_of(*old(self), mode),
    {
        let n = self.channels.len();
        let mut i: usize = 0;
        while i < n
            invariant
                i <= n,
                n == self.channels@.len(),
                self.channels@.len() == old(self).channels@.len(),
                forall|k: int|
                    0 <= k < i ==> spec_system_reset_channel(
                        old(self).channels@[k],
                        #[trigger] self.channels@[k],
                        k,
                        mode,
                    ),
                forall|k: int| i <= k < n ==> #[trigger] self.channels@[k] == old(self).channels@[k],
                self.channel_mute == old(self).channel_mute,
            decreases n - i,
        {
            let mut c = self.channels[i];
            c.set_percussion_channel(i == PERCUSSION_CHANNEL);
            c.reset();
            c.set_system_mode(mode);
            self.channels.set(i, c);
            i += 1;
        }
        self.volume_value = 1;
        self.volume_full_scale = 1;
        self.fine_tune = 0;
        self.coarse_tune = 0;
        self.system_mode = mode;
    }

    /// Replaces channel `ch` by `c`.
    fn put_channel(&mut self, ch: usize, c: Channel)
        requires
            ch < old(self).channels@.len(),
        ensures
            final(self).spec_with_channel(*old(self), ch as int, c),
    {
        self.channels.set(ch, c);
    }

    /// Carries out a decoded SysEx message.
    fn apply_sysex(&mut self, m: SysExMessage)
        requires
            old(self).wf(),
            spec_channel_in_range(m),
        ensures
            final(self).wf(),
            final(self).spec_after_sysex(*old(self), m),
    {
        match m {
            SysExMessage::SystemReset(mode) => self.reset_system(mode),
            SysExMessage::MasterVolume { level, full_scale } => {
                self.volume_value = level;
                self.volume_full_scale = full_scale;
            },
            SysExMessage::MasterFineTune(v) => {
                self.fine_tune = v;
            },
            SysExMessage::MasterCoarseTune(v) => {
                self.coarse_tune = v;
            },
            SysExMessage::RxSwitch { channel, rx, on } => {
                let mut c = self.channels[channel];
                c.set_rx_switch(rx, on);
                self.put_channel(channel, c);
            },
            SysExMessage::KeyShift { channel, semitones } => {
                let mut c = self.channels[channel];
                c.set_key_shift(semitones);
                self.put_channel(channel, c);
            },
            SysExMessage::PartLevel { channel, value } => {
                let mut c = self.channels[channel];
                c.set_volume_coarse(value);
                self.put_channel(channel, c);
            },
            SysExMessage::PartPanpot { channel, value } => {
                let mut c = self.channels[channel];
                c.set_pan_coarse(value);
                self.put_channel(channel, c);
            },
            SysExMessage::KeyboardRangeLow { channel, value } => {
                let mut c = self.channels[channel];
                c.set_keyboard_range_low(value);
                self.put_channel(channel, c);
            },
            SysExMessage::KeyboardRangeHigh { channel, value } => {
                let mut c = self.channels[channel];
                c.set_keyboard_range_high(value);
                self.put_channel(channel, c);
            },
            SysExMessage::ChorusSend { channel, value } => {
                let mut c = self.channels[channel];
                c.set_chorus_send(value);
                self.put_channel(channel, c);
            },
            SysExMessage::ReverbSend { channel, value } => {
                let mut c = self.channels[channel];
                c.set_reverb_send(value);
                self.put_channel(channel, c);
            },
            SysExMessage::UseForRhythmPart { channel, on } => {
                let mut c = self.channels[channel];
                c.set_percussion_channel(on);
                self.put_channel(channel, c);
            },
            SysExMessage::ScaleTuning { channel, cents } => {
                let mut c = self.channels[channel];
                c.set_scale_tuning(cents);
                self.put_channel(channel, c);
            },
            SysExMessage::XgPartMode { channel, percussion } => {
                let mut c = self.channels[channel];
                c.set_percussion_channel(percussion);
                self.put_channel(channel, c);
            },
            _ => {},
        }
    }

    /// Processes a SysEx message (without its leading F0 and trailing F7) and returns
    /// what it asked for, so that the effects can follow the reverb and chorus macros.
    pub fn process_sysex(&mut self, data: &[u8]) -> (m: SysExMessage)
        requires
            old(self).wf(),
        ensures
            spec_sysex_message(data@, m),
            final(self).wf(),
            final(self).spec_after_sysex(*old(self), m),
    {
        let m = decode_sysex(data);
        self.apply_sysex(m);
        m
    }

    /// `self` is `old`, unchanged.
    pub open spec fn spec_unchanged(&self, old: SynthesizerState) -> bool {
        self.spec_with_master(
            old,
            old.volume_value,
            old.volume_full_scale,
            old.fine_tune,
            old.coarse_tune,
        )
    }

    /// Processes a MIDI channel message and returns what the voices must do. Messages for
    /// a channel outside 0 to 15, or that the part does not receive, change nothing.
    pub fn process_midi_message(&mut self, channel: i32, command: i32, data1: i32, data2: i32) -> (action: MidiAction)
        requires
            old(self).wf(),
        ensures
            final(self).wf(),
            !(0 <= channel < CHANNEL_COUNT && spec_receives(
                old(self).channels@[channel as int],
                command,
                data1,
            )) ==> final(self).spec_unchanged(*old(self)) && action == MidiAction::Nothing,
            0 <= channel < CHANNEL_COUNT && spec_receives(
                old(self).channels@[channel as int],
                command,
                data1,
            ) ==> {
                let c = old(self).channels@[channel as int];
                &&& action == spec_midi_action(c, channel, command, data1, data2)
                &&& final(self).spec_with_channel(
                    *old(self),
                    channel as int,
                    final(self).channels@[channel as int],
                )
                &&& spec_after_message(
                    c,
                    command,
                    data1,
                    data2,
                    final(self).channels@[channel as int],
                )
            },
    {
        if !(0 <= channel && channel < 16) {
            return MidiAction::Nothing;
        }
        let ch = channel as usize;
        let mut c = self.channels[ch];
        if !receives(&c, command, data1) {
            return MidiAction::Nothing;
        }
        let action = midi_action(&c, channel, command, data1, data2);
        if command == 0x90 && data2 != 0 && c.is_key_in_range(data1) {
            let _ = c.consume_portamento_source();
            c.set_last_note_on_key(data1);
        } else if command == 0xA0 {
            c.set_poly_pressure(data1, data2);
        } else if command == 0xB0 {
            control_change(&mut c, data1, data2);
            if data1 == 0x79 {
                c.reset_all_controllers();
            }
        } else if command == 0xC0 {
            c.set_patch(data1);
        } else if command == 0xD0 {
            c.set_channel_pressure(data1);
        } else if command == 0xE0 {
            c.set_pitch_bend(data1, data2);
        }
        self.put_channel(ch, c);
        action
    }

    /// Mutes or unmutes channel `channel` (0 to 15; others are ignored).
    pub fn set_channel_mute(&mut self, channel: usize, muted: bool)
        ensures
            final(self).channels@ == old(self).channels@,
            final(self).system_mode == old(self).system_mode,
            final(self).volume_value == old(self).volume_value,
            final(self).volume_full_scale == old(self).volume_full_scale,
            final(self).fine_tune == old(self).fine_tune,
            final(self).coarse_tune == old(self).coarse_tune,
            final(self).channel_mute == spec_set_mute(old(self).channel_mute, channel, muted),
    {
        if channel < 16 {
            let bit: u16 = 1u16 << (channel as u16);
            if muted {
                self.channel_mute = self.channel_mute | bit;
            } else {
                self.channel_mute = self.channel_mute & !bit;
            }
        }
    }

    /// Whether channel `channel` is muted; false for channels outside 0 to 15.
    pub fn is_channel_muted(&self, channel: usize) -> (r: bool)
        ensures
            r == spec_is_muted(self.channel_mute, channel),
    {
        channel < 16 && (self.channel_mute & (1u16 << (channel as u16))) != 0
    }

    /// Whether the voices of MIDI channel `voice_channel` are silenced by a mute.
    pub fn is_voice_muted(&self, voice_channel: i32) -> (r: bool)
        ensures
            r == (voice_channel >= 0 && spec_is_muted(self.channel_mute, voice_channel as usize)),
    {
        voice_channel >= 0 && self.is_channel_muted(voice_channel as usize)
    }

    /// Sets the mute of every channel at once, bit 0 for channel 0.
    pub fn set_channel_mute_mask(&mut self, mask: u16)
        ensures
            final(self).channels@ == old(self).channels@,
            final(self).system_mode == old(self).system_mode,
            final(self).volume_value == old(self).volume_value,
            final(self).volume_full_scale == old(self).volume_full_scale,
            final(self).fine_tune == old(self).fine_tune,
            final(self).coarse_tune == old(self).coarse_tune,
            final(self).channel_mute == mask,
    {
        self.channel_mute = mask;
    }

    /// The mute of every channel, bit 0 for channel 0.
    pub fn get_channel_mute_mask(&self) -> (r: u16)
        ensures
            r == self.channel_mute,
    {
        self.channel_mute
    }

    /// Makes a channel (0 to 15; others are ignored) a percussion channel or a melodic one.
    pub fn set_percussion_channel(&mut self, channel: usize, is_percussion: bool)
        requires
            old(self).wf(),
        ensures
            final(self).wf(),
            channel < CHANNEL_COUNT ==> final(self).spec_with_channel(
                *old(self),
                channel as int,
                Channel { is_percussion_channel: is_percussion, ..old(self).channels@[channel as int] },
            ),
            channel >= CHANNEL_COUNT ==> final(self).spec_unchanged(*old(self)),
    {
        if channel < self.channels.len() {
            let mut c = self.channels[channel];
            c.set_percussion_channel(is_percussion);
            self.put_channel(channel, c);
        }
    }

    /// Sets the scale tuning of a channel (0 to 15; others are ignored), in cents for each
    /// pitch class C to B.
    pub fn set_scale_tuning(&mut self, channel: usize, cents: [i32; 12])
        requires
            old(self).wf(),
        ensures
            final(self).wf(),
            channel < CHANNEL_COUNT ==> final(self).spec_with_channel(
                *old(self),
                channel as int,
                Channel { scale_tuning: cents, ..old(self).channels@[channel as int] },
            ),
            channel >= CHANNEL_COUNT ==> final(self).spec_unchanged(*old(self)),
    {
        if channel < self.channels.len() {
            let mut c = self.channels[channel];
            c.set_scale_tuning(cents);
            self.put_channel(channel, c);
        }
    }

    /// The scale tuning of a channel, if there is such a channel.
    pub fn get_scale_tuning(&self, channel: usize) -> (r: Option<[i32; 12]>)
        ensures
            r == if channel < self.channels@.len() {
                Some(self.channels@[channel as int].scale_tuning)
            } else {
                None::<[i32; 12]>
            },
    {
        if channel < self.channels.len() {
            Some(self.channels[channel].scale_tuning)
        } else {
            None
        }
    }

    /// A copy of channel `channel`'s state, if there is such a channel.
    pub fn get_channel(&self, channel: usize) -> (r: Option<Channel>)
        ensures
            r == if channel < self.channels@.len() {
                Some(self.channels@[channel as int])
            } else {
                None::<Channel>
            },
    {
        if channel < self.channels.len() {
            Some(self.channels[channel])
        } else {
            None
        }
    }

    /// Reset All Controllers on every channel.
    pub fn reset_all_controllers(&mut self)
        ensures
            final(self).channels@.len() == old(self).channels@.len(),
            forall|i: int|
                0 <= i < old(self).channels@.len() ==> spec_controllers_reset(
                    old(self).channels@[i],
                    #[trigger] final(self).channels@[i],
                ),
            final(self).system_mode == old(self).system_mode,
            final(self).volume_value == old(self).volume_value,
            final(self).volume_full_scale == old(self).volume_full_scale,
            final(self).fine_tune == old(self).fine_tune,
            final(self).coarse_tune == old(self).coarse_tune,
            final(self).channel_mute == old(self).channel_mute,
    {
        let n = self.channels.len();
        let mut i: usize = 0;
        while i < n
            invariant
                i <= n,
                n == self.channels@.len(),
                self.channels@.len() == old(self).channels@.len(),
                forall|k: int|
                    0 <= k < i ==> spec_controllers_reset(
                        old(self).channels@[k],
                        #[trigger] self.channels@[k],
                    ),
                forall|k: int| i <= k < n ==> #[trigger] self.channels@[k] == old(self).channels@[k],
                self.system_mode == old(self).system_mode,
                self.volume_value == old(self).volume_value,
                self.volume_full_scale == old(self).volume_full_scale,
                self.fine_tune == old(self).fine_tune,
                self.coarse_tune == old(self).coarse_tune,
                self.channel_mute == old(self).channel_mute,
            decreases n - i,
        {
            let mut c = self.channels[i];
            c.reset_all_controllers();
            self.channels.set(i, c);
            i += 1;
        }
    }

    /// Reset All Controllers on one channel (0 to 15; others are ignored).
    pub fn reset_all_controllers_channel(&mut self, channel: i32)
        requires
            old(self).wf(),
        ensures
            final(self).wf(),
            0 <= channel < CHANNEL_COUNT ==> {
                &&& final(self).spec_with_channel(
                    *old(self),
                    channel as int,
                    final(self).channels@[channel as int],
                )
                &&& spec_controllers_reset(
                    old(self).channels@[channel as int],
                    final(self).channels@[channel as int],
                )
            },
            !(0 <= channel < CHANNEL_COUNT) ==> final(self).spec_unchanged(*old(self)),
    {
        if 0 <= channel && channel < 16 {
            let mut c = self.channels[channel as usize];
            c.reset_all_controllers();
            self.put_channel(channel as usize, c);
        }
    }
}


/// Muting or unmuting a channel reads back as set, and leaves the mute of every other
/// channel as it was.
pub proof fn law_mute_reads_back(mask: u16, channel: usize, muted: bool, other: usize)
    requires
        channel < 16,
    ensures
        spec_is_muted(spec_set_mute(mask, channel, muted), channel) == muted,
        other != channel ==> spec_is_muted(spec_set_mute(mask, channel, muted), other)
            == spec_is_muted(mask, other),
{
    let c = channel as u16;
    let o = other as u16;
    assert(c < 16);
    assert((mask | (1u16 << c)) & (1u16 << c) != 0) by (bit_vector)
        requires
            c < 16,
    ;
    assert((mask & !(1u16 << c)) & (1u16 << c) == 0) by (bit_vector)
        requires
            c < 16,
    ;
    if other != channel && other < 16 {
        assert(o != c);
        assert(((mask | (1u16 << c)) & (1u16 << o) != 0) == (mask & (1u16 << o) != 0))
            by (bit_vector)
            requires
                c < 16,
                o < 16,
                o != c,
        ;
        assert(((mask & !(1u16 << c)) & (1u16 << o) != 0) == (mask & (1u16 << o) != 0))
            by (bit_vector)
            requires
                c < 16,
                o < 16,
                o != c,
        ;
    }
}


/// A drum channel set by hand stays one through a plain reset, and the reset keeps it in
/// GM mode with every controller at its default.
pub proof fn law_reset_keeps_drum_channel(
    s0: SynthesizerState,
    s1: SynthesizerState,
    s2: SynthesizerState,
    ch: int,
    is_percussion: bool,
)
    requires
        0 <= ch < s0.channels@.len(),
        s1.spec_with_channel(
            s0,
            ch,
            Channel { is_percussion_channel: is_percussion, ..s0.channels@[ch] },
        ),
        s2.spec_is_reset_of(s1),
    ensures
        s2.channels@[ch].is_percussion_channel == is_percussion,
        s2.channels@[ch].system_mode == SystemMode::Gm,
        spec_reset_values(s2.channels@[ch]),
{
    assert(s1.channels@[ch].is_percussion_channel == is_percussion);
    assert(s2.channels@[ch] == s2.channels@[ch]);
}

/// A GM System On, GS Reset or XG System On leaves channel 10 as the only drum channel,
/// whatever the channels were before, and every channel in the message's mode.
pub proof fn law_system_reset_restores_drum_channel(
    s0: SynthesizerState,
    s1: SynthesizerState,
    mode: SystemMode,
    ch: int,
)
    requires
        s1.spec_is_system_reset_of(s0, mode),
        0 <= ch < s0.channels@.len(),
    ensures
        s1.channels@[ch].is_percussion_channel <==> ch == PERCUSSION_CHANNEL,
        s1.channels@[ch].system_mode == mode,
        s1.system_mode == mode,
{
    assert(spec_system_reset_channel(s0.channels@[ch], s1.channels@[ch], ch, mode));
}


/// A GS part parameter that a controller can also reach leaves the part in the state the
/// controller leaves it: Part Level as Channel Volume, Part Panpot as Pan, and the chorus
/// and reverb send levels as their controllers.
pub proof fn law_gs_part_parameters_match_controllers(
    s0: SynthesizerState,
    s1: SynthesizerState,
    m: SysExMessage,
    r: Channel,
)
    requires
        s0.wf(),
        spec_channel_in_range(m),
        s1.spec_after_sysex(s0, m),
    ensures
        m matches SysExMessage::PartLevel { channel, value } ==> (spec_after_message(
            s0.channels@[channel as int],
            0xB0,
            0x07,
            value,
            r,
        ) ==> s1.channels@[channel as int].volume == r.volume),
        m matches SysExMessage::PartPanpot { channel, value } ==> (spec_after_message(
            s0.channels@[channel as int],
            0xB0,
            0x0A,
            value,
            r,
        ) ==> s1.channels@[channel as int].pan == r.pan),
        m matches SysExMessage::ChorusSend { channel, value } ==> (spec_after_message(
            s0.channels@[channel as int],
            0xB0,
            0x5D,
            value,
            r,
        ) ==> s1.channels@[channel as int].chorus_send == r.chorus_send),
        m matches SysExMessage::ReverbSend { channel, value } ==> (spec_after_message(
            s0.channels@[channel as int],
            0xB0,
            0x5B,
            value,
            r,
        ) ==> s1.channels@[channel as int].reverb_send == r.reverb_send),
{
}

/// The part `c` becomes when a GS receive switch message `m` for it is applied.
pub open spec fn spec_switched(c: Channel, m: SysExMessage) -> Channel {
    match m {
        SysExMessage::RxSwitch { rx, on, .. } => Channel {
            rx_switches: if on {
                c.rx_switches | spec_rx_bit(rx)
            } else {
                c.rx_switches & !spec_rx_bit(rx)
            },
            ..c
        },
        _ => c,
    }
}

/// The controllers whose reception the GS Patch Part receive switch at `address`
/// decides: 09h RPN (CC 100, 101), 0Ah NRPN (CC 98, 99), 0Bh modulation (CC 1, 33), 0Ch
/// volume (CC 7, 39), 0Dh panpot (CC 10, 42), 0Eh expression (CC 11, 43), 0Fh hold 1
/// (CC 64), 10h portamento (CC 5, 65, 84), 11h sostenuto (CC 66) and 12h soft (CC 67).
pub open spec fn spec_switch_controls(address: u8, x: i32) -> bool {
    ||| address == 0x09 && (x == 100 || x == 101)
    ||| address == 0x0A && (x == 98 || x == 99)
    ||| address == 0x0B && (x == 1 || x == 33)
    ||| address == 0x0C && (x == 7 || x == 39)
    ||| address == 0x0D && (x == 10 || x == 42)
    ||| address == 0x0E && (x == 11 || x == 43)
    ||| address == 0x0F && x == 64
    ||| address == 0x10 && (x == 5 || x == 65 || x == 84)
    ||| address == 0x11 && x == 66
    ||| address == 0x12 && x == 67
}

/// The messages whose reception the GS Patch Part receive switch at `address` decides,
/// other than control changes: 03h pitch bend, 04h channel pressure, 05h program change,
/// 07h polyphonic key pressure and 08h note messages.
pub open spec fn spec_switch_commands(address: u8, command: i32) -> bool {
    ||| address == 0x03 && command == 0xE0
    ||| address == 0x04 && command == 0xD0
    ||| address == 0x05 && command == 0xC0
    ||| address == 0x07 && command == 0xA0
    ||| address == 0x08 && (command == 0x80 || command == 0x90)
}

/// The facts of every receive switch of a part after one of them is set.
proof fn lemma_switch_bits(c: Channel, rx: Rx, on: bool)
    ensures
        ({
            let bits = if on {
                c.rx_switches | spec_rx_bit(rx)
            } else {
                c.rx_switches & !spec_rx_bit(rx)
            };
            forall|other: Rx| #![trigger spec_rx_bit(other)]
                (bits & spec_rx_bit(other) != 0) == if other == rx {
                    on
                } else {
                    c.rx_switches & spec_rx_bit(other) != 0
                }
        }),
{
    let bits = if on {
        c.rx_switches | spec_rx_bit(rx)
    } else {
        c.rx_switches & !spec_rx_bit(rx)
    };
    assert forall|other: Rx| #![trigger spec_rx_bit(other)]
        (bits & spec_rx_bit(other) != 0) == if other == rx {
            on
        } else {
            c.rx_switches & spec_rx_bit(other) != 0
        } by {
        law_rx_switch_reads_back(c, rx, on, other);
    }
}

/// A GS Patch Part receive switch message (addresses 03h to 12h) decides the reception of
/// exactly the messages its address names: with the switch off the part ignores them,
/// with it on it takes them as far as the other switches allow, and every other message
/// is received as before. Data entry (CC 6, 38) follows the RPN or NRPN switch, whichever
/// parameter the part is collecting.
pub proof fn law_gs_receive_switch_addresses(c: Channel, ch: int, address: u8, vv: u8, command: i32, x: i32)
    requires
        0x03 <= address <= 0x12,
    ensures
        ({
            let m = spec_gs_part_parameter(ch, address, vv).unwrap();
            let r = spec_switched(c, m);
            let on = vv != 0;
            &&& spec_switch_controls(address, x) ==> spec_receives_controller(r, x) == on
            &&& !spec_switch_controls(address, x) && x != 6 && x != 38 ==> spec_receives_controller(r, x)
                == spec_receives_controller(c, x)
            &&& spec_switch_commands(address, command) ==> spec_receives(r, command, x) == on
            &&& address == 0x06 ==> spec_receives(r, 0xB0, x) == (on && spec_receives_controller(c, x))
            &&& !spec_switch_commands(address, command) && command != 0xB0 ==> spec_receives(r, command, x)
                == spec_receives(c, command, x)
        }),
{
    let m = spec_gs_part_parameter(ch, address, vv).unwrap();
    let rx = m->RxSwitch_rx;
    lemma_switch_bits(c, rx, vv != 0);
    let r = spec_switched(c, m);
    assert(spec_rx_bit(Rx::PitchBend) == spec_rx_bit(Rx::PitchBend));
    assert(spec_rx_bit(Rx::ChannelPressure) == spec_rx_bit(Rx::ChannelPressure));
    assert(spec_rx_bit(Rx::ProgramChange) == spec_rx_bit(Rx::ProgramChange));
    assert(spec_rx_bit(Rx::ControlChange) == spec_rx_bit(Rx::ControlChange));
    assert(spec_rx_bit(Rx::PolyPressure) == spec_rx_bit(Rx::PolyPressure));
    assert(spec_rx_bit(Rx::Note) == spec_rx_bit(Rx::Note));
    assert(spec_rx_bit(Rx::Rpn) == spec_rx_bit(Rx::Rpn));
    assert(spec_rx_bit(Rx::Nrpn) == spec_rx_bit(Rx::Nrpn));
    assert(spec_rx_bit(Rx::Modulation) == spec_rx_bit(Rx::Modulation));
    assert(spec_rx_bit(Rx::Volume) == spec_rx_bit(Rx::Volume));
    assert(spec_rx_bit(Rx::Panpot) == spec_rx_bit(Rx::Panpot));
    assert(spec_rx_bit(Rx::Expression) == spec_rx_bit(Rx::Expression));
    assert(spec_rx_bit(Rx::Hold) == spec_rx_bit(Rx::Hold));
    assert(spec_rx_bit(Rx::Portamento) == spec_rx_bit(Rx::Portamento));
    assert(spec_rx_bit(Rx::Sostenuto) == spec_rx_bit(Rx::Sostenuto));
    assert(spec_rx_bit(Rx::Soft) == spec_rx_bit(Rx::Soft));
}

/// Registered parameter selection and data entry by control change: CC 101 and CC 100
/// select RPN `128 * msb + lsb`; then coarse data entry (CC 6) of `v` sets, for RPN 0, the
/// semitones of the pitch bend range; for RPN 1, the upper seven bits of the fine tune;
/// for RPN 2, the coarse tune to `v - 64`. Each leaves the other two fields as they were.
pub proof fn law_rpn_selection_and_data_entry(c: Channel, msb: i32, lsb: i32, v: i32)
    requires
        0 <= msb <= 127,
        0 <= lsb <= 127,
        0 <= v <= 127,
    ensures
        ({
            let selected = spec_control_change(spec_control_change(c, 0x65, msb), 0x64, lsb);
            let r = spec_control_change(selected, 0x06, v);
            &&& selected.rpn == 128 * msb + lsb
            &&& selected.last_data_type == DataType::Rpn
            &&& msb == 0 && lsb == 0 ==> r.pitch_bend_range as int == (c.pitch_bend_range & 0x7F) as int
                + 128 * v && r.fine_tune == c.fine_tune && r.coarse_tune == c.coarse_tune
            &&& msb == 0 && lsb == 1 ==> r.fine_tune as int == (c.fine_tune & 0x7F) as int + 128 * v
                && r.coarse_tune == c.coarse_tune && r.pitch_bend_range == c.pitch_bend_range
            &&& msb == 0 && lsb == 2 ==> r.coarse_tune == v - 64 && r.fine_tune == c.fine_tune
                && r.pitch_bend_range == c.pitch_bend_range
        }),
{
    let first = spec_control_change(c, 0x65, msb);
    lemma_with_coarse(c.rpn, msb);
    let x = first.rpn;
    let rpn = c.rpn;
    assert(0 <= (rpn & 0x7F) < 128) by (bit_vector);
    assert(x as int == (c.rpn & 0x7F) as int + 128 * msb);
    assert(0 <= x);
    lemma_with_fine(x, lsb);
    assert(x as int % 128 == (c.rpn & 0x7F) as int);
    lemma_with_coarse(c.pitch_bend_range, v);
    lemma_with_coarse(c.fine_tune, v);
}

} // verus!
