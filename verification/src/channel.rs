//! The state of one MIDI channel: bank and patch, the controllers, RPN and NRPN data
//! entry (pitch bend range, tuning, GS/XG tone and drum parameters), the GS receive
//! switches and keyboard range, and the raw controller values SoundFont modulators read.

use vstd::prelude::*;

verus! {

/// The MIDI system selected by the last GM System On, GS Reset or XG System On message;
/// it decides how Bank Select is interpreted.
#[derive(Clone, Copy, Debug, PartialEq, Eq, Structural)]
pub enum SystemMode {
    Gm,
    Gs,
    Xg,
}

/// A GS Patch Part receive switch, in the order of the GS parameter addresses 03h to 12h.
#[derive(Clone, Copy, Debug, PartialEq, Eq, Structural)]
pub enum Rx {
    PitchBend,
    ChannelPressure,
    ProgramChange,
    ControlChange,
    PolyPressure,
    Note,
    Rpn,
    Nrpn,
    Modulation,
    Volume,
    Panpot,
    Expression,
    Hold,
    Portamento,
    Sostenuto,
    Soft,
}

/// Which parameter number data entry goes to.
#[derive(Clone, Copy, Debug, PartialEq, Eq, Structural)]
pub enum DataType {
    /// Neither has been selected since the last reset of the controllers.
    NoParameter,
    Rpn,
    Nrpn,
}

/// The state of one MIDI channel.
#[derive(Clone, Copy, Debug)]
pub struct Channel {
    pub is_percussion_channel: bool,
    pub bank_number: i32,
    pub patch_number: i32,
    pub modulation: i16,
    pub volume: i16,
    pub pan: i16,
    pub expression: i16,
    pub hold_pedal: bool,
    pub reverb_send: u8,
    pub chorus_send: u8,
    pub rpn: i16,
    pub nrpn: i16,
    pub pitch_bend_range: i16,
    pub coarse_tune: i16,
    pub key_shift: i16,
    pub rx_switches: u16,
    pub keyboard_range_low: u8,
    pub keyboard_range_high: u8,
    pub fine_tune: i16,
    pub pitch_bend_value: i32,
    pub last_data_type: DataType,
    pub bank_lsb: i32,
    pub sostenuto_pedal: bool,
    pub soft_pedal: bool,
    pub variation_send: u8,
    pub filter_resonance: u8,
    pub release_time: u8,
    pub attack_time: u8,
    pub brightness: u8,
    pub decay_time: u8,
    pub vibrato_rate: u8,
    pub vibrato_depth: u8,
    pub vibrato_delay: u8,
    pub drum_pitch_coarse: [u8; 128],
    pub drum_level: [u8; 128],
    pub drum_pan: [u8; 128],
    pub drum_reverb_send: [u8; 128],
    pub drum_chorus_send: [u8; 128],
    pub channel_pressure: u8,
    pub portamento_on: bool,
    pub portamento_time: u8,
    pub portamento_control: i32,
    pub last_note_on_key: i32,
    pub controller_values: [u8; 128],
    pub poly_pressure: [u8; 128],
    pub pitch_bend_raw: u16,
    pub system_mode: SystemMode,
    /// The offset of each pitch class, C to B, from equal temperament, in cents.
    pub scale_tuning: [i32; 12],
}


/// The bit of a receive switch in `Channel::rx_switches`.
pub open spec fn spec_rx_bit(rx: Rx) -> u16 {
    match rx {
        Rx::PitchBend => 0x0001,
        Rx::ChannelPressure => 0x0002,
        Rx::ProgramChange => 0x0004,
        Rx::ControlChange => 0x0008,
        Rx::PolyPressure => 0x0010,
        Rx::Note => 0x0020,
        Rx::Rpn => 0x0040,
        Rx::Nrpn => 0x0080,
        Rx::Modulation => 0x0100,
        Rx::Volume => 0x0200,
        Rx::Panpot => 0x0400,
        Rx::Expression => 0x0800,
        Rx::Hold => 0x1000,
        Rx::Portamento => 0x2000,
        Rx::Sostenuto => 0x4000,
        Rx::Soft => 0x8000,
    }
}

/// The bit of a receive switch in `Channel::rx_switches`.
pub fn rx_bit(rx: Rx) -> (r: u16)
    ensures
        r == spec_rx_bit(rx),
{
    match rx {
        Rx::PitchBend => 0x0001,
        Rx::ChannelPressure => 0x0002,
        Rx::ProgramChange => 0x0004,
        Rx::ControlChange => 0x0008,
        Rx::PolyPressure => 0x0010,
        Rx::Note => 0x0020,
        Rx::Rpn => 0x0040,
        Rx::Nrpn => 0x0080,
        Rx::Modulation => 0x0100,
        Rx::Volume => 0x0200,
        Rx::Panpot => 0x0400,
        Rx::Expression => 0x0800,
        Rx::Hold => 0x1000,
        Rx::Portamento => 0x2000,
        Rx::Sostenuto => 0x4000,
        Rx::Soft => 0x8000,
    }
}

/// The receive switch at GS Patch Part address `0x03 + index`.
pub open spec fn spec_rx_at(index: int) -> Rx {
    if index == 0 {
        Rx::PitchBend
    } else if index == 1 {
        Rx::ChannelPressure
    } else if index == 2 {
        Rx::ProgramChange
    } else if index == 3 {
        Rx::ControlChange
    } else if index == 4 {
        Rx::PolyPressure
    } else if index == 5 {
        Rx::Note
    } else if index == 6 {
        Rx::Rpn
    } else if index == 7 {
        Rx::Nrpn
    } else if index == 8 {
        Rx::Modulation
    } else if index == 9 {
        Rx::Volume
    } else if index == 10 {
        Rx::Panpot
    } else if index == 11 {
        Rx::Expression
    } else if index == 12 {
        Rx::Hold
    } else if index == 13 {
        Rx::Portamento
    } else if index == 14 {
        Rx::Sostenuto
    } else {
        Rx::Soft
    }
}

/// The receive switch at GS Patch Part address `0x03 + index`.
pub fn rx_at(index: u8) -> (r: Rx)
    requires
        index < 16,
    ensures
        r == spec_rx_at(index as int),
{
    if index == 0 {
        Rx::PitchBend
    } else if index == 1 {
        Rx::ChannelPressure
    } else if index == 2 {
        Rx::ProgramChange
    } else if index == 3 {
        Rx::ControlChange
    } else if index == 4 {
        Rx::PolyPressure
    } else if index == 5 {
        Rx::Note
    } else if index == 6 {
        Rx::Rpn
    } else if index == 7 {
        Rx::Nrpn
    } else if index == 8 {
        Rx::Modulation
    } else if index == 9 {
        Rx::Volume
    } else if index == 10 {
        Rx::Panpot
    } else if index == 11 {
        Rx::Expression
    } else if index == 12 {
        Rx::Hold
    } else if index == 13 {
        Rx::Portamento
    } else if index == 14 {
        Rx::Sostenuto
    } else {
        Rx::Soft
    }
}

/// A drum instrument parameter that the file has not set; the SoundFont's value stands.
pub const UNSET_DRUM_PARAMETER: u8 = 0xFF;

/// The value a controller has after a reset: volume 100, pan 64, expression 127, reverb
/// send 40, the sound controllers 71 to 75 at 64, and the others 0.
pub open spec fn spec_default_controller_value(i: int) -> u8 {
    if i == 7 {
        100
    } else if i == 10 {
        64
    } else if i == 11 {
        127
    } else if i == 91 {
        40
    } else if 71 <= i <= 75 {
        64
    } else {
        0
    }
}

/// A 14-bit pair with its coarse (high seven bits) part replaced: the low seven bits
/// stay, and `value` shifted into place is or-ed in, truncated to 16 bits.
pub open spec fn spec_with_coarse(old: i16, value: i32) -> i16 {
    (old & 0x7F) | ((value << 7) as i16)
}

/// A 14-bit pair with its fine (low seven bits) part replaced: the bits from the eighth
/// up stay, and `value` is or-ed in, truncated to 16 bits.
pub open spec fn spec_with_fine(old: i16, value: i32) -> i16 {
    (((old as i32) & 0xFF80) | value) as i16
}

/// `value` limited to `lo..=hi`.
pub open spec fn spec_clamp(value: int, lo: int, hi: int) -> int {
    if value < lo {
        lo
    } else if value > hi {
        hi
    } else {
        value
    }
}

/// `r` holds the values every reset gives a channel; the percussion flag, the system mode
/// and the data entry target are left to the caller.
pub open spec fn spec_reset_values(r: Channel) -> bool {
    &&& r.bank_number == 0
    &&& r.patch_number == 0
    &&& r.modulation == 0
    &&& r.volume == 100 * 128
    &&& r.pan == 64 * 128
    &&& r.expression == 127 * 128
    &&& !r.hold_pedal
    &&& r.reverb_send == 40
    &&& r.chorus_send == 0
    &&& r.rpn == -1
    &&& r.nrpn == -1
    &&& r.pitch_bend_range == 2 * 128
    &&& r.coarse_tune == 0
    &&& r.key_shift == 0
    &&& r.rx_switches == 0xFFFF
    &&& r.keyboard_range_low == 0
    &&& r.keyboard_range_high == 127
    &&& r.fine_tune == 8192
    &&& r.pitch_bend_value == 8192
    &&& r.bank_lsb == 0
    &&& !r.sostenuto_pedal
    &&& !r.soft_pedal
    &&& r.variation_send == 0
    &&& r.filter_resonance == 64
    &&& r.release_time == 64
    &&& r.attack_time == 64
    &&& r.brightness == 64
    &&& r.decay_time == 64
    &&& r.vibrato_rate == 64
    &&& r.vibrato_depth == 64
    &&& r.vibrato_delay == 64
    &&& r.channel_pressure == 0
    &&& !r.portamento_on
    &&& r.portamento_time == 0
    &&& r.portamento_control == -1
    &&& r.last_note_on_key == -1
    &&& r.pitch_bend_raw == 8192
    &&& forall|i: int| 0 <= i < 12 ==> r.scale_tuning@[i] == 0
    &&& spec_reset_tables(
        r.drum_pitch_coarse,
        r.drum_level,
        r.drum_pan,
        r.drum_reverb_send,
        r.drum_chorus_send,
        r.controller_values,
        r.poly_pressure,
    )
}

/// The per-note drum parameters are unset (the coarse pitch centred), the raw controller
/// table holds the default of each controller, and no key has poly pressure.
pub open spec fn spec_reset_tables(
    pitch: [u8; 128],
    level: [u8; 128],
    pan: [u8; 128],
    reverb: [u8; 128],
    chorus: [u8; 128],
    controllers: [u8; 128],
    pressure: [u8; 128],
) -> bool {
    forall|i: int|
        0 <= i < 128 ==> {
            &&& pitch@[i] == 64
            &&& level@[i] == UNSET_DRUM_PARAMETER
            &&& pan@[i] == UNSET_DRUM_PARAMETER
            &&& reverb@[i] == UNSET_DRUM_PARAMETER
            &&& chorus@[i] == UNSET_DRUM_PARAMETER
            &&& controllers@[i] == spec_default_controller_value(i)
            &&& pressure@[i] == 0
        }
}

/// `r` is `c` after Reset All Controllers: modulation, expression, the pedals, channel
/// pressure, pitch bend and poly pressure return to their defaults, both parameter
/// numbers are deselected, and a pending portamento source is dropped; the rest stays.
pub open spec fn spec_controllers_reset(c: Channel, r: Channel) -> bool {
    &&& r == Channel {
        modulation: 0i16,
        expression: 16256i16,
        hold_pedal: false,
        rpn: -1i16,
        nrpn: -1i16,
        last_data_type: DataType::NoParameter,
        pitch_bend_value: 8192i32,
        sostenuto_pedal: false,
        soft_pedal: false,
        channel_pressure: 0u8,
        portamento_on: false,
        portamento_control: -1i32,
        controller_values: r.controller_values,
        poly_pressure: r.poly_pressure,
        pitch_bend_raw: 8192u16,
        ..c
    }
    &&& forall|i: int|
        0 <= i < 128 ==> r.controller_values@[i] == if i == 1 {
            0
        } else if i == 11 {
            127
        } else if 64 <= i <= 67 {
            0
        } else {
            c.controller_values@[i]
        }
    &&& forall|i: int| 0 <= i < 128 ==> r.poly_pressure@[i] == 0
}

/// `c` with controller `controller` (0 to 127; others are ignored) set to the low seven
/// bits of `value`.
pub open spec fn spec_set_controller_value(c: Channel, controller: i32, value: i32) -> Channel {
    if 0 <= controller < 128 {
        Channel {
            controller_values: vstd::array::spec_array_update(
                c.controller_values,
                controller as int,
                (value & 0x7F) as u8,
            ),
            ..c
        }
    } else {
        c
    }
}

/// `c` with the poly pressure of `key` (0 to 127; others are ignored) set to the low
/// seven bits of `value`.
pub open spec fn spec_set_poly_pressure(c: Channel, key: i32, value: i32) -> Channel {
    if 0 <= key < 128 {
        Channel {
            poly_pressure: vstd::array::spec_array_update(
                c.poly_pressure,
                key as int,
                (value & 0x7F) as u8,
            ),
            ..c
        }
    } else {
        c
    }
}

/// `c` after Bank Select MSB `value`: in XG mode, MSB 127 or 126 makes the channel a
/// percussion channel and any other value a melodic one.
pub open spec fn spec_set_bank(c: Channel, value: i32) -> Channel {
    Channel {
        bank_number: value,
        is_percussion_channel: if c.system_mode == SystemMode::Xg {
            value == 0x7F || value == 0x7E
        } else {
            c.is_percussion_channel
        },
        ..c
    }
}

/// The bank number used to look up presets: in XG mode, 128 on a percussion channel and
/// the Bank Select LSB otherwise; in GM and GS mode, the Bank Select MSB, plus 128 on a
/// percussion channel.
pub open spec fn spec_bank_number(c: Channel) -> i32 {
    if c.system_mode == SystemMode::Xg {
        if c.is_percussion_channel {
            128
        } else {
            c.bank_lsb
        }
    } else if c.is_percussion_channel {
        (c.bank_number + 128) as i32
    } else {
        c.bank_number
    }
}

/// The drum array index for a key, when drum parameters apply: on a percussion channel,
/// for keys 0 to 127.
pub open spec fn spec_drum_note(c: Channel, key: i32) -> Option<int> {
    if c.is_percussion_channel && 0 <= key < 128 {
        Some(key as int)
    } else {
        None
    }
}

/// A drum parameter for a key, when drum parameters apply and the file has set it.
pub open spec fn spec_drum_parameter(c: Channel, values: [u8; 128], key: i32) -> Option<u8> {
    match spec_drum_note(c, key) {
        Some(note) => if values@[note] != UNSET_DRUM_PARAMETER {
            Some(values@[note])
        } else {
            None
        },
        None => None,
    }
}

/// `r` is `c` after coarse data entry of `value`. For an RPN: 0 sets the coarse pitch bend
/// range, 1 the coarse fine tune, 2 the coarse tune (`value - 64` semitones). For an
/// NRPN of a GS drum instrument parameter (MSB 18h, 1Ah, 1Ch, 1Dh, 1Eh), the parameter of
/// the note in the LSB is set to `value` limited to 0..127; otherwise the GS/XG tone
/// parameters (vibrato rate, depth and delay, cutoff, resonance, attack, decay and
/// release) take `value` truncated to a byte.
pub open spec fn spec_data_entry_coarse(c: Channel, value: i32) -> Channel {
    match c.last_data_type {
        DataType::Rpn => if c.rpn == 0 {
            Channel { pitch_bend_range: spec_with_coarse(c.pitch_bend_range, value), ..c }
        } else if c.rpn == 1 {
            Channel { fine_tune: spec_with_coarse(c.fine_tune, value), ..c }
        } else if c.rpn == 2 {
            Channel { coarse_tune: (value - 64) as i16, ..c }
        } else {
            c
        },
        DataType::Nrpn => spec_nrpn_data_entry(c, value),
        DataType::NoParameter => c,
    }
}

/// The effect of coarse data entry under an NRPN.
pub open spec fn spec_nrpn_data_entry(c: Channel, value: i32) -> Channel {
    let note = (c.nrpn & 0x7F) as int;
    let v = spec_clamp(value as int, 0, 127) as u8;
    let msb = c.nrpn >> 7;
    if c.nrpn >= 0 && msb == 0x18 {
        Channel { drum_pitch_coarse: vstd::array::spec_array_update(c.drum_pitch_coarse, note, v), ..c }
    } else if c.nrpn >= 0 && msb == 0x1A {
        Channel { drum_level: vstd::array::spec_array_update(c.drum_level, note, v), ..c }
    } else if c.nrpn >= 0 && msb == 0x1C {
        Channel { drum_pan: vstd::array::spec_array_update(c.drum_pan, note, v), ..c }
    } else if c.nrpn >= 0 && msb == 0x1D {
        Channel { drum_reverb_send: vstd::array::spec_array_update(c.drum_reverb_send, note, v), ..c }
    } else if c.nrpn >= 0 && msb == 0x1E {
        Channel { drum_chorus_send: vstd::array::spec_array_update(c.drum_chorus_send, note, v), ..c }
    } else if c.nrpn == 136 {
        Channel { vibrato_rate: value as u8, ..c }
    } else if c.nrpn == 137 {
        Channel { vibrato_depth: value as u8, ..c }
    } else if c.nrpn == 138 {
        Channel { vibrato_delay: value as u8, ..c }
    } else if c.nrpn == 160 {
        Channel { brightness: value as u8, ..c }
    } else if c.nrpn == 161 {
        Channel { filter_resonance: value as u8, ..c }
    } else if c.nrpn == 227 {
        Channel { attack_time: value as u8, ..c }
    } else if c.nrpn == 228 {
        Channel { decay_time: value as u8, ..c }
    } else if c.nrpn == 230 {
        Channel { release_time: value as u8, ..c }
    } else {
        c
    }
}

/// `r` is `c` after fine data entry of `value`: for RPN 0 the fine pitch bend range, for
/// RPN 1 the fine part of the fine tune; nothing else.
pub open spec fn spec_data_entry_fine(c: Channel, value: i32) -> Channel {
    if c.last_data_type == DataType::Rpn && c.rpn == 0 {
        Channel { pitch_bend_range: spec_with_fine(c.pitch_bend_range, value), ..c }
    } else if c.last_data_type == DataType::Rpn && c.rpn == 1 {
        Channel { fine_tune: spec_with_fine(c.fine_tune, value), ..c }
    } else {
        c
    }
}

impl Channel {
    /// A channel after a reset, in GM mode, with no parameter number selected.
    pub fn new(is_percussion_channel: bool) -> (r: Channel)
        ensures
            spec_reset_values(r),
            r.is_percussion_channel == is_percussion_channel,
            r.last_data_type == DataType::NoParameter,
            r.system_mode == SystemMode::Gm,
    {
        let mut channel = Channel {
            is_percussion_channel,
            bank_number: 0,
            patch_number: 0,
            modulation: 0,
            volume: 0,
            pan: 0,
            expression: 0,
            hold_pedal: false,
            reverb_send: 0,
            chorus_send: 0,
            rpn: 0,
            nrpn: -1,
            pitch_bend_range: 0,
            coarse_tune: 0,
            key_shift: 0,
            rx_switches: 0xFFFF,
            keyboard_range_low: 0,
            keyboard_range_high: 127,
            fine_tune: 0,
            pitch_bend_value: 8192,
            last_data_type: DataType::NoParameter,
            bank_lsb: 0,
            sostenuto_pedal: false,
            soft_pedal: false,
            variation_send: 0,
            filter_resonance: 64,
            release_time: 64,
            attack_time: 64,
            brightness: 64,
            decay_time: 64,
            vibrato_rate: 64,
            vibrato_depth: 64,
            vibrato_delay: 64,
            drum_pitch_coarse: [64; 128],
            drum_level: [0xFF; 128],
            drum_pan: [0xFF; 128],
            drum_reverb_send: [0xFF; 128],
            drum_chorus_send: [0xFF; 128],
            channel_pressure: 0,
            portamento_on: false,
            portamento_time: 0,
            portamento_control: -1,
            last_note_on_key: -1,
            controller_values: [0; 128],
            poly_pressure: [0; 128],
            pitch_bend_raw: 8192,
            system_mode: SystemMode::Gm,
            scale_tuning: [0; 12],
        };
        channel.reset();
        channel
    }

    /// Returns every controller and parameter to its default, keeping the percussion
    /// flag, the system mode and the data entry target.
    pub fn reset(&mut self)
        ensures
            spec_reset_values(*final(self)),
            final(self).is_percussion_channel == old(self).is_percussion_channel,
            final(self).last_data_type == old(self).last_data_type,
            final(self).system_mode == old(self).system_mode,
    {
        self.bank_number = 0;
        self.patch_number = 0;
        self.modulation = 0;
        self.volume = 12800;
        self.pan = 8192;
        self.expression = 16256;
        self.hold_pedal = false;
        self.reverb_send = 40;
        self.chorus_send = 0;
        self.rpn = -1;
        self.pitch_bend_range = 256;
        self.coarse_tune = 0;
        self.key_shift = 0;
        self.rx_switches = 0xFFFF;
        self.keyboard_range_low = 0;
        self.keyboard_range_high = 127;
        self.fine_tune = 8192;
        self.pitch_bend_value = 8192;
        self.bank_lsb = 0;
        self.sostenuto_pedal = false;
        self.soft_pedal = false;
        self.variation_send = 0;
        self.filter_resonance = 64;
        self.release_time = 64;
        self.attack_time = 64;
        self.brightness = 64;
        self.decay_time = 64;
        self.nrpn = -1;
        self.vibrato_rate = 64;
        self.vibrato_depth = 64;
        self.vibrato_delay = 64;
        self.drum_pitch_coarse = [64; 128];
        self.drum_level = [0xFF; 128];
        self.drum_pan = [0xFF; 128];
        self.drum_reverb_send = [0xFF; 128];
        self.drum_chorus_send = [0xFF; 128];
        self.channel_pressure = 0;
        self.portamento_on = false;
        self.portamento_time = 0;
        self.portamento_control = -1;
        self.last_note_on_key = -1;
        let mut values = [0u8; 128];
        values[7] = 100;
        values[10] = 64;
        values[11] = 127;
        values[91] = 40;
        values[71] = 64;
        values[72] = 64;
        values[73] = 64;
        values[74] = 64;
        values[75] = 64;
        assert forall|i: int| 0 <= i < 128 implies values@[i] == spec_default_controller_value(i) by {
        }
        self.controller_values = values;
        self.poly_pressure = [0; 128];
        self.pitch_bend_raw = 8192;
        self.scale_tuning = [0; 12];
    }

    /// Makes the channel a percussion channel or a melodic one.
    pub fn set_percussion_channel(&mut self, is_percussion: bool)
        ensures
            *final(self) == (Channel { is_percussion_channel: is_percussion, ..*old(self) }),
    {
        self.is_percussion_channel = is_percussion;
    }

    /// The drum array index for a key, when drum parameters apply.
    pub fn drum_note(&self, key: i32) -> (r: Option<usize>)
        ensures
            r == match spec_drum_note(*self, key) {
                Some(n) => Some(n as usize),
                None => None::<usize>,
            },
    {
        if !self.is_percussion_channel {
            return None;
        }
        if 0 <= key && key < 128 {
            Some(key as usize)
        } else {
            None
        }
    }

    fn drum_parameter(&self, values: &[u8; 128], key: i32) -> (r: Option<u8>)
        ensures
            r == spec_drum_parameter(*self, *values, key),
    {
        match self.drum_note(key) {
            Some(note) => {
                let value = values[note];
                if value != UNSET_DRUM_PARAMETER {
                    Some(value)
                } else {
                    None
                }
            },
            None => None,
        }
    }

    /// The pitch offset in semitones from the GS drum instrument NRPN; 0 when drum
    /// parameters do not apply.
    pub fn get_drum_pitch_coarse(&self, key: i32) -> (r: i32)
        ensures
            r == match spec_drum_note(*self, key) {
                Some(n) => self.drum_pitch_coarse@[n] - 64,
                None => 0,
            },
    {
        match self.drum_note(key) {
            Some(note) => self.drum_pitch_coarse[note] as i32 - 64,
            None => 0,
        }
    }

    /// The level (0 to 127) from the GS drum instrument NRPN, when set.
    pub fn get_drum_level(&self, key: i32) -> (r: Option<u8>)
        ensures
            r == spec_drum_parameter(*self, self.drum_level, key),
    {
        self.drum_parameter(&self.drum_level, key)
    }

    /// The pan (0 to 127, 64 centre, 0 random) from the GS drum instrument NRPN, when set.
    pub fn get_drum_pan(&self, key: i32) -> (r: Option<u8>)
        ensures
            r == spec_drum_parameter(*self, self.drum_pan, key),
    {
        self.drum_parameter(&self.drum_pan, key)
    }

    /// The reverb send (0 to 127) from the GS drum instrument NRPN, when set.
    pub fn get_drum_reverb_send(&self, key: i32) -> (r: Option<u8>)
        ensures
            r == spec_drum_parameter(*self, self.drum_reverb_send, key),
    {
        self.drum_parameter(&self.drum_reverb_send, key)
    }

    /// The chorus send (0 to 127) from the GS drum instrument NRPN, when set.
    pub fn get_drum_chorus_send(&self, key: i32) -> (r: Option<u8>)
        ensures
            r == spec_drum_parameter(*self, self.drum_chorus_send, key),
    {
        self.drum_parameter(&self.drum_chorus_send, key)
    }

    /// GS Pitch Key Shift, in semitones, limited to -24..24.
    pub fn set_key_shift(&mut self, semitones: i32)
        ensures
            *final(self) == (Channel {
                key_shift: spec_clamp(semitones as int, -24, 24) as i16,
                ..*old(self)
            }),
    {
        let v = if semitones < -24 {
            -24
        } else if semitones > 24 {
            24
        } else {
            semitones
        };
        self.key_shift = v as i16;
    }

    /// Turns one GS Patch Part receive switch on or off.
    pub fn set_rx_switch(&mut self, rx: Rx, on: bool)
        ensures
            *final(self) == (Channel {
                rx_switches: if on {
                    old(self).rx_switches | spec_rx_bit(rx)
                } else {
                    old(self).rx_switches & !spec_rx_bit(rx)
                },
                ..*old(self)
            }),
    {
        let bit = rx_bit(rx);
        if on {
            self.rx_switches = self.rx_switches | bit;
        } else {
            self.rx_switches = self.rx_switches & !bit;
        }
    }

    /// True when the part acts on the messages this switch covers.
    pub fn receives(&self, rx: Rx) -> (r: bool)
        ensures
            r == (self.rx_switches & spec_rx_bit(rx) != 0),
    {
        self.rx_switches & rx_bit(rx) != 0
    }

    /// True when data entry goes to an NRPN.
    pub fn is_nrpn_active(&self) -> (r: bool)
        ensures
            r == (self.last_data_type == DataType::Nrpn),
    {
        self.last_data_type == DataType::Nrpn
    }

    /// The low end of the GS Keyboard Range, limited to 0..127.
    pub fn set_keyboard_range_low(&mut self, value: i32)
        ensures
            *final(self) == (Channel {
                keyboard_range_low: spec_clamp(value as int, 0, 127) as u8,
                ..*old(self)
            }),
    {
        let v = if value < 0 {
            0
        } else if value > 127 {
            127
        } else {
            value
        };
        self.keyboard_range_low = v as u8;
    }

    /// The high end of the GS Keyboard Range, limited to 0..127.
    pub fn set_keyboard_range_high(&mut self, value: i32)
        ensures
            *final(self) == (Channel {
                keyboard_range_high: spec_clamp(value as int, 0, 127) as u8,
                ..*old(self)
            }),
    {
        let v = if value < 0 {
            0
        } else if value > 127 {
            127
        } else {
            value
        };
        self.keyboard_range_high = v as u8;
    }

    /// True when the part sounds this key: a low bound above the high bound silences it.
    pub fn is_key_in_range(&self, key: i32) -> (r: bool)
        ensures
            r == (self.keyboard_range_low <= key <= self.keyboard_range_high),
    {
        key >= self.keyboard_range_low as i32 && key <= self.keyboard_range_high as i32
    }

    /// Selects how Bank Select is interpreted.
    pub fn set_system_mode(&mut self, mode: SystemMode)
        ensures
            *final(self) == (Channel { system_mode: mode, ..*old(self) }),
    {
        self.system_mode = mode;
    }

    /// The system mode.
    pub fn get_system_mode(&self) -> (r: SystemMode)
        ensures
            r == self.system_mode,
    {
        self.system_mode
    }

    /// Reset All Controllers.
    pub fn reset_all_controllers(&mut self)
        ensures
            spec_controllers_reset(*old(self), *final(self)),
    {
        self.modulation = 0;
        self.expression = 16256;
        self.hold_pedal = false;
        self.rpn = -1;
        self.nrpn = -1;
        self.last_data_type = DataType::NoParameter;
        self.pitch_bend_value = 8192;
        self.sostenuto_pedal = false;
        self.soft_pedal = false;
        self.channel_pressure = 0;
        self.portamento_on = false;
        self.portamento_control = -1;
        self.controller_values[1] = 0;
        self.controller_values[11] = 127;
        self.controller_values[64] = 0;
        self.controller_values[65] = 0;
        self.controller_values[66] = 0;
        self.controller_values[67] = 0;
        self.poly_pressure = [0; 128];
        self.pitch_bend_raw = 8192;
    }

    /// Bank Select MSB; in XG mode, MSB 127 or 126 makes the channel a percussion channel
    /// and any other value a melodic one.
    pub fn set_bank(&mut self, value: i32)
        ensures
            *final(self) == spec_set_bank(*old(self), value),
    {
        self.bank_number = value;
        if self.system_mode == SystemMode::Xg {
            self.is_percussion_channel = value == 0x7F || value == 0x7E;
        }
    }

    /// Program Change.
    pub fn set_patch(&mut self, value: i32)
        ensures
            *final(self) == (Channel { patch_number: value, ..*old(self) }),
    {
        self.patch_number = value;
    }

    /// Modulation wheel (high seven bits).
    pub fn set_modulation_coarse(&mut self, value: i32)
        ensures
            *final(self) == (Channel { modulation: spec_with_coarse(old(self).modulation, value), ..*old(self) }),
    {
        self.modulation = (self.modulation & 0x7F) | (value << 7) as i16;
    }

    /// Modulation wheel (low seven bits).
    pub fn set_modulation_fine(&mut self, value: i32)
        ensures
            *final(self) == (Channel { modulation: spec_with_fine(old(self).modulation, value), ..*old(self) }),
    {
        self.modulation = (((self.modulation as i32) & 0xFF80) | value) as i16;
    }

    /// Channel volume (high seven bits).
    pub fn set_volume_coarse(&mut self, value: i32)
        ensures
            *final(self) == (Channel { volume: spec_with_coarse(old(self).volume, value), ..*old(self) }),
    {
        self.volume = (self.volume & 0x7F) | (value << 7) as i16;
    }

    /// Channel volume (low seven bits).
    pub fn set_volume_fine(&mut self, value: i32)
        ensures
            *final(self) == (Channel { volume: spec_with_fine(old(self).volume, value), ..*old(self) }),
    {
        self.volume = (((self.volume as i32) & 0xFF80) | value) as i16;
    }

    /// Pan (high seven bits).
    pub fn set_pan_coarse(&mut self, value: i32)
        ensures
            *final(self) == (Channel { pan: spec_with_coarse(old(self).pan, value), ..*old(self) }),
    {
        self.pan = (self.pan & 0x7F) | (value << 7) as i16;
    }

    /// Pan (low seven bits).
    pub fn set_pan_fine(&mut self, value: i32)
        ensures
            *final(self) == (Channel { pan: spec_with_fine(old(self).pan, value), ..*old(self) }),
    {
        self.pan = (((self.pan as i32) & 0xFF80) | value) as i16;
    }

    /// Expression (high seven bits).
    pub fn set_expression_coarse(&mut self, value: i32)
        ensures
            *final(self) == (Channel { expression: spec_with_coarse(old(self).expression, value), ..*old(self) }),
    {
        self.expression = (self.expression & 0x7F) | (value << 7) as i16;
    }

    /// Expression (low seven bits).
    pub fn set_expression_fine(&mut self, value: i32)
        ensures
            *final(self) == (Channel { expression: spec_with_fine(old(self).expression, value), ..*old(self) }),
    {
        self.expression = (((self.expression as i32) & 0xFF80) | value) as i16;
    }

    /// Hold pedal: down from 64 on.
    pub fn set_hold_pedal(&mut self, value: i32)
        ensures
            *final(self) == (Channel { hold_pedal: value >= 64, ..*old(self) }),
    {
        self.hold_pedal = value >= 64;
    }

    /// Sostenuto pedal: down from 64 on.
    pub fn set_sostenuto_pedal(&mut self, value: i32)
        ensures
            *final(self) == (Channel { sostenuto_pedal: value >= 64, ..*old(self) }),
    {
        self.sostenuto_pedal = value >= 64;
    }

    /// Soft pedal: down from 64 on.
    pub fn set_soft_pedal(&mut self, value: i32)
        ensures
            *final(self) == (Channel { soft_pedal: value >= 64, ..*old(self) }),
    {
        self.soft_pedal = value >= 64;
    }

    /// Portamento switch: down from 64 on.
    pub fn set_portamento_on(&mut self, value: i32)
        ensures
            *final(self) == (Channel { portamento_on: value >= 64, ..*old(self) }),
    {
        self.portamento_on = value >= 64;
    }

    /// Reverb send, truncated to a byte.
    pub fn set_reverb_send(&mut self, value: i32)
        ensures
            *final(self) == (Channel { reverb_send: value as u8, ..*old(self) }),
    {
        self.reverb_send = value as u8;
    }

    /// Chorus send, truncated to a byte.
    pub fn set_chorus_send(&mut self, value: i32)
        ensures
            *final(self) == (Channel { chorus_send: value as u8, ..*old(self) }),
    {
        self.chorus_send = value as u8;
    }

    /// Variation send, truncated to a byte.
    pub fn set_variation_send(&mut self, value: i32)
        ensures
            *final(self) == (Channel { variation_send: value as u8, ..*old(self) }),
    {
        self.variation_send = value as u8;
    }

    /// Filter resonance (CC 71), truncated to a byte.
    pub fn set_filter_resonance(&mut self, value: i32)
        ensures
            *final(self) == (Channel { filter_resonance: value as u8, ..*old(self) }),
    {
        self.filter_resonance = value as u8;
    }

    /// Release time (CC 72), truncated to a byte.
    pub fn set_release_time(&mut self, value: i32)
        ensures
            *final(self) == (Channel { release_time: value as u8, ..*old(self) }),
    {
        self.release_time = value as u8;
    }

    /// Attack time (CC 73), truncated to a byte.
    pub fn set_attack_time(&mut self, value: i32)
        ensures
            *final(self) == (Channel { attack_time: value as u8, ..*old(self) }),
    {
        self.attack_time = value as u8;
    }

    /// Brightness (CC 74), truncated to a byte.
    pub fn set_brightness(&mut self, value: i32)
        ensures
            *final(self) == (Channel { brightness: value as u8, ..*old(self) }),
    {
        self.brightness = value as u8;
    }

    /// Decay time (CC 75), truncated to a byte.
    pub fn set_decay_time(&mut self, value: i32)
        ensures
            *final(self) == (Channel { decay_time: value as u8, ..*old(self) }),
    {
        self.decay_time = value as u8;
    }

    /// Channel pressure, truncated to a byte.
    pub fn set_channel_pressure(&mut self, value: i32)
        ensures
            *final(self) == (Channel { channel_pressure: value as u8, ..*old(self) }),
    {
        self.channel_pressure = value as u8;
    }

    /// Portamento time (CC 5), truncated to a byte.
    pub fn set_portamento_time(&mut self, value: i32)
        ensures
            *final(self) == (Channel { portamento_time: value as u8, ..*old(self) }),
    {
        self.portamento_time = value as u8;
    }

    /// Bank Select LSB.
    pub fn set_bank_lsb(&mut self, value: i32)
        ensures
            *final(self) == (Channel { bank_lsb: value, ..*old(self) }),
    {
        self.bank_lsb = value;
    }

    /// Portamento control (CC 84): the source key of the next note.
    pub fn set_portamento_control(&mut self, value: i32)
        ensures
            *final(self) == (Channel { portamento_control: value, ..*old(self) }),
    {
        self.portamento_control = value;
    }

    /// The key of the last note on.
    pub fn set_last_note_on_key(&mut self, value: i32)
        ensures
            *final(self) == (Channel { last_note_on_key: value, ..*old(self) }),
    {
        self.last_note_on_key = value;
    }

    /// Registered parameter number (high seven bits); data entry then goes to it.
    pub fn set_rpn_coarse(&mut self, value: i32)
        ensures
            *final(self) == (Channel {
                rpn: spec_with_coarse(old(self).rpn, value),
                last_data_type: DataType::Rpn,
                ..*old(self)
            }),
    {
        self.rpn = (self.rpn & 0x7F) | (value << 7) as i16;
        self.last_data_type = DataType::Rpn;
    }

    /// Registered parameter number (low seven bits); data entry then goes to it.
    pub fn set_rpn_fine(&mut self, value: i32)
        ensures
            *final(self) == (Channel {
                rpn: spec_with_fine(old(self).rpn, value),
                last_data_type: DataType::Rpn,
                ..*old(self)
            }),
    {
        self.rpn = (((self.rpn as i32) & 0xFF80) | value) as i16;
        self.last_data_type = DataType::Rpn;
    }

    /// Non-registered parameter number (high seven bits); data entry then goes to it.
    pub fn set_nrpn_coarse(&mut self, value: i32)
        ensures
            *final(self) == (Channel {
                nrpn: spec_with_coarse(old(self).nrpn, value),
                last_data_type: DataType::Nrpn,
                ..*old(self)
            }),
    {
        self.nrpn = (self.nrpn & 0x7F) | (value << 7) as i16;
        self.last_data_type = DataType::Nrpn;
    }

    /// Non-registered parameter number (low seven bits); data entry then goes to it.
    pub fn set_nrpn_fine(&mut self, value: i32)
        ensures
            *final(self) == (Channel {
                nrpn: spec_with_fine(old(self).nrpn, value),
                last_data_type: DataType::Nrpn,
                ..*old(self)
            }),
    {
        self.nrpn = (((self.nrpn as i32) & 0xFF80) | value) as i16;
        self.last_data_type = DataType::Nrpn;
    }


    /// Coarse data entry for the selected RPN or NRPN.
    pub fn data_entry_coarse(&mut self, value: i32)
        ensures
            *final(self) == spec_data_entry_coarse(*old(self), value),
    {
        match self.last_data_type {
            DataType::Rpn => {
                if self.rpn == 0 {
                    self.pitch_bend_range = (self.pitch_bend_range & 0x7F) | (value << 7) as i16;
                } else if self.rpn == 1 {
                    self.fine_tune = (self.fine_tune & 0x7F) | (value << 7) as i16;
                } else if self.rpn == 2 {
                    self.coarse_tune = (value as i64 - 64) as i16;
                }
            },
            DataType::Nrpn => {
                self.nrpn_data_entry_coarse(value);
            },
            DataType::NoParameter => {},
        }
    }

    fn nrpn_data_entry_coarse(&mut self, value: i32)
        ensures
            *final(self) == spec_nrpn_data_entry(*old(self), value),
    {
        if self.nrpn >= 0 {
            let note = (self.nrpn & 0x7F) as usize;
            let v: u8 = if value < 0 {
                0u8
            } else if value > 127 {
                127u8
            } else {
                value as u8
            };
            let n = self.nrpn;
            let msb = n >> 7;
            assert((n & 0x7F) < 128) by (bit_vector);
            if msb == 0x18 {
                self.drum_pitch_coarse[note] = v;
                return;
            } else if msb == 0x1A {
                self.drum_level[note] = v;
                return;
            } else if msb == 0x1C {
                self.drum_pan[note] = v;
                return;
            } else if msb == 0x1D {
                self.drum_reverb_send[note] = v;
                return;
            } else if msb == 0x1E {
                self.drum_chorus_send[note] = v;
                return;
            }
        }
        if self.nrpn == 136 {
            self.vibrato_rate = value as u8;
        } else if self.nrpn == 137 {
            self.vibrato_depth = value as u8;
        } else if self.nrpn == 138 {
            self.vibrato_delay = value as u8;
        } else if self.nrpn == 160 {
            self.brightness = value as u8;
        } else if self.nrpn == 161 {
            self.filter_resonance = value as u8;
        } else if self.nrpn == 227 {
            self.attack_time = value as u8;
        } else if self.nrpn == 228 {
            self.decay_time = value as u8;
        } else if self.nrpn == 230 {
            self.release_time = value as u8;
        }
    }

    /// Fine data entry for the selected RPN.
    pub fn data_entry_fine(&mut self, value: i32)
        ensures
            *final(self) == spec_data_entry_fine(*old(self), value),
    {
        if self.last_data_type == DataType::Rpn {
            if self.rpn == 0 {
                self.pitch_bend_range = (((self.pitch_bend_range as i32) & 0xFF80) | value) as i16;
            } else if self.rpn == 1 {
                self.fine_tune = (((self.fine_tune as i32) & 0xFF80) | value) as i16;
            }
        }
    }

    /// Pitch bend from its two data bytes: the value they make and its raw 14 bits.
    pub fn set_pitch_bend(&mut self, value1: i32, value2: i32)
        ensures
            *final(self) == (Channel {
                pitch_bend_value: value1 | (value2 << 7),
                pitch_bend_raw: ((value1 & 0x7F) | ((value2 & 0x7F) << 7)) as u16,
                ..*old(self)
            }),
    {
        self.pitch_bend_value = value1 | (value2 << 7);
        self.pitch_bend_raw = ((value1 & 0x7F) | ((value2 & 0x7F) << 7)) as u16;
    }

    /// Stores the raw value of a controller 0 to 127; other numbers are ignored.
    pub fn set_controller_value(&mut self, controller: i32, value: i32)
        ensures
            *final(self) == spec_set_controller_value(*old(self), controller, value),
    {
        if 0 <= controller && controller < 128 {
            self.controller_values[controller as usize] = (value & 0x7F) as u8;
        }
    }

    /// The raw value of a controller (its number taken modulo 128).
    pub fn get_controller_value(&self, controller: u8) -> (r: u8)
        ensures
            r == self.controller_values@[(controller & 0x7F) as int],
    {
        let index = (controller & 0x7F) as usize;
        assert(index < 128) by (bit_vector)
            requires
                index == (controller & 0x7F) as usize,
        ;
        self.controller_values[index]
    }

    /// Stores the poly pressure of a key 0 to 127; other keys are ignored.
    pub fn set_poly_pressure(&mut self, key: i32, value: i32)
        ensures
            *final(self) == spec_set_poly_pressure(*old(self), key, value),
    {
        if 0 <= key && key < 128 {
            self.poly_pressure[key as usize] = (value & 0x7F) as u8;
        }
    }

    /// The poly pressure of a key; 0 for keys outside 0 to 127.
    pub fn get_poly_pressure(&self, key: i32) -> (r: u8)
        ensures
            r == if 0 <= key < 128 {
                self.poly_pressure@[key as int]
            } else {
                0
            },
    {
        if 0 <= key && key < 128 {
            self.poly_pressure[key as usize]
        } else {
            0
        }
    }

    /// The raw 14-bit pitch wheel position (8192 is centre).
    pub fn get_pitch_bend_raw(&self) -> (r: u16)
        ensures
            r == self.pitch_bend_raw,
    {
        self.pitch_bend_raw
    }

    /// The source key of the next portamento: the one portamento control set, once, or
    /// else the last key played; -1 when there is none.
    pub fn consume_portamento_source(&mut self) -> (r: i32)
        ensures
            old(self).portamento_control >= 0 ==> r == old(self).portamento_control
                && *final(self) == (Channel { portamento_control: -1i32, ..*old(self) }),
            old(self).portamento_control < 0 ==> r == old(self).last_note_on_key && *final(self)
                == *old(self),
    {
        if self.portamento_control >= 0 {
            let source = self.portamento_control;
            self.portamento_control = -1;
            source
        } else {
            self.last_note_on_key
        }
    }

    /// The bank number used to look up presets.
    pub fn get_bank_number(&self) -> (r: i32)
        ensures
            r == spec_bank_number(*self),
    {
        if self.system_mode == SystemMode::Xg {
            if self.is_percussion_channel {
                128
            } else {
                self.bank_lsb
            }
        } else if self.is_percussion_channel {
            (self.bank_number as i64 + 128) as i32
        } else {
            self.bank_number
        }
    }

    /// The program number.
    pub fn get_patch_number(&self) -> (r: i32)
        ensures
            r == self.patch_number,
    {
        self.patch_number
    }

    /// The hold pedal.
    pub fn get_hold_pedal(&self) -> (r: bool)
        ensures
            r == self.hold_pedal,
    {
        self.hold_pedal
    }

    /// The coarse channel volume (0 to 127).
    pub fn get_volume_raw(&self) -> (r: u8)
        ensures
            r == (self.volume >> 7) as u8,
    {
        (self.volume >> 7) as u8
    }

    /// The coarse pan (0 to 127, 64 centre).
    pub fn get_pan_raw(&self) -> (r: u8)
        ensures
            r == (self.pan >> 7) as u8,
    {
        (self.pan >> 7) as u8
    }

    /// The coarse expression (0 to 127).
    pub fn get_expression_raw(&self) -> (r: u8)
        ensures
            r == (self.expression >> 7) as u8,
    {
        (self.expression >> 7) as u8
    }

    /// Whether the channel is a percussion channel.
    pub fn get_is_percussion_channel(&self) -> (r: bool)
        ensures
            r == self.is_percussion_channel,
    {
        self.is_percussion_channel
    }

    /// The reverb send, 0 to 127.
    pub fn get_reverb_send_raw(&self) -> (r: u8)
        ensures
            r == self.reverb_send,
    {
        self.reverb_send
    }

    /// The chorus send, 0 to 127.
    pub fn get_chorus_send_raw(&self) -> (r: u8)
        ensures
            r == self.chorus_send,
    {
        self.chorus_send
    }

    /// The variation send (CC 94).
    pub fn get_variation_send_raw(&self) -> (r: u8)
        ensures
            r == self.variation_send,
    {
        self.variation_send
    }

    /// The filter resonance controller (CC 71); 64 is neutral.
    pub fn get_filter_resonance_raw(&self) -> (r: u8)
        ensures
            r == self.filter_resonance,
    {
        self.filter_resonance
    }

    /// The release time controller (CC 72); 64 is neutral.
    pub fn get_release_time_raw(&self) -> (r: u8)
        ensures
            r == self.release_time,
    {
        self.release_time
    }

    /// The attack time controller (CC 73); 64 is neutral.
    pub fn get_attack_time_raw(&self) -> (r: u8)
        ensures
            r == self.attack_time,
    {
        self.attack_time
    }

    /// The brightness controller (CC 74); 64 is neutral.
    pub fn get_brightness_raw(&self) -> (r: u8)
        ensures
            r == self.brightness,
    {
        self.brightness
    }

    /// The decay time controller (CC 75); 64 is neutral.
    pub fn get_decay_time_raw(&self) -> (r: u8)
        ensures
            r == self.decay_time,
    {
        self.decay_time
    }

    /// The vibrato rate set by NRPN; 64 is neutral.
    pub fn get_vibrato_rate_raw(&self) -> (r: u8)
        ensures
            r == self.vibrato_rate,
    {
        self.vibrato_rate
    }

    /// The vibrato depth set by NRPN; 64 is neutral.
    pub fn get_vibrato_depth_raw(&self) -> (r: u8)
        ensures
            r == self.vibrato_depth,
    {
        self.vibrato_depth
    }

    /// The vibrato delay set by NRPN; 64 is neutral.
    pub fn get_vibrato_delay_raw(&self) -> (r: u8)
        ensures
            r == self.vibrato_delay,
    {
        self.vibrato_delay
    }

    /// The channel pressure, 0 to 127.
    pub fn get_channel_pressure_raw(&self) -> (r: u8)
        ensures
            r == self.channel_pressure,
    {
        self.channel_pressure
    }

    /// The portamento time controller (CC 5).
    pub fn get_portamento_time_raw(&self) -> (r: u8)
        ensures
            r == self.portamento_time,
    {
        self.portamento_time
    }

    /// The Bank Select LSB.
    pub fn get_bank_lsb(&self) -> (r: i32)
        ensures
            r == self.bank_lsb,
    {
        self.bank_lsb
    }

    /// Whether the sostenuto pedal is down.
    pub fn get_sostenuto_pedal(&self) -> (r: bool)
        ensures
            r == self.sostenuto_pedal,
    {
        self.sostenuto_pedal
    }

    /// Whether the soft pedal is down.
    pub fn get_soft_pedal(&self) -> (r: bool)
        ensures
            r == self.soft_pedal,
    {
        self.soft_pedal
    }

    /// Whether portamento is switched on.
    pub fn get_portamento_on(&self) -> (r: bool)
        ensures
            r == self.portamento_on,
    {
        self.portamento_on
    }

    /// Sets the offset of each pitch class, C to B, in cents.
    pub fn set_scale_tuning(&mut self, tuning: [i32; 12])
        ensures
            *final(self) == (Channel { scale_tuning: tuning, ..*old(self) }),
    {
        self.scale_tuning = tuning;
    }

    /// The offset of each pitch class, C to B, in cents.
    pub fn get_scale_tuning(&self) -> (r: [i32; 12])
        ensures
            r == self.scale_tuning,
    {
        self.scale_tuning
    }

    /// The scale tuning offset of a key's pitch class, in cents.
    pub fn get_scale_tuning_for_key(&self, key: i32) -> (r: i32)
        requires
            key >= 0,
        ensures
            r == self.scale_tuning@[key as int % 12],
    {
        self.scale_tuning[(key % 12) as usize]
    }
}

/// True when a part receives this particular control change, on top of the switch that
/// covers control changes as a whole. Data entry is shared between RPN and NRPN, so the
/// switch that applies to it depends on which one the part is collecting.
pub open spec fn spec_receives_controller(c: Channel, controller: i32) -> bool {
    let on = |rx: Rx| c.rx_switches & spec_rx_bit(rx) != 0;
    if controller == 0x01 || controller == 0x21 {
        on(Rx::Modulation)
    } else if controller == 0x07 || controller == 0x27 {
        on(Rx::Volume)
    } else if controller == 0x0A || controller == 0x2A {
        on(Rx::Panpot)
    } else if controller == 0x0B || controller == 0x2B {
        on(Rx::Expression)
    } else if controller == 0x40 {
        on(Rx::Hold)
    } else if controller == 0x05 || controller == 0x41 || controller == 0x54 {
        on(Rx::Portamento)
    } else if controller == 0x42 {
        on(Rx::Sostenuto)
    } else if controller == 0x43 {
        on(Rx::Soft)
    } else if controller == 0x62 || controller == 0x63 {
        on(Rx::Nrpn)
    } else if controller == 0x64 || controller == 0x65 {
        on(Rx::Rpn)
    } else if controller == 0x06 || controller == 0x26 {
        if c.last_data_type == DataType::Nrpn {
            on(Rx::Nrpn)
        } else {
            on(Rx::Rpn)
        }
    } else {
        true
    }
}

/// True when a part receives this particular control change.
pub fn receives_controller(channel: &Channel, controller: i32) -> (r: bool)
    ensures
        r == spec_receives_controller(*channel, controller),
{
    if controller == 0x01 || controller == 0x21 {
        channel.receives(Rx::Modulation)
    } else if controller == 0x07 || controller == 0x27 {
        channel.receives(Rx::Volume)
    } else if controller == 0x0A || controller == 0x2A {
        channel.receives(Rx::Panpot)
    } else if controller == 0x0B || controller == 0x2B {
        channel.receives(Rx::Expression)
    } else if controller == 0x40 {
        channel.receives(Rx::Hold)
    } else if controller == 0x05 || controller == 0x41 || controller == 0x54 {
        channel.receives(Rx::Portamento)
    } else if controller == 0x42 {
        channel.receives(Rx::Sostenuto)
    } else if controller == 0x43 {
        channel.receives(Rx::Soft)
    } else if controller == 0x62 || controller == 0x63 {
        channel.receives(Rx::Nrpn)
    } else if controller == 0x64 || controller == 0x65 {
        channel.receives(Rx::Rpn)
    } else if controller == 0x06 || controller == 0x26 {
        if channel.is_nrpn_active() {
            channel.receives(Rx::Nrpn)
        } else {
            channel.receives(Rx::Rpn)
        }
    } else {
        true
    }
}


/// Setting the coarse and then the fine half of a 14-bit controller pair gives the value
/// they make together, whatever the pair held before.
pub proof fn law_coarse_then_fine(old: i16, coarse: i32, fine: i32)
    requires
        0 <= coarse < 128,
        0 <= fine < 128,
    ensures
        spec_with_fine(spec_with_coarse(old, coarse), fine) == coarse * 128 + fine,
{
    let c = spec_with_coarse(old, coarse);
    assert(((((old & 0x7F) | ((coarse << 7) as i16)) as i32 & 0xFF80) | fine) as i16 == coarse
        * 128 + fine) by (bit_vector)
        requires
            0 <= coarse < 128,
            0 <= fine < 128,
    ;
}

/// A receive switch reads back as it was set, and the others keep their state.
pub proof fn law_rx_switch_reads_back(c: Channel, rx: Rx, on: bool, other: Rx)
    ensures
        ({
            let bits = if on {
                c.rx_switches | spec_rx_bit(rx)
            } else {
                c.rx_switches & !spec_rx_bit(rx)
            };
            &&& (bits & spec_rx_bit(rx) != 0) == on
            &&& other != rx ==> (bits & spec_rx_bit(other) != 0) == (c.rx_switches & spec_rx_bit(
                other,
            ) != 0)
        }),
{
    let x = c.rx_switches;
    let b = spec_rx_bit(rx);
    let o = spec_rx_bit(other);
    assert(b == 1 || b == 2 || b == 4 || b == 8 || b == 16 || b == 32 || b == 64 || b == 128
        || b == 256 || b == 512 || b == 1024 || b == 2048 || b == 4096 || b == 8192 || b == 16384
        || b == 32768);
    assert(o == 1 || o == 2 || o == 4 || o == 8 || o == 16 || o == 32 || o == 64 || o == 128
        || o == 256 || o == 512 || o == 1024 || o == 2048 || o == 4096 || o == 8192 || o == 16384
        || o == 32768);
    assert(other != rx ==> o != b);
    assert((b == 1 || b == 2 || b == 4 || b == 8 || b == 16 || b == 32 || b == 64 || b == 128
        || b == 256 || b == 512 || b == 1024 || b == 2048 || b == 4096 || b == 8192 || b == 16384
        || b == 32768) ==> ((x | b) & b) != 0 && ((x & !b) & b) == 0) by (bit_vector);
    assert((b == 1 || b == 2 || b == 4 || b == 8 || b == 16 || b == 32 || b == 64 || b == 128
        || b == 256 || b == 512 || b == 1024 || b == 2048 || b == 4096 || b == 8192 || b == 16384
        || b == 32768) && (o == 1 || o == 2 || o == 4 || o == 8 || o == 16 || o == 32 || o == 64
        || o == 128 || o == 256 || o == 512 || o == 1024 || o == 2048 || o == 4096 || o == 8192
        || o == 16384 || o == 32768) && o != b ==> (((x | b) & o) != 0) == ((x & o) != 0) && (((x
        & !b) & o) != 0) == ((x & o) != 0)) by (bit_vector);
}

/// Reset All Controllers keeps the GS drum instrument parameters, and deselects both
/// parameter numbers so that data entry after it changes nothing.
pub proof fn law_controllers_reset_keeps_drums(c: Channel, r: Channel, value: i32)
    requires
        spec_controllers_reset(c, r),
    ensures
        r.drum_pitch_coarse == c.drum_pitch_coarse,
        r.drum_level == c.drum_level,
        r.drum_pan == c.drum_pan,
        r.drum_reverb_send == c.drum_reverb_send,
        r.drum_chorus_send == c.drum_chorus_send,
        spec_data_entry_coarse(r, value) == r,
        spec_data_entry_fine(r, value) == r,
{
}

/// The upper seven bits of a 14-bit pair replaced by a data byte: the low seven bits
/// stay, and the byte counts 128 each.
pub proof fn lemma_with_coarse(old: i16, value: i32)
    requires
        0 <= value <= 127,
    ensures
        spec_with_coarse(old, value) as int == (old & 0x7F) as int + 128 * value,
{
    assert(0 <= value <= 127 ==> ((old & 0x7F) | ((value << 7) as i16)) as int == (old & 0x7F) as int
        + 128 * value) by (bit_vector);
}

/// Coarse data entry under the registered parameters: RPN 0 (pitch bend sensitivity)
/// sets the semitones of the pitch bend range, RPN 1 (fine tune) the upper seven bits of
/// the fine tune, and RPN 2 (coarse tune) the coarse tune to the value less 64, which is
/// its centre. Each leaves the fields of the other two alone.
pub proof fn law_rpn_coarse_data_entry(c: Channel, value: i32)
    requires
        c.last_data_type == DataType::Rpn,
        0 <= value <= 127,
    ensures
        ({
            let r = spec_data_entry_coarse(c, value);
            &&& c.rpn == 0 ==> r.pitch_bend_range as int == (c.pitch_bend_range & 0x7F) as int + 128
                * value && r.fine_tune == c.fine_tune && r.coarse_tune == c.coarse_tune
            &&& c.rpn == 1 ==> r.fine_tune as int == (c.fine_tune & 0x7F) as int + 128 * value
                && r.coarse_tune == c.coarse_tune && r.pitch_bend_range == c.pitch_bend_range
            &&& c.rpn == 2 ==> r.coarse_tune == value - 64 && r.fine_tune == c.fine_tune
                && r.pitch_bend_range == c.pitch_bend_range
        }),
{
    lemma_with_coarse(c.pitch_bend_range, value);
    lemma_with_coarse(c.fine_tune, value);
}

/// The low seven bits of a 14-bit pair replaced by a data byte: the bits from 128 up
/// stay.
pub proof fn lemma_with_fine(old: i16, value: i32)
    requires
        0 <= old,
        0 <= value <= 127,
    ensures
        spec_with_fine(old, value) as int == old as int - old as int % 128 + value,
{
    assert(0 <= old && 0 <= value <= 127 ==> ((((old as i32) & 0xFF80) | value) as i16) as int
        == old as int - old as int % 128 + value) by (bit_vector);
}

/// Fine data entry under the registered parameters: RPN 0 sets the cents of the pitch
/// bend range and RPN 1 the lower seven bits of the fine tune, each leaving the other
/// field, and the coarse tune, alone; under RPN 2 (coarse tune) it changes nothing.
pub proof fn law_rpn_fine_data_entry(c: Channel, value: i32)
    requires
        c.last_data_type == DataType::Rpn,
        0 <= value <= 127,
    ensures
        ({
            let r = spec_data_entry_fine(c, value);
            &&& c.rpn == 0 && 0 <= c.pitch_bend_range ==> r.pitch_bend_range as int
                == c.pitch_bend_range as int - c.pitch_bend_range as int % 128 + value
                && r.fine_tune == c.fine_tune && r.coarse_tune == c.coarse_tune
            &&& c.rpn == 1 && 0 <= c.fine_tune ==> r.fine_tune as int == c.fine_tune as int
                - c.fine_tune as int % 128 + value && r.pitch_bend_range == c.pitch_bend_range
                && r.coarse_tune == c.coarse_tune
            &&& c.rpn == 2 ==> r == c
        }),
{
    if 0 <= c.pitch_bend_range {
        lemma_with_fine(c.pitch_bend_range, value);
    }
    if 0 <= c.fine_tune {
        lemma_with_fine(c.fine_tune, value);
    }
}

} // verus!
