//! System exclusive messages: GM System On, the Universal Real-Time master volume and
//! tuning, Roland GS parameter changes and Yamaha XG parameter changes, decoded into the
//! change each of them asks for.

use vstd::prelude::*;

use crate::channel::{spec_rx_at, rx_at, Rx, SystemMode};

verus! {

/// The value of a Universal Real-Time parameter sent as a low and a high byte: the high
/// byte shifted by 7 bits, or-ed with the low byte.
pub open spec fn spec_join_14bit(lo: u8, hi: u8) -> u16 {
    ((hi as u16) << 7u16) | (lo as u16)
}

fn join_14bit(lo: u8, hi: u8) -> (r: u16)
    ensures
        r == spec_join_14bit(lo, hi),
{
    ((hi as u16) << 7u16) | (lo as u16)
}


/// What a SysEx message asks for. Messages that are not supported, or too short for what
/// they announce, ask for nothing.
#[derive(Clone, Copy, Debug)]
pub enum SysExMessage {
    Ignored,
    /// GM System On, GS Reset or XG System On: reset the synthesizer into that mode.
    SystemReset(SystemMode),
    /// Master volume as the fraction `level / full_scale`.
    MasterVolume { level: u16, full_scale: u16 },
    /// Master fine tune, in 1/8192 of a semitone (0 for none).
    MasterFineTune(i32),
    /// Master coarse tune (GS Master Key Shift too), in semitones.
    MasterCoarseTune(i32),
    /// GS Reverb Macro 0 to 7.
    ReverbMacro(u8),
    /// GS Reverb Level (64 is the default level).
    ReverbLevel(u8),
    /// GS Chorus Macro 0 to 7.
    ChorusMacro(u8),
    /// A GS Patch Part receive switch of a channel.
    RxSwitch { channel: usize, rx: Rx, on: bool },
    /// GS Pitch Key Shift of a channel, in semitones.
    KeyShift { channel: usize, semitones: i32 },
    /// GS Part Level, the same parameter as Channel Volume.
    PartLevel { channel: usize, value: i32 },
    /// GS Part Panpot, the same parameter as Pan (0, random, is taken as centre).
    PartPanpot { channel: usize, value: i32 },
    /// GS Keyboard Range low end.
    KeyboardRangeLow { channel: usize, value: i32 },
    /// GS Keyboard Range high end.
    KeyboardRangeHigh { channel: usize, value: i32 },
    /// GS Chorus Send Level.
    ChorusSend { channel: usize, value: i32 },
    /// GS Reverb Send Level.
    ReverbSend { channel: usize, value: i32 },
    /// GS Use for Rhythm Part: the channel plays the drum bank or not.
    UseForRhythmPart { channel: usize, on: bool },
    /// GS Scale Tuning: the offset of each of the 12 pitch classes, in cents.
    ScaleTuning { channel: usize, cents: [i32; 12] },
    /// XG Part Mode: the MIDI channel plays the drum bank or not.
    XgPartMode { channel: usize, percussion: bool },
}

/// The channel a message is for, when it is for one channel.
pub open spec fn spec_message_channel(m: SysExMessage) -> Option<usize> {
    match m {
        SysExMessage::RxSwitch { channel, .. } => Some(channel),
        SysExMessage::KeyShift { channel, .. } => Some(channel),
        SysExMessage::PartLevel { channel, .. } => Some(channel),
        SysExMessage::PartPanpot { channel, .. } => Some(channel),
        SysExMessage::KeyboardRangeLow { channel, .. } => Some(channel),
        SysExMessage::KeyboardRangeHigh { channel, .. } => Some(channel),
        SysExMessage::ChorusSend { channel, .. } => Some(channel),
        SysExMessage::ReverbSend { channel, .. } => Some(channel),
        SysExMessage::UseForRhythmPart { channel, .. } => Some(channel),
        SysExMessage::ScaleTuning { channel, .. } => Some(channel),
        SysExMessage::XgPartMode { channel, .. } => Some(channel),
        _ => None,
    }
}

/// A message is for one of the sixteen channels, if it is for a channel at all.
pub open spec fn spec_channel_in_range(m: SysExMessage) -> bool {
    match spec_message_channel(m) {
        Some(channel) => channel < 16,
        None => true,
    }
}

/// The MIDI channel of a GS part: part 0 is channel 10, parts 1 to 9 are channels 1 to 9,
/// and parts 10 to 15 are channels 11 to 16 (channels counted from 0 here).
pub open spec fn spec_gs_part_to_channel(addr_mid: u8) -> int {
    let part = (addr_mid & 0x0F) as int;
    if part == 0 {
        9
    } else if part <= 9 {
        part - 1
    } else {
        part
    }
}

/// The MIDI channel (0 to 15) of a GS part address.
pub fn gs_part_to_channel(addr_mid: u8) -> (r: usize)
    ensures
        r == spec_gs_part_to_channel(addr_mid),
        r < 16,
{
    let part = (addr_mid & 0x0F) as usize;
    assert(part < 16) by (bit_vector)
        requires
            part == (addr_mid & 0x0F) as usize,
    ;
    if part == 0 {
        9
    } else if part <= 9 {
        part - 1
    } else {
        part
    }
}

/// The GS part parameter at `addr_low` with value `vv`, for a part of channel `ch`:
/// receive switches (03h to 12h), key shift, level, panpot, keyboard range and the
/// chorus and reverb sends; none for other addresses.
pub open spec fn spec_gs_part_parameter(ch: int, addr_low: u8, vv: u8) -> Option<SysExMessage> {
    let channel = ch as usize;
    if 0x03 <= addr_low <= 0x12 {
        Some(SysExMessage::RxSwitch { channel, rx: spec_rx_at(addr_low - 0x03), on: vv != 0 })
    } else if addr_low == 0x16 {
        Some(SysExMessage::KeyShift { channel, semitones: (vv - 0x40) as i32 })
    } else if addr_low == 0x19 {
        Some(SysExMessage::PartLevel { channel, value: vv as i32 })
    } else if addr_low == 0x1C {
        Some(SysExMessage::PartPanpot { channel, value: if vv == 0 { 64 } else { vv as i32 } })
    } else if addr_low == 0x1D {
        Some(SysExMessage::KeyboardRangeLow { channel, value: vv as i32 })
    } else if addr_low == 0x1E {
        Some(SysExMessage::KeyboardRangeHigh { channel, value: vv as i32 })
    } else if addr_low == 0x21 {
        Some(SysExMessage::ChorusSend { channel, value: vv as i32 })
    } else if addr_low == 0x22 {
        Some(SysExMessage::ReverbSend { channel, value: vv as i32 })
    } else {
        None
    }
}

/// The 12 scale tuning offsets in cents (each byte minus 64) starting at `p`.
pub open spec fn spec_scale_tuning_cents(cents: [i32; 12], d: Seq<u8>, p: int) -> bool {
    forall|i: int| 0 <= i < 12 ==> cents@[i] == d[p + i] - 64
}

/// `m` is what a GS DT1 payload (address and data, after `41 1n 42 12`) asks for.
pub open spec fn spec_gs_message(d: Seq<u8>, m: SysExMessage) -> bool {
    if d.len() < 3 {
        m is Ignored
    } else {
        let high = d[0];
        let mid = d[1];
        let low = d[2];
        let has_value = d.len() >= 4;
        let vv = d[3];
        if high == 0x40 && mid == 0x00 && low == 0x7F {
            if has_value && vv == 0 {
                m == SysExMessage::SystemReset(SystemMode::Gs)
            } else {
                m is Ignored
            }
        } else if high == 0x40 && mid == 0x00 && low == 0x04 {
            if has_value {
                m == (SysExMessage::MasterVolume { level: vv as u16, full_scale: 127 })
            } else {
                m is Ignored
            }
        } else if high == 0x40 && mid == 0x00 && low == 0x05 {
            if has_value {
                m == SysExMessage::MasterCoarseTune((vv - 64) as i32)
            } else {
                m is Ignored
            }
        } else if high == 0x40 && mid == 0x01 && low == 0x30 {
            if has_value && vv < 8 {
                m == SysExMessage::ReverbMacro(vv)
            } else {
                m is Ignored
            }
        } else if high == 0x40 && mid == 0x01 && low == 0x33 {
            if has_value {
                m == SysExMessage::ReverbLevel(vv)
            } else {
                m is Ignored
            }
        } else if high == 0x40 && mid == 0x01 && low == 0x38 {
            if has_value && vv < 8 {
                m == SysExMessage::ChorusMacro(vv)
            } else {
                m is Ignored
            }
        } else if high == 0x40 && mid & 0xF0 == 0x10 {
            let ch = spec_gs_part_to_channel(mid);
            if has_value && spec_gs_part_parameter(ch, low, vv) is Some {
                m == spec_gs_part_parameter(ch, low, vv)->0
            } else if low == 0x15 {
                if has_value {
                    m == (SysExMessage::UseForRhythmPart { channel: ch as usize, on: vv != 0 })
                } else {
                    m is Ignored
                }
            } else if low == 0x40 && d.len() >= 15 {
                m matches SysExMessage::ScaleTuning { channel, cents } && channel == ch
                    && spec_scale_tuning_cents(cents, d, 3)
            } else {
                m is Ignored
            }
        } else {
            m is Ignored
        }
    }
}

/// `m` is what an XG parameter change payload (after `43 1n 4C`) asks for: XG System On,
/// or the Part Mode of MIDI channels 0 to 15.
pub open spec fn spec_xg_message(d: Seq<u8>, m: SysExMessage) -> bool {
    if d.len() < 4 {
        m is Ignored
    } else if d[0] == 0x00 && d[1] == 0x00 && d[2] == 0x7E {
        if d[3] == 0x00 {
            m == SysExMessage::SystemReset(SystemMode::Xg)
        } else {
            m is Ignored
        }
    } else if d[0] == 0x08 && d[2] == 0x07 && d[1] < 16 {
        m == (SysExMessage::XgPartMode { channel: d[1] as usize, percussion: d[3] != 0 })
    } else {
        m is Ignored
    }
}

/// `m` is what a SysEx message (without its leading F0 and trailing F7) asks for: GM
/// System On (`7E xx 09 01`, `02` or `03`), the Universal Real-Time master volume, fine
/// tune and coarse tune (`7F xx 04 01`, `03`, `04`), or a GS or XG message for device IDs
/// 10h to 1Fh.
pub open spec fn spec_sysex_message(d: Seq<u8>, m: SysExMessage) -> bool {
    if d.len() < 3 {
        m is Ignored
    } else if d[0] == 0x7E {
        if d[1] <= 0x7F && d[2] == 0x09 && d.len() >= 4 && (d[3] == 0x01 || d[3] == 0x02 || d[3]
            == 0x03) {
            m == SysExMessage::SystemReset(SystemMode::Gm)
        } else {
            m is Ignored
        }
    } else if d[0] == 0x7F {
        if d[2] == 0x04 && d.len() >= 6 && d[3] == 0x01 {
            m == (SysExMessage::MasterVolume {
                level: spec_join_14bit(d[4], d[5]),
                full_scale: 16383,
            })
        } else if d[2] == 0x04 && d.len() >= 6 && d[3] == 0x03 {
            m == SysExMessage::MasterFineTune((spec_join_14bit(d[4], d[5]) - 0x2000) as i32)
        } else if d[2] == 0x04 && d.len() >= 6 && d[3] == 0x04 {
            m == SysExMessage::MasterCoarseTune((d[5] - 64) as i32)
        } else {
            m is Ignored
        }
    } else if d[0] == 0x41 {
        if d.len() >= 5 && d[1] & 0xF0 == 0x10 && d[2] == 0x42 && d[3] == 0x12 {
            spec_gs_message(d.subrange(4, d.len() as int), m)
        } else {
            m is Ignored
        }
    } else if d[0] == 0x43 {
        if d.len() >= 4 && d[1] & 0xF0 == 0x10 && d[2] == 0x4C {
            spec_xg_message(d.subrange(3, d.len() as int), m)
        } else {
            m is Ignored
        }
    } else {
        m is Ignored
    }
}

/// Decodes a GS part parameter.
fn gs_part_parameter(channel: usize, addr_low: u8, vv: u8) -> (r: Option<SysExMessage>)
    requires
        channel < 16,
    ensures
        r == spec_gs_part_parameter(channel as int, addr_low, vv),
        r matches Some(m) ==> spec_message_channel(m) == Some(channel),
{
    if 0x03 <= addr_low && addr_low <= 0x12 {
        Some(SysExMessage::RxSwitch { channel, rx: rx_at(addr_low - 0x03), on: vv != 0 })
    } else if addr_low == 0x16 {
        Some(SysExMessage::KeyShift { channel, semitones: vv as i32 - 0x40 })
    } else if addr_low == 0x19 {
        Some(SysExMessage::PartLevel { channel, value: vv as i32 })
    } else if addr_low == 0x1C {
        Some(SysExMessage::PartPanpot { channel, value: if vv == 0 { 64 } else { vv as i32 } })
    } else if addr_low == 0x1D {
        Some(SysExMessage::KeyboardRangeLow { channel, value: vv as i32 })
    } else if addr_low == 0x1E {
        Some(SysExMessage::KeyboardRangeHigh { channel, value: vv as i32 })
    } else if addr_low == 0x21 {
        Some(SysExMessage::ChorusSend { channel, value: vv as i32 })
    } else if addr_low == 0x22 {
        Some(SysExMessage::ReverbSend { channel, value: vv as i32 })
    } else {
        None
    }
}

/// Decodes a GS DT1 payload: address and data, after the `41 1n 42 12` header.
pub fn decode_gs_sysex(d: &[u8]) -> (r: SysExMessage)
    ensures
        spec_gs_message(d@, r),
        spec_channel_in_range(r),
{
    if d.len() < 3 {
        return SysExMessage::Ignored;
    }
    let high = d[0];
    let mid = d[1];
    let low = d[2];
    let has_value = d.len() >= 4;
    let vv = if has_value {
        d[3]
    } else {
        0
    };
    if high == 0x40 && mid == 0x00 && low == 0x7F {
        if has_value && vv == 0 {
            return SysExMessage::SystemReset(SystemMode::Gs);
        }
        return SysExMessage::Ignored;
    }
    if high == 0x40 && mid == 0x00 && low == 0x04 {
        if has_value {
            return SysExMessage::MasterVolume { level: vv as u16, full_scale: 127 };
        }
        return SysExMessage::Ignored;
    }
    if high == 0x40 && mid == 0x00 && low == 0x05 {
        if has_value {
            return SysExMessage::MasterCoarseTune(vv as i32 - 64);
        }
        return SysExMessage::Ignored;
    }
    if high == 0x40 && mid == 0x01 && low == 0x30 {
        if has_value && vv < 8 {
            return SysExMessage::ReverbMacro(vv);
        }
        return SysExMessage::Ignored;
    }
    if high == 0x40 && mid == 0x01 && low == 0x33 {
        if has_value {
            return SysExMessage::ReverbLevel(vv);
        }
        return SysExMessage::Ignored;
    }
    if high == 0x40 && mid == 0x01 && low == 0x38 {
        if has_value && vv < 8 {
            return SysExMessage::ChorusMacro(vv);
        }
        return SysExMessage::Ignored;
    }
    if high == 0x40 && (mid & 0xF0) == 0x10 {
        let channel = gs_part_to_channel(mid);
        if has_value {
            match gs_part_parameter(channel, low, vv) {
                Some(m) => return m,
                None => {},
            }
        }
        if low == 0x15 {
            if has_value {
                return SysExMessage::UseForRhythmPart { channel, on: vv != 0 };
            }
            return SysExMessage::Ignored;
        }
        if low == 0x40 && d.len() >= 15 {
            let mut cents = [0i32; 12];
            let mut i: usize = 0;
            while i < 12
                invariant
                    i <= 12,
                    d@.len() >= 15,
                    forall|k: int| 0 <= k < i ==> cents@[k] == d@[3 + k] - 64,
                decreases 12 - i,
            {
                cents[i] = d[3 + i] as i32 - 64;
                i += 1;
            }
            return SysExMessage::ScaleTuning { channel, cents };
        }
        return SysExMessage::Ignored;
    }
    SysExMessage::Ignored
}

/// Decodes an XG parameter change payload: address and data, after the `43 1n 4C`
/// header.
pub fn decode_xg_sysex(d: &[u8]) -> (r: SysExMessage)
    ensures
        spec_xg_message(d@, r),
        spec_channel_in_range(r),
{
    if d.len() < 4 {
        return SysExMessage::Ignored;
    }
    if d[0] == 0x00 && d[1] == 0x00 && d[2] == 0x7E {
        if d[3] == 0x00 {
            return SysExMessage::SystemReset(SystemMode::Xg);
        }
        return SysExMessage::Ignored;
    }
    if d[0] == 0x08 && d[2] == 0x07 && d[1] < 16 {
        return SysExMessage::XgPartMode { channel: d[1] as usize, percussion: d[3] != 0 };
    }
    SysExMessage::Ignored
}

/// Decodes a SysEx message, without its leading F0 and trailing F7.
pub fn decode_sysex(d: &[u8]) -> (r: SysExMessage)
    ensures
        spec_sysex_message(d@, r),
        spec_channel_in_range(r),
{
    if d.len() < 3 {
        return SysExMessage::Ignored;
    }
    if d[0] == 0x7E {
        if d[1] <= 0x7F && d[2] == 0x09 && d.len() >= 4 && (d[3] == 0x01 || d[3] == 0x02 || d[3]
            == 0x03) {
            return SysExMessage::SystemReset(SystemMode::Gm);
        }
        return SysExMessage::Ignored;
    }
    if d[0] == 0x7F {
        if d[2] == 0x04 && d.len() >= 6 && d[3] == 0x01 {
            return SysExMessage::MasterVolume { level: join_14bit(d[4], d[5]), full_scale: 16383 };
        } else if d[2] == 0x04 && d.len() >= 6 && d[3] == 0x03 {
            return SysExMessage::MasterFineTune(join_14bit(d[4], d[5]) as i32 - 0x2000);
        } else if d[2] == 0x04 && d.len() >= 6 && d[3] == 0x04 {
            return SysExMessage::MasterCoarseTune(d[5] as i32 - 64);
        }
        return SysExMessage::Ignored;
    }
    if d[0] == 0x41 {
        if d.len() >= 5 && (d[1] & 0xF0) == 0x10 && d[2] == 0x42 && d[3] == 0x12 {
            let rest = slice_from(d, 4);
            return decode_gs_sysex(rest);
        }
        return SysExMessage::Ignored;
    }
    if d[0] == 0x43 {
        if d.len() >= 4 && (d[1] & 0xF0) == 0x10 && d[2] == 0x4C {
            let rest = slice_from(d, 3);
            return decode_xg_sysex(rest);
        }
        return SysExMessage::Ignored;
    }
    SysExMessage::Ignored
}

/// The bytes of `d` from `start` on.
fn slice_from(d: &[u8], start: usize) -> (r: &[u8])
    requires
        start <= d@.len(),
    ensures
        r@ == d@.subrange(start as int, d@.len() as int),
{
    vstd::slice::slice_subrange(d, start, d.len())
}

/// GS parts name the sixteen MIDI channels once each: part 0 is the drum channel 9,
/// parts 1 to 9 are channels 0 to 8, and parts 10 to 15 are channels 10 to 15. No two
/// parts share a channel.
pub proof fn law_gs_parts_name_each_channel_once(a: u8, b: u8)
    ensures
        0 <= spec_gs_part_to_channel(a) < 16,
        (a & 0x0F) == 0 ==> spec_gs_part_to_channel(a) == 9,
        1 <= (a & 0x0F) <= 9 ==> spec_gs_part_to_channel(a) == (a & 0x0F) - 1,
        10 <= (a & 0x0F) ==> spec_gs_part_to_channel(a) == (a & 0x0F),
        (a & 0x0F) != (b & 0x0F) ==> spec_gs_part_to_channel(a) != spec_gs_part_to_channel(b),
{
    assert((a & 0x0F) < 16) by (bit_vector);
    assert((b & 0x0F) < 16) by (bit_vector);
}

} // verus!
