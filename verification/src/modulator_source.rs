//! Decoding of SF2.04 modulator source operands (section 8.2.1).
//!
//! Bit layout of the wrapped `u16`:
//! - bits 0-6: controller index
//! - bit 7: 0 = general controller palette, 1 = MIDI CC
//! - bit 8: direction, 1 = max-to-min
//! - bit 9: polarity, 1 = bipolar
//! - bits 10-15: curve type (0 linear, 1 concave, 2 convex, 3 switch, 4-63 reserved)

use vstd::prelude::*;

verus! {

/// A modulator source operand, as packed into `SFModulator`.
#[derive(Clone, Copy, Debug, PartialEq, Eq, Structural)]
pub struct ModulatorSource(pub u16);

/// A resolved controller identity for a modulator source.
///
/// `NoController` is the SF2 "no controller" source (general index 0), which is a
/// valid source that always contributes zero; it is distinct from the `Option`
/// returned by `ModulatorSource::controller`, which is `None` for unusable
/// (reserved, linked, or banned) sources.
#[derive(Clone, Copy, Debug, PartialEq, Eq, Structural)]
pub enum Controller {
    NoController,
    Velocity,
    Key,
    PolyPressure,
    ChannelPressure,
    PitchWheel,
    /// RPN 0 (semitones).
    PitchWheelSensitivity,
    Cc(u8),
}

/// Bits 0-6 of a source operand.
pub open spec fn source_index(v: u16) -> u8 {
    (v % 128) as u8
}

/// Bit 7 of a source operand.
pub open spec fn source_is_cc(v: u16) -> bool {
    (v / 128) % 2 == 1
}

/// Bit 8 of a source operand.
pub open spec fn source_direction_max_to_min(v: u16) -> bool {
    (v / 256) % 2 == 1
}

/// Bit 9 of a source operand.
pub open spec fn source_is_bipolar(v: u16) -> bool {
    (v / 512) % 2 == 1
}

/// Bits 10-15 of a source operand.
pub open spec fn source_curve_type(v: u16) -> u8 {
    (v / 1024) as u8
}

/// MIDI controllers the specification forbids as modulator sources: bank select,
/// data entry, their LSBs, the (N)RPN selectors and the channel mode messages.
pub open spec fn spec_is_banned_cc(cc: u8) -> bool {
    cc == 0 || cc == 6 || cc == 32 || cc == 38 || (98 <= cc && cc <= 101) || (120 <= cc
        && cc <= 127)
}

/// The controller a source operand names, `None` for an unusable one.
pub open spec fn spec_controller(v: u16) -> Option<Controller> {
    if source_curve_type(v) > 3 {
        None
    } else if source_is_cc(v) {
        if spec_is_banned_cc(source_index(v)) {
            None
        } else {
            Some(Controller::Cc(source_index(v)))
        }
    } else {
        let i = source_index(v);
        if i == 0 {
            Some(Controller::NoController)
        } else if i == 2 {
            Some(Controller::Velocity)
        } else if i == 3 {
            Some(Controller::Key)
        } else if i == 10 {
            Some(Controller::PolyPressure)
        } else if i == 13 {
            Some(Controller::ChannelPressure)
        } else if i == 14 {
            Some(Controller::PitchWheel)
        } else if i == 16 {
            Some(Controller::PitchWheelSensitivity)
        } else {
            None
        }
    }
}

/// True for the sources whose value is fixed once the note has started.
pub open spec fn spec_is_note_on_only(v: u16) -> bool {
    spec_controller(v) == Some(Controller::NoController) || spec_controller(v) == Some(
        Controller::Velocity,
    ) || spec_controller(v) == Some(Controller::Key)
}

/// Whether a MIDI controller number is banned as a modulator source.
pub fn is_banned_cc(cc: u8) -> (r: bool)
    ensures
        r == spec_is_banned_cc(cc),
{
    cc == 0 || cc == 6 || cc == 32 || cc == 38 || (98 <= cc && cc <= 101) || (120 <= cc && cc
        <= 127)
}

impl ModulatorSource {
    /// The controller index (bits 0-6).
    pub fn index(self) -> (r: u8)
        ensures
            r == source_index(self.0),
            r < 128,
    {
        let v = self.0;
        assert(v & 0x7F == v % 128) by (bit_vector);
        (v & 0x7F) as u8
    }

    /// True when the index names a MIDI controller rather than a general source.
    pub fn is_cc(self) -> (r: bool)
        ensures
            r == source_is_cc(self.0),
    {
        let v = self.0;
        assert((v & 0x80 != 0) == ((v / 128) % 2 == 1)) by (bit_vector);
        v & 0x80 != 0
    }

    /// True when the source runs from maximum to minimum.
    pub fn direction_max_to_min(self) -> (r: bool)
        ensures
            r == source_direction_max_to_min(self.0),
    {
        let v = self.0;
        assert((v & 0x100 != 0) == ((v / 256) % 2 == 1)) by (bit_vector);
        v & 0x100 != 0
    }

    /// True when the source maps to -1..1 rather than 0..1.
    pub fn is_bipolar(self) -> (r: bool)
        ensures
            r == source_is_bipolar(self.0),
    {
        let v = self.0;
        assert((v & 0x200 != 0) == ((v / 512) % 2 == 1)) by (bit_vector);
        v & 0x200 != 0
    }

    /// The curve type (bits 10-15).
    pub fn curve_type(self) -> (r: u8)
        ensures
            r == source_curve_type(self.0),
            r < 64,
    {
        let v = self.0;
        assert((v >> 10) & 0x3F == v / 1024) by (bit_vector);
        assert(v / 1024 < 64) by (bit_vector);
        ((v >> 10) & 0x3F) as u8
    }

    /// Resolves the controller identity, or `None` if the source is unusable:
    /// a reserved general index, a link source (general index 127), a banned
    /// CC, or a reserved curve type.
    pub fn controller(self) -> (r: Option<Controller>)
        ensures
            r == spec_controller(self.0),
    {
        if self.curve_type() > 3 {
            return None;
        }
        if self.is_cc() {
            let cc = self.index();
            if is_banned_cc(cc) {
                None
            } else {
                Some(Controller::Cc(cc))
            }
        } else {
            let i = self.index();
            if i == 0 {
                Some(Controller::NoController)
            } else if i == 2 {
                Some(Controller::Velocity)
            } else if i == 3 {
                Some(Controller::Key)
            } else if i == 10 {
                Some(Controller::PolyPressure)
            } else if i == 13 {
                Some(Controller::ChannelPressure)
            } else if i == 14 {
                Some(Controller::PitchWheel)
            } else if i == 16 {
                Some(Controller::PitchWheelSensitivity)
            } else {
                None
            }
        }
    }

    /// True for sources that are only meaningful at note-on (no per-block value).
    pub fn is_note_on_only(self) -> (r: bool)
        ensures
            r == spec_is_note_on_only(self.0),
    {
        match self.controller() {
            Some(Controller::NoController) | Some(Controller::Velocity) | Some(Controller::Key) => true,
            _ => false,
        }
    }
}

} // verus!
