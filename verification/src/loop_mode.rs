//! How a region's sample loops.

use vstd::prelude::*;

verus! {

/// Specifies how the sample loops during playback.
#[derive(Clone, Copy, Debug, PartialEq, Eq, Structural)]
pub enum LoopMode {
    /// The sample will be played without loop.
    NoLoop,
    /// The sample will continuously loop.
    Continuous,
    /// The sample will loop until the note stops.
    LoopUntilNoteOff,
}

/// The loop mode a sampleModes generator value selects: 1 loops continuously, 3 loops
/// until note-off, and anything else (including the reserved 2) does not loop.
pub open spec fn spec_loop_mode(value: i16) -> LoopMode {
    if value == 1 {
        LoopMode::Continuous
    } else if value == 3 {
        LoopMode::LoopUntilNoteOff
    } else {
        LoopMode::NoLoop
    }
}

/// The loop mode a sampleModes generator value selects.
pub fn loop_mode_from(value: i16) -> (r: LoopMode)
    ensures
        r == spec_loop_mode(value),
{
    if value == 1 {
        LoopMode::Continuous
    } else if value == 3 {
        LoopMode::LoopUntilNoteOff
    } else {
        LoopMode::NoLoop
    }
}

} // verus!
