//! The event cursor of MIDI file playback: which message is next, where the loop starts,
//! and what each due message asks the synthesizer to do. Whether a message is due is a
//! comparison of playback times, made by the caller.

use vstd::prelude::*;

use crate::midifile::{spec_u24, Message};

verus! {

/// What playback must do next.
#[derive(Clone, Copy, Debug, PartialEq, Eq, Structural)]
pub enum SequencerStep {
    /// The next message is not due yet: wait for the next block.
    Wait,
    /// Send a channel message to the synthesizer.
    Midi { channel: i32, command: i32, data1: i32, data2: i32 },
    /// Send the SysEx message stored at this index of the file's SysEx list.
    SysEx(usize),
    /// The message asks for nothing; go on with the next one.
    Skip,
    /// A loop end: playback time goes back to that of the loop start, every note is
    /// released, and the messages after the loop start follow.
    LoopBack,
    /// The end of the file while looping: playback goes back to the loop start and every
    /// note is released; the next block goes on from there.
    Restart,
    /// The end of the file.
    End,
}

/// Where playback of a file stands.
#[derive(Clone, Copy, Debug)]
pub struct SequencerCursor {
    /// The index of the next message.
    pub msg_index: usize,
    /// The index of the last loop start (0 before any).
    pub loop_index: usize,
    /// Whether the file loops.
    pub play_loop: bool,
}

/// The step the message `m` asks for when it is due, and the cursor after it.
pub open spec fn spec_due_step(c: SequencerCursor, m: Message) -> (SequencerCursor, SequencerStep) {
    let next = SequencerCursor { msg_index: (c.msg_index + 1) as usize, ..c };
    match m {
        Message::Normal { status, data1, data2 } => (
            next,
            SequencerStep::Midi {
                channel: (status & 0x0F) as i32,
                command: (status & 0xF0) as i32,
                data1: data1 as i32,
                data2: data2 as i32,
            },
        ),
        Message::SysEx { bytes } => (next, SequencerStep::SysEx(spec_u24(bytes) as usize)),
        Message::LoopStart => if c.play_loop {
            (SequencerCursor { loop_index: c.msg_index, ..next }, SequencerStep::Skip)
        } else {
            (next, SequencerStep::Skip)
        },
        Message::LoopEnd => if c.play_loop {
            (
                SequencerCursor { msg_index: (c.loop_index + 1) as usize, ..c },
                SequencerStep::LoopBack,
            )
        } else {
            (next, SequencerStep::Skip)
        },
        _ => (next, SequencerStep::Skip),
    }
}

/// The step playback takes from `c` over `messages`, `due` telling whether the next
/// message's time has come, and the cursor after it.
pub open spec fn spec_step(c: SequencerCursor, messages: Seq<Message>, due: bool) -> (
    SequencerCursor,
    SequencerStep,
) {
    if c.msg_index < messages.len() {
        if due {
            spec_due_step(c, messages[c.msg_index as int])
        } else {
            (c, SequencerStep::Wait)
        }
    } else if c.play_loop {
        (SequencerCursor { msg_index: c.loop_index, ..c }, SequencerStep::Restart)
    } else {
        (c, SequencerStep::End)
    }
}

impl SequencerCursor {
    /// The cursor is in the file: the loop start is at or before the next message, which
    /// is at most one past the last.
    pub open spec fn wf(&self, len: nat) -> bool {
        self.loop_index <= self.msg_index <= len
    }

    /// The start of a file.
    pub fn new(play_loop: bool) -> (r: SequencerCursor)
        ensures
            r.msg_index == 0,
            r.loop_index == 0,
            r.play_loop == play_loop,
    {
        SequencerCursor { msg_index: 0, loop_index: 0, play_loop }
    }

    /// True when every message has been sent and the file does not loop.
    pub fn end_of_sequence(&self, message_count: usize) -> (r: bool)
        ensures
            r == (self.msg_index == message_count),
    {
        self.msg_index == message_count
    }

    /// Takes one step of playback.
    pub fn step(&mut self, messages: &[Message], due: bool) -> (r: SequencerStep)
        requires
            old(self).wf(messages@.len()),
        ensures
            (*final(self), r) == spec_step(*old(self), messages@, due),
            final(self).wf(messages@.len()),
    {
        if self.msg_index < messages.len() {
            if !due {
                return SequencerStep::Wait;
            }
            let m = messages[self.msg_index];
            match m {
                Message::Normal { status, data1, data2 } => {
                    self.msg_index = self.msg_index + 1;
                    SequencerStep::Midi {
                        channel: (status & 0x0F) as i32,
                        command: (status & 0xF0) as i32,
                        data1: data1 as i32,
                        data2: data2 as i32,
                    }
                },
                Message::SysEx { bytes } => {
                    self.msg_index = self.msg_index + 1;
                    SequencerStep::SysEx(Message::sysex_index(bytes))
                },
                Message::LoopStart => {
                    if self.play_loop {
                        self.loop_index = self.msg_index;
                    }
                    self.msg_index = self.msg_index + 1;
                    SequencerStep::Skip
                },
                Message::LoopEnd => {
                    if self.play_loop {
                        self.msg_index = self.loop_index + 1;
                        SequencerStep::LoopBack
                    } else {
                        self.msg_index = self.msg_index + 1;
                        SequencerStep::Skip
                    }
                },
                _ => {
                    self.msg_index = self.msg_index + 1;
                    SequencerStep::Skip
                },
            }
        } else if self.play_loop {
            self.msg_index = self.loop_index;
            SequencerStep::Restart
        } else {
            SequencerStep::End
        }
    }
}

/// A looping file never ends: every step from a cursor in the file leaves it in the file
/// and never answers `End`.
pub proof fn law_looping_never_ends(c: SequencerCursor, messages: Seq<Message>, due: bool)
    requires
        c.wf(messages.len()),
        c.play_loop,
    ensures
        spec_step(c, messages, due).1 != SequencerStep::End,
        spec_step(c, messages, due).0.play_loop,
{
}

/// Without a loop the cursor only moves forward, one message per step that sends or
/// skips one.
pub proof fn law_without_loop_moves_forward(c: SequencerCursor, messages: Seq<Message>, due: bool)
    requires
        c.wf(messages.len()),
        messages.len() <= usize::MAX,
        !c.play_loop,
    ensures
        spec_step(c, messages, due).0.msg_index == if c.msg_index < messages.len() && due {
            c.msg_index + 1
        } else {
            c.msg_index as int
        },
{
}

} // verus!
