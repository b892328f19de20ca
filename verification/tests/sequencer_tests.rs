use rustysynth::midifile::{Message, MidiFile};
use rustysynth::sequencer::{SequencerCursor, SequencerStep};
use rustysynth::synthesizer_state::SynthesizerState;

/// A format 0 file with one track, 480 ticks per quarter note; an End of Track event is
/// appended.
fn build_midi_file(track_data: &[u8]) -> Vec<u8> {
    let mut track = track_data.to_vec();
    track.extend_from_slice(&[0x00, 0xFF, 0x2F, 0x00]);
    let mut bytes = Vec::new();
    bytes.extend_from_slice(b"MThd");
    bytes.extend_from_slice(&6_i32.to_be_bytes());
    bytes.extend_from_slice(&0_i16.to_be_bytes());
    bytes.extend_from_slice(&1_i16.to_be_bytes());
    bytes.extend_from_slice(&480_i16.to_be_bytes());
    bytes.extend_from_slice(b"MTrk");
    bytes.extend_from_slice(&(track.len() as i32).to_be_bytes());
    bytes.extend_from_slice(&track);
    bytes
}

fn messages() -> Vec<Message> {
    vec![
        Message::Normal { status: 0x91, data1: 60, data2: 100 },
        Message::LoopStart,
        Message::SysEx { bytes: [0, 1, 2] },
        Message::TempoChange { bytes: [0x07, 0xA1, 0x20] },
        Message::LoopEnd,
        Message::Normal { status: 0x81, data1: 60, data2: 0 },
    ]
}

#[test]
fn cursor_sends_due_messages_in_order() {
    let messages = messages();
    let mut cursor = SequencerCursor::new(false);
    assert_eq!(
        cursor.step(&messages, true),
        SequencerStep::Midi { channel: 1, command: 0x90, data1: 60, data2: 100 }
    );
    assert_eq!(cursor.step(&messages, false), SequencerStep::Wait);
    assert_eq!(cursor.msg_index, 1);
    assert_eq!(cursor.step(&messages, true), SequencerStep::Skip);
    assert_eq!(cursor.step(&messages, true), SequencerStep::SysEx(258));
    assert_eq!(cursor.step(&messages, true), SequencerStep::Skip);
    // Without looping a loop end is skipped.
    assert_eq!(cursor.step(&messages, true), SequencerStep::Skip);
    assert_eq!(
        cursor.step(&messages, true),
        SequencerStep::Midi { channel: 1, command: 0x80, data1: 60, data2: 0 }
    );
    assert!(cursor.end_of_sequence(messages.len()));
    assert_eq!(cursor.step(&messages, true), SequencerStep::End);
}

#[test]
fn looping_cursor_returns_to_the_loop_start() {
    let messages = messages();
    let mut cursor = SequencerCursor::new(true);
    for _ in 0..4 {
        cursor.step(&messages, true);
    }
    assert_eq!(cursor.loop_index, 1);
    assert_eq!(cursor.step(&messages, true), SequencerStep::LoopBack);
    assert_eq!(cursor.msg_index, 2);
    assert_eq!(cursor.step(&messages, true), SequencerStep::SysEx(258));
}

#[test]
fn looping_cursor_restarts_at_the_end_of_the_file() {
    let messages = vec![Message::Normal { status: 0x90, data1: 60, data2: 100 }];
    let mut cursor = SequencerCursor::new(true);
    cursor.step(&messages, true);
    assert_eq!(cursor.step(&messages, true), SequencerStep::Restart);
    assert_eq!(cursor.msg_index, 0);
    assert!(!cursor.end_of_sequence(messages.len()));
}

#[test]
fn gs_scale_tuning_sysex_reaches_synthesizer() {
    // GS DT1: Scale Tuning for part 1 (-> MIDI channel 0), 12 bytes at +10 cents each.
    let mut payload = vec![0x41, 0x10, 0x42, 0x12, 0x40, 0x11, 0x40];
    payload.extend(std::iter::repeat(0x4A_u8).take(12));
    payload.push(0x00); // checksum byte (unchecked by the synthesizer)

    let mut track = vec![0x00, 0xF0, (payload.len() + 1) as u8];
    track.extend_from_slice(&payload);
    track.push(0xF7);

    let midi_file = MidiFile::new(&build_midi_file(&track)).unwrap();
    let mut state = SynthesizerState::new();
    let mut cursor = SequencerCursor::new(false);
    // Every event is at tick 0, so all of them are due in the first block.
    loop {
        match cursor.step(&midi_file.messages, true) {
            SequencerStep::SysEx(index) => {
                state.process_sysex(&midi_file.sysex_data[index]);
            }
            SequencerStep::Midi { channel, command, data1, data2 } => {
                state.process_midi_message(channel, command, data1, data2);
            }
            SequencerStep::End | SequencerStep::Wait => break,
            _ => {}
        }
    }

    let tuning = |channel: usize| state.get_scale_tuning(channel).map(|cents| cents.map(|c| c as f32));
    assert_eq!(tuning(0), Some([10.0_f32; 12]));
    // Unaffected channel keeps the default (untouched) tuning.
    assert_eq!(tuning(1), Some([0.0_f32; 12]));
}
