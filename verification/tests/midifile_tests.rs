use rustysynth::error::MidiFileError;
use rustysynth::midifile::{seconds_between, Message, MidiFile, MidiFileLoopType, Tempo, TimeDivision};

/// Builds a single-track, format 0 file with the given division and track body; an End
/// of Track event is appended.
fn build_midi_file(division: i16, mut track_data: Vec<u8>) -> Vec<u8> {
    track_data.extend_from_slice(&[0x00, 0xFF, 0x2F, 0x00]);
    let mut bytes = Vec::new();
    bytes.extend_from_slice(b"MThd");
    bytes.extend_from_slice(&6_i32.to_be_bytes());
    bytes.extend_from_slice(&0_i16.to_be_bytes());
    bytes.extend_from_slice(&1_i16.to_be_bytes());
    bytes.extend_from_slice(&division.to_be_bytes());
    bytes.extend_from_slice(b"MTrk");
    bytes.extend_from_slice(&(track_data.len() as i32).to_be_bytes());
    bytes.extend_from_slice(&track_data);
    bytes
}

fn parse(division: i16, track_data: Vec<u8>) -> Result<MidiFile, MidiFileError> {
    MidiFile::new(&build_midi_file(division, track_data))
}

fn track_chunk(data: &[u8]) -> Vec<u8> {
    let mut bytes = Vec::new();
    bytes.extend_from_slice(b"MTrk");
    bytes.extend_from_slice(&(data.len() as i32).to_be_bytes());
    bytes.extend_from_slice(data);
    bytes
}

fn two_track_file(first: &[u8], second: &[u8]) -> Vec<u8> {
    let mut bytes = Vec::new();
    bytes.extend_from_slice(b"MThd");
    bytes.extend_from_slice(&6_i32.to_be_bytes());
    bytes.extend_from_slice(&1_i16.to_be_bytes());
    bytes.extend_from_slice(&2_i16.to_be_bytes());
    bytes.extend_from_slice(&480_i16.to_be_bytes());
    bytes.extend_from_slice(&track_chunk(first));
    bytes.extend_from_slice(&track_chunk(second));
    bytes
}

fn is_note_on(message: &Message) -> bool {
    matches!(message, Message::Normal { status: 0x90, .. })
}

#[test]
fn f0_sysex_with_trailing_f7_yields_payload_without_f7() {
    let payload = [0x41, 0x10, 0x42, 0x12, 0x40, 0x00, 0x7F, 0x00, 0x41];
    let mut track = vec![0x00, 0xF0, (payload.len() + 1) as u8];
    track.extend_from_slice(&payload);
    track.push(0xF7);

    let midi_file = parse(480, track).unwrap();

    assert_eq!(midi_file.ticks[0], 0);
    match midi_file.messages[0] {
        Message::SysEx { bytes } => {
            let index = Message::sysex_index(bytes);
            assert_eq!(&midi_file.sysex_data[index][..], &payload[..]);
        },
        _ => panic!("expected a SysEx message"),
    }
}

#[test]
fn split_f0_f7_sysex_is_reassembled() {
    let payload = [0x41, 0x10, 0x42, 0x12, 0x40, 0x00, 0x7F, 0x00, 0x41];
    let (first_part, second_part) = payload.split_at(5);
    let mut track = vec![0x00, 0xF0, first_part.len() as u8];
    track.extend_from_slice(first_part);
    track.push(0x00);
    track.push(0xF7);
    track.push((second_part.len() + 1) as u8);
    track.extend_from_slice(second_part);
    track.push(0xF7);

    let midi_file = parse(480, track).unwrap();

    let sysex_count = midi_file.messages.iter().filter(|m| matches!(m, Message::SysEx { .. })).count();
    assert_eq!(sysex_count, 1);
    match midi_file.messages[0] {
        Message::SysEx { bytes } => {
            let index = Message::sysex_index(bytes);
            assert_eq!(&midi_file.sysex_data[index][..], &payload[..]);
        },
        _ => panic!("expected a SysEx message"),
    }
}

#[test]
fn unterminated_f0_packet_is_emitted_before_the_next_event() {
    let track = vec![0x00, 0xF0, 0x02, 0x7E, 0x7F, 0x05, 0x90, 0x3C, 0x64];
    let midi_file = parse(480, track).unwrap();
    assert!(matches!(midi_file.messages[0], Message::SysEx { .. }));
    assert_eq!(midi_file.ticks[0], 5);
    assert_eq!(midi_file.sysex_data[0], vec![0x7E, 0x7F]);
    assert!(is_note_on(&midi_file.messages[1]));
}

#[test]
fn running_status_is_not_reused_after_sysex() {
    let track = vec![
        0x00, 0x90, 0x3C, 0x64, 0x00, 0xF0, 0x05, 0x7E, 0x7F, 0x09, 0x01, 0xF7, 0x00, 0x3E, 0x64,
    ];
    let midi_file = parse(480, track).unwrap();
    assert_eq!(midi_file.messages.iter().filter(|m| is_note_on(m)).count(), 1);
}

#[test]
fn running_status_is_not_reused_after_a_meta_event() {
    let track = vec![
        0x00, 0x90, 0x3C, 0x64, 0x00, 0xFF, 0x01, 0x02, 0x68, 0x69, 0x00, 0x3E, 0x64,
    ];
    let midi_file = parse(480, track).unwrap();
    assert_eq!(midi_file.messages.iter().filter(|m| is_note_on(m)).count(), 1);
    assert!(!midi_file.messages.iter().any(|m| matches!(m, Message::Normal { status: 0xFF, .. })));
}

#[test]
fn running_status_repeats_the_last_status() {
    let track = vec![0x00, 0x90, 0x3C, 0x64, 0x10, 0x3E, 0x64, 0x00, 0xC1, 0x05, 0x00, 0x06];
    let midi_file = parse(480, track).unwrap();
    assert!(matches!(midi_file.messages[1], Message::Normal { status: 0x90, data1: 0x3E, data2: 0x64 }));
    assert_eq!(midi_file.ticks[1], 0x10);
    assert!(matches!(midi_file.messages[3], Message::Normal { status: 0xC1, data1: 0x06, data2: 0 }));
}

#[test]
fn zero_ticks_per_quarter_note_is_rejected() {
    let track = vec![0x00, 0x90, 0x3C, 0x64];
    assert!(matches!(parse(0, track), Err(MidiFileError::InvalidChunkData(_))));
}

#[test]
fn zero_smpte_ticks_per_frame_is_rejected() {
    let division = i16::from_be_bytes([0xE7, 0x00]);
    let track = vec![0x00, 0x90, 0x3C, 0x64];
    assert!(matches!(parse(division, track), Err(MidiFileError::InvalidChunkData(_))));
}

#[test]
fn smpte_division_keeps_frame_rate_and_parts_out_the_tempo_event() {
    let division = i16::from_be_bytes([0xE7, 0x28]);
    let track = vec![0x00, 0xFF, 0x51, 0x03, 0x07, 0xA1, 0x20, 0x87, 0x68, 0x90, 0x3C, 0x64];
    let midi_file = parse(division, track).unwrap();
    assert_eq!(midi_file.time_division, TimeDivision::Smpte { fps_code: -25, ticks_per_frame: 40 });
    assert_eq!(midi_file.tempo_changes, vec![Tempo { tick: 0, microseconds_per_quarter: 500000 }]);
    assert!(is_note_on(&midi_file.messages[0]));
    assert_eq!(midi_file.ticks[0], 1000);
    assert!(!midi_file.messages.iter().any(|m| matches!(m, Message::TempoChange { .. })));
}

#[test]
fn tempo_changes_leave_the_events_and_time_the_ticks_after_them() {
    // 480 ticks per quarter; a tempo of 250000 us per quarter from tick 480 on.
    let track = vec![
        0x00, 0x90, 0x3C, 0x64, // tick 0
        0x83, 0x60, 0xFF, 0x51, 0x03, 0x03, 0xD0, 0x90, // tick 480: tempo change
        0x83, 0x60, 0x80, 0x3C, 0x00, // tick 960
    ];
    let midi_file = parse(480, track).unwrap();
    assert_eq!(midi_file.ticks, vec![0, 960, 960]);
    assert_eq!(midi_file.tempo_changes, vec![Tempo { tick: 480, microseconds_per_quarter: 250000 }]);
    // Half a second at 120 BPM, then a quarter second at 240 BPM.
    let (n1, d1) = seconds_between(midi_file.time_division, 0, 480, 500000).unwrap();
    let (n2, d2) = seconds_between(midi_file.time_division, 480, 960, 250000).unwrap();
    assert_eq!((n1, d1), (240_000_000, 480_000_000));
    assert_eq!(n1 as f64 / d1 as f64 + n2 as f64 / d2 as f64, 0.75);
}

#[test]
fn header_errors_are_reported() {
    assert!(matches!(MidiFile::new(b"RIFF\0\0\0\x06"), Err(MidiFileError::InvalidChunkType { .. })));
    let mut bytes = build_midi_file(480, Vec::new());
    bytes[9] = 2;
    assert_eq!(MidiFile::new(&bytes).err(), Some(MidiFileError::UnsupportedFormat(2)));
    let mut bytes = build_midi_file(480, Vec::new());
    bytes[7] = 7;
    assert!(matches!(MidiFile::new(&bytes), Err(MidiFileError::InvalidChunkData(_))));
    assert_eq!(MidiFile::new(b"MThd").err(), Some(MidiFileError::UnexpectedEndOfData));
}

#[test]
fn tempo_meta_event_of_wrong_size_is_rejected() {
    let track = vec![0x00, 0xFF, 0x51, 0x02, 0x07, 0xA1];
    assert_eq!(parse(480, track).err(), Some(MidiFileError::InvalidTempoValue));
}

#[test]
fn overlong_delta_time_is_rejected() {
    let track = vec![0x80, 0x80, 0x80, 0x80, 0x00, 0x90, 0x3C, 0x64];
    assert_eq!(parse(480, track).err(), Some(MidiFileError::InvalidVariableLengthValue));
}

#[test]
fn events_after_end_of_track_are_skipped_up_to_the_declared_size() {
    let mut track = vec![0x00, 0x90, 0x3C, 0x64, 0x00, 0xFF, 0x2F, 0x00];
    track.extend_from_slice(&[0x00, 0x90, 0x40, 0x64]);
    let midi_file = parse(480, track).unwrap();
    assert_eq!(midi_file.messages.iter().filter(|m| is_note_on(m)).count(), 1);
}

#[test]
fn tracks_merge_in_tick_order_with_earlier_tracks_first() {
    let first = [0x00, 0x90, 0x3C, 0x64, 0x10, 0x80, 0x3C, 0x00, 0x00, 0xFF, 0x2F, 0x00];
    let second = [0x10, 0x91, 0x40, 0x64, 0x00, 0xFF, 0x2F, 0x00];
    let midi_file = MidiFile::new(&two_track_file(&first, &second)).unwrap();
    assert_eq!(midi_file.ticks, vec![0, 16, 16, 16, 16]);
    assert!(matches!(midi_file.messages[0], Message::Normal { status: 0x90, .. }));
    assert!(matches!(midi_file.messages[1], Message::Normal { status: 0x80, .. }));
    assert!(matches!(midi_file.messages[2], Message::EndOfTrack));
    assert!(matches!(midi_file.messages[3], Message::Normal { status: 0x91, .. }));
    assert!(matches!(midi_file.messages[4], Message::EndOfTrack));
}

#[test]
fn loop_point_is_inserted_into_the_first_track() {
    let track = vec![0x00, 0x90, 0x3C, 0x64, 0x20, 0x80, 0x3C, 0x00];
    let bytes = build_midi_file(480, track);
    let midi_file = MidiFile::new_with_loop_type(&bytes, MidiFileLoopType::LoopPoint(16)).unwrap();
    assert_eq!(midi_file.ticks, vec![0, 16, 32, 32]);
    assert!(matches!(midi_file.messages[1], Message::LoopStart));

    let late = MidiFile::new_with_loop_type(&bytes, MidiFileLoopType::LoopPoint(100)).unwrap();
    assert_eq!(late.ticks, vec![0, 32, 32, 100]);
    assert!(matches!(late.messages[3], Message::LoopStart));
}

#[test]
fn loop_controllers_become_loop_points() {
    let track = vec![0x00, 0xB0, 0x6F, 0x00, 0x00, 0xB0, 0x6E, 0x00];
    let bytes = build_midi_file(480, track);
    let rpg = MidiFile::new_with_loop_type(&bytes, MidiFileLoopType::RpgMaker).unwrap();
    assert!(matches!(rpg.messages[0], Message::LoopStart));
    assert!(matches!(rpg.messages[1], Message::Normal { status: 0xB0, data1: 0x6E, .. }));
    let tim = MidiFile::new_with_loop_type(&bytes, MidiFileLoopType::IncredibleMachine).unwrap();
    assert!(matches!(tim.messages[0], Message::LoopEnd));
    assert!(matches!(tim.messages[1], Message::LoopStart));
    let plain = MidiFile::new(&bytes).unwrap();
    assert!(matches!(plain.messages[0], Message::Normal { .. }));
}

#[test]
fn sysex_index_round_trips() {
    for index in [0_usize, 1, 255, 256, 65535, 65536, 0xFF_FFFF] {
        match Message::sysex(index).unwrap() {
            Message::SysEx { bytes } => assert_eq!(Message::sysex_index(bytes), index),
            _ => panic!("expected a SysEx message"),
        }
    }
    assert!(Message::sysex(0x100_0000).is_err());
}

#[test]
fn tempo_change_keeps_the_low_24_bits() {
    match Message::tempo_change(500000) {
        Message::TempoChange { bytes } => assert_eq!(bytes, [0x07, 0xA1, 0x20]),
        _ => panic!("expected a tempo change"),
    }
    match Message::tempo_change(0x0112_3456) {
        Message::TempoChange { bytes } => assert_eq!(bytes, [0x12, 0x34, 0x56]),
        _ => panic!("expected a tempo change"),
    }
}

#[test]
fn common_messages_follow_the_loop_extension() {
    assert!(matches!(Message::common1(0xC0, 5), Message::Normal { status: 0xC0, data1: 5, data2: 0 }));
    assert!(matches!(Message::common2(0xB3, 116, 0, MidiFileLoopType::FinalFantasy), Message::LoopStart));
    assert!(matches!(Message::common2(0xB3, 117, 0, MidiFileLoopType::FinalFantasy), Message::LoopEnd));
    assert!(matches!(Message::common2(0x93, 116, 0, MidiFileLoopType::FinalFantasy), Message::Normal { .. }));
}

#[test]
fn test_message_size() {
    // Avoid increasing the size of the Message type
    assert_eq!(std::mem::size_of::<Message>(), 4);
}

#[test]
fn smpte_division_uses_fixed_seconds_per_tick_and_ignores_tempo() {
    // -25 fps, 40 ticks/frame => 1000 ticks/sec => 1 ms/tick.
    let division = i16::from_be_bytes([0xE7, 0x28]);

    let track = vec![
        0x00, 0xFF, 0x51, 0x03, 0x07, 0xA1, 0x20, // Tempo meta event (must be ignored)
        0x87, 0x68, 0x90, 0x3C, 0x64, // Note On 1000 ticks later
    ];

    let midi_file = parse(division, track).unwrap();
    // The first event's time: the span from tick 0, at the tempo the file set, which SMPTE
    // time code ignores.
    let tempo = midi_file.tempo_changes[0].microseconds_per_quarter;
    let (numerator, denominator) =
        seconds_between(midi_file.time_division, 0, midi_file.ticks[0], tempo).unwrap();
    assert_eq!(numerator as f64 / denominator as f64, 1.0);
    let (numerator, denominator) =
        seconds_between(midi_file.time_division, 0, midi_file.ticks[0], 123456).unwrap();
    assert_eq!(numerator as f64 / denominator as f64, 1.0);
}
