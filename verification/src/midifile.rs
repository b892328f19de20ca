//! Standard MIDI files: the header, the events of each track, the loop extensions and
//! the merge of all tracks into one list ordered by tick.

use vstd::prelude::*;

use crate::binary_reader::{
    spec_four_cc,
    spec_u16_be,
    spec_u32_be,
    spec_variable_length,
    spec_variable_length_from,
    ByteReader,
    ReadError,
};
use crate::error::MidiFileError;
use crate::four_cc::{code, FourCC};

verus! {

/// Specifies the non-standard loop extension for MIDI files.
#[derive(Clone, Copy, Debug, PartialEq, Eq, Structural)]
pub enum MidiFileLoopType {
    /// Specifies the loop start point by a tick value.
    LoopPoint(usize),
    /// The RPG Maker style loop: CC #111 is the loop start point.
    RpgMaker,
    /// The Incredible Machine style loop: CC #110 and #111 are the start and end points.
    IncredibleMachine,
    /// The Final Fantasy style loop: CC #116 and #117 are the start and end points.
    FinalFantasy,
}

/// One event of a MIDI file.
#[derive(Clone, Copy, Debug)]
pub enum Message {
    /// A channel message (or any other message with up to two data bytes).
    Normal { status: u8, data1: u8, data2: u8 },
    /// A tempo change: microseconds per quarter note, as a big-endian 24-bit value.
    TempoChange { bytes: [u8; 3] },
    /// A SysEx event: the big-endian 24-bit index of its payload in the file's SysEx list.
    SysEx { bytes: [u8; 3] },
    LoopStart,
    LoopEnd,
    EndOfTrack,
}

/// A tempo change of a MIDI file: from `tick` on, a quarter note lasts
/// `microseconds_per_quarter`.
#[derive(Clone, Copy, Debug, PartialEq, Eq, Structural)]
pub struct Tempo {
    pub tick: i32,
    pub microseconds_per_quarter: i32,
}

/// The big-endian 24-bit value of three bytes.
pub open spec fn spec_u24(bytes: [u8; 3]) -> int {
    bytes@[0] as int * 65536 + bytes@[1] as int * 256 + bytes@[2] as int
}

/// The three big-endian bytes of the low 24 bits of `v`.
pub open spec fn spec_u24_bytes(bytes: [u8; 3], v: int) -> bool {
    &&& bytes@[0] as int == (v / 65536) % 256
    &&& bytes@[1] as int == (v / 256) % 256
    &&& bytes@[2] as int == v % 256
}

/// A channel message with two data bytes, unless the loop extension reads this control
/// change as a loop point.
pub open spec fn spec_common2(status: u8, data1: u8, data2: u8, loop_type: MidiFileLoopType) -> Message {
    let normal = Message::Normal { status, data1, data2 };
    if status & 0xF0 == 0xB0 {
        match loop_type {
            MidiFileLoopType::RpgMaker => if data1 == 111 {
                Message::LoopStart
            } else {
                normal
            },
            MidiFileLoopType::IncredibleMachine => if data1 == 110 {
                Message::LoopStart
            } else if data1 == 111 {
                Message::LoopEnd
            } else {
                normal
            },
            MidiFileLoopType::FinalFantasy => if data1 == 116 {
                Message::LoopStart
            } else if data1 == 117 {
                Message::LoopEnd
            } else {
                normal
            },
            MidiFileLoopType::LoopPoint(_) => normal,
        }
    } else {
        normal
    }
}

/// The big-endian bytes of the low 24 bits of a 32-bit value.
fn u24_bytes(v: u32) -> (r: [u8; 3])
    ensures
        spec_u24_bytes(r, v as int),
{
    let b0 = ((v >> 16) & 0xFF) as u8;
    let b1 = ((v >> 8) & 0xFF) as u8;
    let b2 = (v & 0xFF) as u8;
    assert(b0 as int == (v / 65536) % 256 && b1 as int == (v / 256) % 256 && b2 as int == v
        % 256) by (bit_vector)
        requires
            b0 == ((v >> 16) & 0xFF) as u8,
            b1 == ((v >> 8) & 0xFF) as u8,
            b2 == (v & 0xFF) as u8,
    ;
    [b0, b1, b2]
}

/// The SysEx event for entry `index` of the file's SysEx list.
pub open spec fn spec_sysex_message(index: int) -> Message {
    Message::SysEx {
        bytes: [((index / 65536) % 256) as u8, ((index / 256) % 256) as u8, (index % 256) as u8],
    }
}

impl Message {
    /// A channel message with one data byte.
    pub fn common1(status: u8, data1: u8) -> (r: Message)
        ensures
            r == (Message::Normal { status, data1, data2: 0 }),
    {
        Message::Normal { status, data1, data2: 0 }
    }

    /// A channel message with two data bytes; under a loop extension, the control
    /// changes that mark loop points become `LoopStart` or `LoopEnd`.
    pub fn common2(status: u8, data1: u8, data2: u8, loop_type: MidiFileLoopType) -> (r: Message)
        ensures
            r == spec_common2(status, data1, data2, loop_type),
    {
        let command = status & 0xF0;
        if command == 0xB0 {
            match loop_type {
                MidiFileLoopType::RpgMaker => {
                    if data1 == 111 {
                        return Message::LoopStart;
                    }
                },
                MidiFileLoopType::IncredibleMachine => {
                    if data1 == 110 {
                        return Message::LoopStart;
                    }
                    if data1 == 111 {
                        return Message::LoopEnd;
                    }
                },
                MidiFileLoopType::FinalFantasy => {
                    if data1 == 116 {
                        return Message::LoopStart;
                    }
                    if data1 == 117 {
                        return Message::LoopEnd;
                    }
                },
                MidiFileLoopType::LoopPoint(_) => {},
            }
        }
        Message::Normal { status, data1, data2 }
    }

    /// A tempo change to `tempo` microseconds per quarter note, truncated to 24 bits.
    pub fn tempo_change(tempo: i32) -> (r: Message)
        ensures
            r is TempoChange && spec_u24_bytes(r->TempoChange_bytes, tempo as u32 as int),
    {
        Message::TempoChange { bytes: u24_bytes(tempo as u32) }
    }

    /// A SysEx event whose payload is entry `index` of the file's SysEx list; the index
    /// must fit in 24 bits.
    pub fn sysex(index: usize) -> (r: Result<Message, MidiFileError>)
        ensures
            index > 0xFF_FFFF ==> r == Err::<Message, MidiFileError>(
                MidiFileError::InvalidChunkData(FourCC { b0: 0x4d, b1: 0x54, b2: 0x72, b3: 0x6b }),
            ),
            index <= 0xFF_FFFF ==> r == Ok::<Message, MidiFileError>(
                spec_sysex_message(index as int),
            ) && spec_u24(r->Ok_0->SysEx_bytes) == index,
    {
        if index > 0xFF_FFFF {
            return Err(
                MidiFileError::InvalidChunkData(FourCC { b0: 0x4d, b1: 0x54, b2: 0x72, b3: 0x6b }),
            );
        }
        let bytes = u24_bytes(index as u32);
        proof {
            lemma_u24_round_trip(bytes, index as int);
            let expected = [
                ((index / 65536) % 256) as u8,
                ((index / 256) % 256) as u8,
                (index % 256) as u8,
            ];
            assert(bytes =~= expected);
        }
        Ok(Message::SysEx { bytes })
    }

    /// The index into the file's SysEx list that a SysEx event carries.
    pub fn sysex_index(bytes: [u8; 3]) -> (r: usize)
        ensures
            r == spec_u24(bytes),
    {
        bytes[0] as usize * 65536 + bytes[1] as usize * 256 + bytes[2] as usize
    }
}

/// Writing a value below 2^24 as three bytes and reading them back gives the value.
proof fn lemma_u24_round_trip(bytes: [u8; 3], v: int)
    requires
        0 <= v <= 0xFF_FFFF,
        spec_u24_bytes(bytes, v),
    ensures
        spec_u24(bytes) == v,
{
    assert(v == (v / 65536) * 65536 + ((v / 256) % 256) * 256 + v % 256) by (nonlinear_arith)
        requires
            0 <= v <= 0xFF_FFFF,
    ;
    assert((v / 65536) % 256 == v / 65536) by (nonlinear_arith)
        requires
            0 <= v <= 0xFF_FFFF,
    ;
}

/// A SysEx event built for an index carries that index back: the two conversions
/// undo each other on every index that fits in 24 bits.
pub proof fn law_sysex_index_round_trip(index: int, bytes: [u8; 3])
    requires
        0 <= index <= 0xFF_FFFF,
        spec_u24_bytes(bytes, index),
    ensures
        spec_u24(bytes) == index,
{
    lemma_u24_round_trip(bytes, index);
}

/// A tempo change carries back the tempo it was built for, when that fits in 24 bits.
pub proof fn law_tempo_round_trip(tempo: i32, bytes: [u8; 3])
    requires
        0 <= tempo <= 0xFF_FFFF,
        spec_u24_bytes(bytes, tempo as u32 as int),
    ensures
        spec_u24(bytes) == tempo,
{
    lemma_u24_round_trip(bytes, tempo as int);
}


/// How tick positions map to elapsed time.
#[derive(Clone, Copy, Debug, PartialEq, Eq, Structural)]
pub enum TimeDivision {
    /// Ticks per quarter note; tempo changes scale elapsed time.
    TicksPerQuarterNote(i32),
    /// SMPTE time code: `fps_code` is the negated frame rate (-29 for 29.97 fps drop
    /// frame), and a tick is a fixed fraction of a frame whatever the tempo.
    Smpte { fps_code: i8, ticks_per_frame: u8 },
}

/// The length in seconds of the ticks from `from_tick` to `to_tick` at a tempo of
/// `microseconds_per_quarter`, as a numerator over a denominator: for ticks per quarter
/// note, the ticks times the tempo over the resolution times a million; for SMPTE time
/// code, which no tempo changes, the ticks over frames per second (2997 hundredths for the drop
/// frame code -29) times ticks per frame. None for a time division without a positive
/// length per tick.
pub open spec fn spec_seconds_between(
    division: TimeDivision,
    from_tick: i32,
    to_tick: i32,
    microseconds_per_quarter: i32,
) -> Option<(int, int)> {
    let ticks = to_tick - from_tick;
    match division {
        TimeDivision::TicksPerQuarterNote(resolution) => if resolution > 0 {
            Some((ticks * microseconds_per_quarter, resolution * 1000000))
        } else {
            None
        },
        TimeDivision::Smpte { fps_code, ticks_per_frame } => if fps_code >= 0 || ticks_per_frame == 0 {
            None
        } else if fps_code == -29 {
            Some((ticks * 100, 2997 * ticks_per_frame))
        } else {
            Some((ticks, -fps_code * ticks_per_frame))
        },
    }
}

/// The length in seconds of the ticks from `from_tick` to `to_tick` at a tempo of
/// `microseconds_per_quarter`, as a numerator over a positive denominator.
pub fn seconds_between(
    division: TimeDivision,
    from_tick: i32,
    to_tick: i32,
    microseconds_per_quarter: i32,
) -> (r: Option<(i64, i64)>)
    ensures
        match spec_seconds_between(division, from_tick, to_tick, microseconds_per_quarter) {
            Some((n, d)) => r matches Some((a, b)) && a == n && b == d && d > 0,
            None => r is None,
        },
{
    let ticks = to_tick as i64 - from_tick as i64;
    match division {
        TimeDivision::TicksPerQuarterNote(resolution) => {
            if resolution > 0 {
                let tempo = microseconds_per_quarter as i64;
                assert(-0xFFFF_FFFF <= ticks <= 0xFFFF_FFFF);
                assert(-0xFFFF_FFFF * 0x8000_0000 <= ticks * tempo <= 0xFFFF_FFFF * 0x8000_0000)
                    by (nonlinear_arith)
                    requires
                        -0xFFFF_FFFF <= ticks <= 0xFFFF_FFFF,
                        -0x8000_0000 <= tempo <= 0x7FFF_FFFF,
                ;
                assert(ticks * tempo == ticks * microseconds_per_quarter);
                Some((ticks * tempo, resolution as i64 * 1000000))
            } else {
                None
            }
        },
        TimeDivision::Smpte { fps_code, ticks_per_frame } => {
            if fps_code >= 0 || ticks_per_frame == 0 {
                None
            } else if fps_code == -29 {
                Some((ticks * 100, 2997 * ticks_per_frame as i64))
            } else {
                let fps = -(fps_code as i64);
                let tpf = ticks_per_frame as i64;
                assert(fps * tpf <= 128 * 255) by (nonlinear_arith)
                    requires
                        0 < fps <= 128,
                        0 < tpf <= 255,
                ;
                assert(fps * tpf > 0) by (nonlinear_arith)
                    requires
                        0 < fps <= 128,
                        0 < tpf <= 255,
                ;
                Some((ticks, fps * tpf))
            }
        },
    }
}

/// The contents of an MThd chunk.
#[derive(Clone, Copy, Debug, PartialEq, Eq, Structural)]
pub struct MidiHeader {
    pub format: i16,
    pub track_count: i32,
    pub time_division: TimeDivision,
}

/// `MThd`
pub open spec fn spec_mthd() -> FourCC {
    code(0x4d, 0x54, 0x68, 0x64)
}

/// `MTrk`
pub open spec fn spec_mtrk() -> FourCC {
    code(0x4d, 0x54, 0x72, 0x6b)
}

/// The error for a variable-length quantity that cannot be read.
pub open spec fn spec_length_error(e: ReadError) -> MidiFileError {
    match e {
        ReadError::EndOfData => MidiFileError::UnexpectedEndOfData,
        ReadError::VariableLengthTooLong => MidiFileError::InvalidVariableLengthValue,
    }
}

/// The MThd chunk at the start of `d`: the header and where the tracks start, or why it
/// cannot be read. Only formats 0 and 1 are supported, and a time division whose ticks
/// per quarter note or ticks per frame is zero is invalid.
pub open spec fn spec_midi_header(d: Seq<u8>) -> Result<(MidiHeader, int), MidiFileError> {
    if d.len() < 4 {
        Err(MidiFileError::UnexpectedEndOfData)
    } else if spec_four_cc(d, 0) != spec_mthd() {
        Err(MidiFileError::InvalidChunkType { expected: spec_mthd(), actual: spec_four_cc(d, 0) })
    } else if d.len() < 8 {
        Err(MidiFileError::UnexpectedEndOfData)
    } else if spec_u32_be(d, 4) as i32 != 6 {
        Err(MidiFileError::InvalidChunkData(spec_mthd()))
    } else if d.len() < 10 {
        Err(MidiFileError::UnexpectedEndOfData)
    } else if !(spec_u16_be(d, 8) as i16 == 0 || spec_u16_be(d, 8) as i16 == 1) {
        Err(MidiFileError::UnsupportedFormat(spec_u16_be(d, 8) as i16))
    } else if d.len() < 14 {
        Err(MidiFileError::UnexpectedEndOfData)
    } else {
        let division = spec_u16_be(d, 12) as i16;
        if division == 0 || (division < 0 && d[13] == 0) {
            Err(MidiFileError::InvalidChunkData(spec_mthd()))
        } else {
            Ok(
                (
                    MidiHeader {
                        format: spec_u16_be(d, 8) as i16,
                        track_count: spec_u16_be(d, 10) as i16 as i32,
                        time_division: if division < 0 {
                            TimeDivision::Smpte { fps_code: d[12] as i8, ticks_per_frame: d[13] }
                        } else {
                            TimeDivision::TicksPerQuarterNote(division as i32)
                        },
                    },
                    14,
                ),
            )
        }
    }
}

/// Reads the MThd chunk.
pub fn read_header(reader: &mut ByteReader) -> (r: Result<MidiHeader, MidiFileError>)
    requires
        old(reader).pos == 0,
    ensures
        final(reader).data == old(reader).data,
        final(reader).pos <= final(reader).data@.len(),
        spec_midi_header(old(reader).data@) == match r {
            Ok(h) => Ok((h, final(reader).pos as int)),
            Err(e) => Err(e),
        },
{
    let chunk_type = match reader.read_four_cc() {
        Ok(v) => v,
        Err(_) => return Err(MidiFileError::UnexpectedEndOfData),
    };
    let mthd = FourCC { b0: 0x4d, b1: 0x54, b2: 0x68, b3: 0x64 };
    if chunk_type != mthd {
        return Err(MidiFileError::InvalidChunkType { expected: mthd, actual: chunk_type });
    }
    let size = match reader.read_i32_big_endian() {
        Ok(v) => v,
        Err(_) => return Err(MidiFileError::UnexpectedEndOfData),
    };
    if size != 6 {
        return Err(MidiFileError::InvalidChunkData(mthd));
    }
    let format = match reader.read_i16_big_endian() {
        Ok(v) => v,
        Err(_) => return Err(MidiFileError::UnexpectedEndOfData),
    };
    if !(format == 0 || format == 1) {
        return Err(MidiFileError::UnsupportedFormat(format));
    }
    if reader.bytes_left() < 4 {
        return Err(MidiFileError::UnexpectedEndOfData);
    }
    let track_count = reader.read_i16_big_endian().unwrap() as i32;
    let division = reader.read_i16_big_endian().unwrap();
    let low = reader.data[13];
    let high = reader.data[12];
    assert(division == spec_u16_be(reader.data@, 12) as i16);
    if division == 0 || (division < 0 && low == 0) {
        return Err(MidiFileError::InvalidChunkData(mthd));
    }
    let time_division = if division < 0 {
        TimeDivision::Smpte { fps_code: high as i8, ticks_per_frame: low }
    } else {
        TimeDivision::TicksPerQuarterNote(division as i32)
    };
    Ok(MidiHeader { format, track_count, time_division })
}

/// The events read from a track so far, and the SysEx payloads of the whole file.
pub struct TrackOut {
    pub messages: Seq<Message>,
    pub ticks: Seq<i32>,
    pub sysex: Seq<Seq<u8>>,
}

/// `o` with message `m` at `tick` appended.
pub open spec fn spec_push(o: TrackOut, m: Message, tick: i32) -> TrackOut {
    TrackOut { messages: o.messages.push(m), ticks: o.ticks.push(tick), sysex: o.sysex }
}

/// `o` with a SysEx event for `payload` at `tick` appended, its payload stored at the end
/// of the SysEx list; there can be at most 2^24 of them.
pub open spec fn spec_emit(o: TrackOut, tick: i32, payload: Seq<u8>) -> Result<
    TrackOut,
    MidiFileError,
> {
    if o.sysex.len() > 0xFF_FFFF {
        Err(MidiFileError::InvalidChunkData(spec_mtrk()))
    } else {
        Ok(
            TrackOut {
                messages: o.messages.push(spec_sysex_message(o.sysex.len() as int)),
                ticks: o.ticks.push(tick),
                sysex: o.sysex.push(payload),
            },
        )
    }
}

/// A variable-length size at `q` and that many bytes after it: the bytes and where they
/// end.
pub open spec fn spec_sized_data(d: Seq<u8>, q: int) -> Result<(Seq<u8>, int), MidiFileError> {
    match spec_variable_length(d, q) {
        Err(e) => Err(spec_length_error(e)),
        Ok((n, q1)) => if d.len() < q1 + n {
            Err(MidiFileError::UnexpectedEndOfData)
        } else {
            Ok((d.subrange(q1, q1 + n), q1 + n))
        },
    }
}

/// A variable-length quantity that can be read ends after its start, within the data,
/// and is below 2^28.
pub proof fn lemma_variable_length_advances(d: Seq<u8>, p: int, acc: int, count: int)
    requires
        0 <= acc,
        spec_variable_length_from(d, p, acc, count) is Ok,
    ensures
        p < spec_variable_length_from(d, p, acc, count)->Ok_0.1 <= d.len(),
        0 <= spec_variable_length_from(d, p, acc, count)->Ok_0.0,
    decreases 4 - count,
{
    if 0 <= p < d.len() && 0 <= count < 4 && d[p] >= 128 && count + 1 != 4 {
        lemma_variable_length_advances(d, p + 1, acc * 128 + d[p] % 128, count + 1);
    }
}

/// The outcome of reading one event of a track: a failure, the end of the track (its
/// events and where it ends), or the state to read the next event in (position, tick,
/// running status, waiting F0 packet and events).
pub enum TrackStep {
    Fail(MidiFileError),
    Done(TrackOut, int),
    Next(int, i32, u8, Option<Seq<u8>>, TrackOut),
}


/// Data bytes without a status byte: a channel message under the running status (one
/// data byte for program change and channel pressure, two otherwise).
pub open spec fn spec_running_step(
    d: Seq<u8>,
    lt: MidiFileLoopType,
    q: int,
    t: i32,
    last_status: u8,
    first: u8,
    pend: Option<Seq<u8>>,
    o: TrackOut,
) -> TrackStep {
    let command = last_status & 0xF0;
    if command == 0xC0 || command == 0xD0 {
        TrackStep::Next(
            q,
            t,
            last_status,
            pend,
            spec_push(o, Message::Normal { status: last_status, data1: first, data2: 0 }, t),
        )
    } else if q >= d.len() {
        TrackStep::Fail(MidiFileError::UnexpectedEndOfData)
    } else {
        TrackStep::Next(
            q + 1,
            t,
            last_status,
            pend,
            spec_push(o, spec_common2(last_status, first, d[q], lt), t),
        )
    }
}

/// A SysEx packet: F0 starts one, which a trailing F7 completes; otherwise it waits for
/// F7 packets to continue it. An F7 packet with nothing waiting is discarded. Either
/// cancels the running status.
pub open spec fn spec_sysex_step(
    d: Seq<u8>,
    q: int,
    t: i32,
    first: u8,
    pend: Option<Seq<u8>>,
    o: TrackOut,
) -> TrackStep {
    match spec_sized_data(d, q) {
        Err(e) => TrackStep::Fail(e),
        Ok((data, q3)) => {
            let joined = if first == 0xF0 {
                Some(data)
            } else {
                match pend {
                    Some(payload) => Some(payload + data),
                    None => None,
                }
            };
            match joined {
                Some(j) => if j.len() > 0 && j.last() == 0xF7 {
                    match spec_emit(o, t, j.drop_last()) {
                        Err(e) => TrackStep::Fail(e),
                        Ok(o2) => TrackStep::Next(q3, t, 0, None, o2),
                    }
                } else {
                    TrackStep::Next(q3, t, 0, Some(j), o)
                },
                None => TrackStep::Next(q3, t, 0, None, o),
            }
        },
    }
}

/// A meta event: End of Track ends the track (skipping to its declared size if that is
/// further), a tempo event gives a tempo change, and the others are skipped. Each
/// cancels the running status.
pub open spec fn spec_meta_step(
    d: Seq<u8>,
    b: int,
    size: int,
    q: int,
    t: i32,
    pend: Option<Seq<u8>>,
    o: TrackOut,
) -> TrackStep {
    if q >= d.len() {
        TrackStep::Fail(MidiFileError::UnexpectedEndOfData)
    } else {
        let kind = d[q];
        let q3 = q + 1;
        if kind == 0x2F {
            if q3 >= d.len() {
                TrackStep::Fail(MidiFileError::UnexpectedEndOfData)
            } else {
                let q4 = q3 + 1;
                let o2 = spec_push(o, Message::EndOfTrack, t);
                if size < 0 || q4 - b < size {
                    if size < 0 || d.len() < b + size {
                        TrackStep::Fail(MidiFileError::UnexpectedEndOfData)
                    } else {
                        TrackStep::Done(o2, b + size)
                    }
                } else {
                    TrackStep::Done(o2, q4)
                }
            }
        } else if kind == 0x51 {
            match spec_variable_length(d, q3) {
                Err(e) => TrackStep::Fail(spec_length_error(e)),
                Ok((n, q4)) => if n != 3 {
                    TrackStep::Fail(MidiFileError::InvalidTempoValue)
                } else if d.len() < q4 + 3 {
                    TrackStep::Fail(MidiFileError::UnexpectedEndOfData)
                } else {
                    TrackStep::Next(
                        q4 + 3,
                        t,
                        0,
                        pend,
                        spec_push(o, Message::TempoChange { bytes: [d[q4], d[q4 + 1], d[q4 + 2]] }, t),
                    )
                },
            }
        } else {
            match spec_sized_data(d, q3) {
                Err(e) => TrackStep::Fail(e),
                Ok((data, q4)) => TrackStep::Next(q4, t, 0, pend, o),
            }
        }
    }
}

/// A status byte and its data bytes (one for program change and channel pressure, two
/// otherwise); it becomes the running status.
pub open spec fn spec_status_step(
    d: Seq<u8>,
    lt: MidiFileLoopType,
    q: int,
    t: i32,
    first: u8,
    pend: Option<Seq<u8>>,
    o: TrackOut,
) -> TrackStep {
    let command = first & 0xF0;
    if q >= d.len() {
        TrackStep::Fail(MidiFileError::UnexpectedEndOfData)
    } else if command == 0xC0 || command == 0xD0 {
        TrackStep::Next(
            q + 1,
            t,
            first,
            pend,
            spec_push(o, Message::Normal { status: first, data1: d[q], data2: 0 }, t),
        )
    } else if q + 1 >= d.len() {
        TrackStep::Fail(MidiFileError::UnexpectedEndOfData)
    } else {
        TrackStep::Next(
            q + 2,
            t,
            first,
            pend,
            spec_push(o, spec_common2(first, d[q], d[q + 1], lt), t),
        )
    }
}

/// The event after its delta time and first byte, at tick `t`, with any F0 packet left
/// waiting by an event other than F7 already emitted.
pub open spec fn spec_event_step(
    d: Seq<u8>,
    b: int,
    size: int,
    lt: MidiFileLoopType,
    q: int,
    t: i32,
    last_status: u8,
    first: u8,
    pend: Option<Seq<u8>>,
    o: TrackOut,
) -> TrackStep {
    if first < 128 {
        spec_running_step(d, lt, q, t, last_status, first, pend, o)
    } else if first == 0xF0 || first == 0xF7 {
        spec_sysex_step(d, q, t, first, pend, o)
    } else if first == 0xFF {
        spec_meta_step(d, b, size, q, t, pend, o)
    } else {
        spec_status_step(d, lt, q, t, first, pend, o)
    }
}

/// One event of a track, read from `q`: the delta time, the first byte and the rest.
/// An F0 packet still waiting is emitted as it is before any event but an F7
/// continuation. `b` is where the track's data starts and `size` its declared size.
#[verifier::opaque]
pub open spec fn spec_track_step(
    d: Seq<u8>,
    b: int,
    size: int,
    lt: MidiFileLoopType,
    q: int,
    tick: i32,
    last_status: u8,
    pending: Option<Seq<u8>>,
    o: TrackOut,
) -> TrackStep {
    match spec_variable_length(d, q) {
        Err(e) => TrackStep::Fail(spec_length_error(e)),
        Ok((delta, q1)) => if q1 >= d.len() {
            TrackStep::Fail(MidiFileError::UnexpectedEndOfData)
        } else if tick + delta > i32::MAX {
            TrackStep::Fail(MidiFileError::InvalidChunkData(spec_mtrk()))
        } else {
            let first = d[q1];
            let t = (tick + delta) as i32;
            if first != 0xF7 && pending is Some {
                match spec_emit(o, t, pending->0) {
                    Err(e) => TrackStep::Fail(e),
                    Ok(o1) => spec_event_step(d, b, size, lt, q1 + 1, t, last_status, first, None, o1),
                }
            } else {
                spec_event_step(d, b, size, lt, q1 + 1, t, last_status, first, pending, o)
            }
        },
    }
}

/// The events of a track read from `q` to its End of Track event, and where the track
/// ends.
pub open spec fn spec_track_events(
    d: Seq<u8>,
    b: int,
    size: int,
    lt: MidiFileLoopType,
    q: int,
    tick: i32,
    last_status: u8,
    pending: Option<Seq<u8>>,
    o: TrackOut,
) -> Result<(TrackOut, int), MidiFileError>
    decreases d.len() - q,
{
    match spec_track_step(d, b, size, lt, q, tick, last_status, pending, o) {
        TrackStep::Fail(e) => Err(e),
        TrackStep::Done(o2, end) => Ok((o2, end)),
        TrackStep::Next(q2, t2, ls2, p2, o2) => if q2 <= q || q2 > d.len() {
            Err(MidiFileError::UnexpectedEndOfData)
        } else {
            spec_track_events(d, b, size, lt, q2, t2, ls2, p2, o2)
        },
    }
}
/// The state of reading one track: its events so far, the current tick, the running
/// status and an F0 packet waiting for its F7 continuation.
pub struct TrackState {
    pub messages: Vec<Message>,
    pub ticks: Vec<i32>,
    pub tick: i32,
    pub last_status: u8,
    pub pending: Option<Vec<u8>>,
}

/// The contents of each SysEx payload.
pub open spec fn spec_payloads(v: Seq<Vec<u8>>) -> Seq<Seq<u8>> {
    v.map_values(|x: Vec<u8>| x@)
}

/// The events of a track state, with the SysEx payloads of the file.
pub open spec fn spec_out(st: TrackState, sysex: Seq<Vec<u8>>) -> TrackOut {
    TrackOut { messages: st.messages@, ticks: st.ticks@, sysex: spec_payloads(sysex) }
}

/// The contents of a waiting F0 packet.
pub open spec fn spec_pending(p: Option<Vec<u8>>) -> Option<Seq<u8>> {
    match p {
        Some(v) => Some(v@),
        None => None,
    }
}

/// What remains of reading a track from the reader's position in state `st`.
pub open spec fn spec_rest_of_track(
    d: Seq<u8>,
    b: int,
    size: int,
    lt: MidiFileLoopType,
    q: int,
    st: TrackState,
    sysex: Seq<Vec<u8>>,
) -> Result<(TrackOut, int), MidiFileError> {
    spec_track_events(
        d,
        b,
        size,
        lt,
        q,
        st.tick,
        st.last_status,
        spec_pending(st.pending),
        spec_out(st, sysex),
    )
}

/// Reads a variable-length quantity.
fn read_length(reader: &mut ByteReader) -> (r: Result<i32, MidiFileError>)
    requires
        old(reader).pos <= old(reader).data@.len(),
    ensures
        final(reader).data == old(reader).data,
        final(reader).pos <= final(reader).data@.len(),
        match spec_variable_length(old(reader).data@, old(reader).pos as int) {
            Ok((v, p)) => r == Ok::<i32, MidiFileError>(v as i32) && final(reader).pos == p && 0
                <= v < 0x10000000,
            Err(e) => r == Err::<i32, MidiFileError>(spec_length_error(e)),
        },
{
    match reader.read_i32_variable_length() {
        Ok(v) => Ok(v),
        Err(ReadError::EndOfData) => Err(MidiFileError::UnexpectedEndOfData),
        Err(ReadError::VariableLengthTooLong) => Err(MidiFileError::InvalidVariableLengthValue),
    }
}

/// Reads a variable-length size and that many bytes.
fn read_sized_data(reader: &mut ByteReader) -> (r: Result<Vec<u8>, MidiFileError>)
    requires
        old(reader).pos <= old(reader).data@.len(),
    ensures
        final(reader).data == old(reader).data,
        final(reader).pos <= final(reader).data@.len(),
        spec_sized_data(old(reader).data@, old(reader).pos as int) == match r {
            Ok(v) => Ok((v@, final(reader).pos as int)),
            Err(e) => Err(e),
        },
        r is Ok ==> final(reader).pos > old(reader).pos,
{
    let ghost p0 = reader.pos as int;
    let size = read_length(reader)?;
    proof {
        lemma_variable_length_advances(reader.data@, p0, 0, 0);
    }
    match reader.read_bytes(size as usize) {
        Ok(v) => Ok(v),
        Err(_) => Err(MidiFileError::UnexpectedEndOfData),
    }
}

/// Appends a SysEx event for `payload` at `tick`, storing the payload at the end of the
/// file's SysEx list.
fn emit_sysex(
    sysex: &mut Vec<Vec<u8>>,
    messages: &mut Vec<Message>,
    ticks: &mut Vec<i32>,
    tick: i32,
    payload: Vec<u8>,
) -> (r: Result<(), MidiFileError>)
    ensures
        spec_emit(
            TrackOut { messages: old(messages)@, ticks: old(ticks)@, sysex: spec_payloads(old(sysex)@) },
            tick,
            payload@,
        ) == match r {
            Ok(_) => Ok(
                TrackOut {
                    messages: final(messages)@,
                    ticks: final(ticks)@,
                    sysex: spec_payloads(final(sysex)@),
                },
            ),
            Err(e) => Err(e),
        },
        r is Ok ==> final(messages)@.len() == old(messages)@.len() + 1 && final(ticks)@.len()
            == old(ticks)@.len() + 1,
        r is Err ==> final(messages)@ == old(messages)@ && final(ticks)@ == old(ticks)@,
{
    let index = sysex.len();
    let message = Message::sysex(index)?;
    let ghost p = payload@;
    sysex.push(payload);
    messages.push(message);
    ticks.push(tick);
    assert(spec_payloads(sysex@) =~= spec_payloads(old(sysex)@).push(p));
    Ok(())
}


/// Three bytes read as a big-endian 24-bit value give those bytes back.
proof fn lemma_u24_of_bytes(b1: u8, b2: u8, b3: u8)
    ensures
        ({
            let v = b1 as int * 65536 + b2 as int * 256 + b3 as int;
            &&& (v / 65536) % 256 == b1 as int
            &&& (v / 256) % 256 == b2 as int
            &&& v % 256 == b3 as int
        }),
{
    let v = b1 as int * 65536 + b2 as int * 256 + b3 as int;
    assert(v / 65536 == b1 as int && (v / 256) == b1 as int * 256 + b2 as int && v % 256
        == b3 as int) by (nonlinear_arith)
        requires
            v == b1 as int * 65536 + b2 as int * 256 + b3 as int,
            0 <= b1 < 256,
            0 <= b2 < 256,
            0 <= b3 < 256,
    ;
    assert((b1 as int * 256 + b2 as int) % 256 == b2 as int) by (nonlinear_arith)
        requires
            0 <= b1 < 256,
            0 <= b2 < 256,
    ;
}

/// The step that a reading result stands for, the reader being at `pos` in state `st`.
pub open spec fn spec_step_result(
    r: Result<Option<usize>, MidiFileError>,
    pos: int,
    st: TrackState,
    sysex: Seq<Vec<u8>>,
) -> TrackStep {
    match r {
        Err(e) => TrackStep::Fail(e),
        Ok(None) => TrackStep::Next(
            pos,
            st.tick,
            st.last_status,
            spec_pending(st.pending),
            spec_out(st, sysex),
        ),
        Ok(Some(end)) => TrackStep::Done(spec_out(st, sysex), end as int),
    }
}

/// Reads the data bytes of a channel message under the running status.
fn read_running(
    reader: &mut ByteReader,
    lt: MidiFileLoopType,
    first: u8,
    st: &mut TrackState,
    sysex: &Vec<Vec<u8>>,
) -> (r: Result<Option<usize>, MidiFileError>)
    requires
        old(st).messages@.len() == old(st).ticks@.len(),
        old(reader).pos <= old(reader).data@.len(),
    ensures
        final(st).messages@.len() == final(st).ticks@.len(),
        final(reader).data == old(reader).data,
        old(reader).pos <= final(reader).pos <= final(reader).data@.len(),
        r is Ok ==> r->Ok_0 is None,
        spec_step_result(r, final(reader).pos as int, *final(st), sysex@) == spec_running_step(
            old(reader).data@,
            lt,
            old(reader).pos as int,
            old(st).tick,
            old(st).last_status,
            first,
            spec_pending(old(st).pending),
            spec_out(*old(st), sysex@),
        ),
{
    let t = st.tick;
    let command = st.last_status & 0xF0;
    if command == 0xC0 || command == 0xD0 {
        st.messages.push(Message::common1(st.last_status, first));
        st.ticks.push(t);
    } else {
        if reader.bytes_left() == 0 {
            return Err(MidiFileError::UnexpectedEndOfData);
        }
        let data2 = reader.read_u8().unwrap();
        st.messages.push(Message::common2(st.last_status, first, data2, lt));
        st.ticks.push(t);
    }
    Ok(None)
}

/// Reads the data bytes of a channel message after its status byte.
fn read_status(
    reader: &mut ByteReader,
    lt: MidiFileLoopType,
    first: u8,
    st: &mut TrackState,
    sysex: &Vec<Vec<u8>>,
) -> (r: Result<Option<usize>, MidiFileError>)
    requires
        old(st).messages@.len() == old(st).ticks@.len(),
        old(reader).pos <= old(reader).data@.len(),
    ensures
        final(st).messages@.len() == final(st).ticks@.len(),
        final(reader).data == old(reader).data,
        old(reader).pos <= final(reader).pos <= final(reader).data@.len(),
        r is Ok ==> r->Ok_0 is None,
        spec_step_result(r, final(reader).pos as int, *final(st), sysex@) == spec_status_step(
            old(reader).data@,
            lt,
            old(reader).pos as int,
            old(st).tick,
            first,
            spec_pending(old(st).pending),
            spec_out(*old(st), sysex@),
        ),
{
    let t = st.tick;
    let command = first & 0xF0;
    if reader.bytes_left() == 0 {
        return Err(MidiFileError::UnexpectedEndOfData);
    }
    let data1 = reader.read_u8().unwrap();
    if command == 0xC0 || command == 0xD0 {
        st.messages.push(Message::common1(first, data1));
        st.ticks.push(t);
    } else {
        if reader.bytes_left() == 0 {
            return Err(MidiFileError::UnexpectedEndOfData);
        }
        let data2 = reader.read_u8().unwrap();
        st.messages.push(Message::common2(first, data1, data2, lt));
        st.ticks.push(t);
    }
    st.last_status = first;
    Ok(None)
}

/// Reads an F0 or F7 SysEx packet.
fn read_sysex_packet(
    reader: &mut ByteReader,
    first: u8,
    st: &mut TrackState,
    sysex: &mut Vec<Vec<u8>>,
) -> (r: Result<Option<usize>, MidiFileError>)
    requires
        old(st).messages@.len() == old(st).ticks@.len(),
        old(reader).pos <= old(reader).data@.len(),
        first == 0xF0 || first == 0xF7,
    ensures
        final(st).messages@.len() == final(st).ticks@.len(),
        final(reader).data == old(reader).data,
        final(reader).pos <= final(reader).data@.len(),
        r is Ok ==> r->Ok_0 is None && final(reader).pos > old(reader).pos,
        spec_step_result(r, final(reader).pos as int, *final(st), final(sysex)@) == spec_sysex_step(
            old(reader).data@,
            old(reader).pos as int,
            old(st).tick,
            first,
            spec_pending(old(st).pending),
            spec_out(*old(st), old(sysex)@),
        ),
{
    let t = st.tick;
    let data = read_sized_data(reader)?;
    let joined: Option<Vec<u8>> = if first == 0xF0 {
        Some(data)
    } else {
        let waiting = st.pending.take();
        match waiting {
            Some(payload) => {
                let mut joined = payload;
                let mut rest = data;
                joined.append(&mut rest);
                Some(joined)
            },
            None => None,
        }
    };
    st.pending = None;
    match joined {
        Some(j) => {
            if j.len() > 0 && j[j.len() - 1] == 0xF7 {
                let ghost whole = j@;
                let mut payload = j;
                payload.pop();
                assert(payload@ =~= whole.drop_last());
                emit_sysex(sysex, &mut st.messages, &mut st.ticks, t, payload)?;
            } else {
                st.pending = Some(j);
            }
        },
        None => {},
    }
    st.last_status = 0;
    Ok(None)
}

/// Reads a meta event.
fn read_meta(
    reader: &mut ByteReader,
    b: usize,
    size: i32,
    st: &mut TrackState,
    sysex: &Vec<Vec<u8>>,
) -> (r: Result<Option<usize>, MidiFileError>)
    requires
        old(st).messages@.len() == old(st).ticks@.len(),
        b <= old(reader).pos <= old(reader).data@.len(),
    ensures
        final(st).messages@.len() == final(st).ticks@.len(),
        final(reader).data == old(reader).data,
        final(reader).pos <= final(reader).data@.len(),
        r is Ok ==> final(reader).pos > old(reader).pos,
        r matches Ok(Some(end)) ==> end == final(reader).pos,
        spec_step_result(r, final(reader).pos as int, *final(st), sysex@) == spec_meta_step(
            old(reader).data@,
            b as int,
            size as int,
            old(reader).pos as int,
            old(st).tick,
            spec_pending(old(st).pending),
            spec_out(*old(st), sysex@),
        ),
{
    let ghost d = reader.data@;
    let t = st.tick;
    if reader.bytes_left() == 0 {
        return Err(MidiFileError::UnexpectedEndOfData);
    }
    let kind = reader.read_u8().unwrap();
    if kind == 0x2F {
        if reader.bytes_left() == 0 {
            return Err(MidiFileError::UnexpectedEndOfData);
        }
        reader.read_u8().unwrap();
        st.messages.push(Message::EndOfTrack);
        st.ticks.push(t);
        if size < 0 {
            return Err(MidiFileError::UnexpectedEndOfData);
        }
        let declared = size as usize;
        let read = reader.pos - b;
        if read < declared {
            if reader.data.len() - b < declared {
                return Err(MidiFileError::UnexpectedEndOfData);
            }
            reader.pos = b + declared;
        }
        return Ok(Some(reader.pos));
    } else if kind == 0x51 {
        let ghost q3 = reader.pos as int;
        let n = read_length(reader)?;
        proof {
            lemma_variable_length_advances(d, q3, 0, 0);
        }
        if n != 3 {
            return Err(MidiFileError::InvalidTempoValue);
        }
        if reader.bytes_left() < 3 {
            return Err(MidiFileError::UnexpectedEndOfData);
        }
        let b1 = reader.read_u8().unwrap();
        let b2 = reader.read_u8().unwrap();
        let b3 = reader.read_u8().unwrap();
        let tempo = (b1 as i32) * 65536 + (b2 as i32) * 256 + b3 as i32;
        let message = Message::tempo_change(tempo);
        proof {
            lemma_u24_of_bytes(b1, b2, b3);
            assert(message->TempoChange_bytes =~= [b1, b2, b3]);
        }
        st.messages.push(message);
        st.ticks.push(t);
    } else {
        let _data = read_sized_data(reader)?;
    }
    st.last_status = 0;
    Ok(None)
}

/// Reads one event of a track: `b` is where the track's data starts and `size` its
/// declared size. Returns where the track ends once its End of Track event is read.
pub fn read_event(
    reader: &mut ByteReader,
    b: usize,
    size: i32,
    lt: MidiFileLoopType,
    st: &mut TrackState,
    sysex: &mut Vec<Vec<u8>>,
) -> (r: Result<Option<usize>, MidiFileError>)
    requires
        old(st).messages@.len() == old(st).ticks@.len(),
        b <= old(reader).pos <= old(reader).data@.len(),
    ensures
        final(st).messages@.len() == final(st).ticks@.len(),
        final(reader).data == old(reader).data,
        final(reader).pos <= final(reader).data@.len(),
        r is Ok ==> final(reader).pos > old(reader).pos,
        r matches Ok(Some(end)) ==> end == final(reader).pos,
        spec_step_result(r, final(reader).pos as int, *final(st), final(sysex)@) == spec_track_step(
            old(reader).data@,
            b as int,
            size as int,
            lt,
            old(reader).pos as int,
            old(st).tick,
            old(st).last_status,
            spec_pending(old(st).pending),
            spec_out(*old(st), old(sysex)@),
        ),
{
    let ghost d = reader.data@;
    let ghost q = reader.pos as int;
    proof {
        reveal(spec_track_step);
    }
    let delta = read_length(reader)?;
    proof {
        lemma_variable_length_advances(d, q, 0, 0);
    }
    if reader.bytes_left() == 0 {
        return Err(MidiFileError::UnexpectedEndOfData);
    }
    let first = reader.read_u8().unwrap();
    if st.tick as i64 + delta as i64 > i32::MAX as i64 {
        return Err(MidiFileError::InvalidChunkData(FourCC { b0: 0x4d, b1: 0x54, b2: 0x72, b3: 0x6b }));
    }
    let t = st.tick + delta;
    st.tick = t;
    if first != 0xF7 {
        let waiting = st.pending.take();
        match waiting {
            Some(payload) => {
                emit_sysex(sysex, &mut st.messages, &mut st.ticks, t, payload)?;
            },
            None => {},
        }
    }
    let ghost before = *st;
    let ghost sysex_before = sysex@;
    if first < 128 {
        read_running(reader, lt, first, st, sysex)
    } else if first == 0xF0 || first == 0xF7 {
        read_sysex_packet(reader, first, st, sysex)
    } else if first == 0xFF {
        read_meta(reader, b, size, st, sysex)
    } else {
        read_status(reader, lt, first, st, sysex)
    }
}

/// The track at `p`: its messages and ticks, the SysEx list after it (`sysex` before
/// it, with the track's payloads appended) and where it ends; or why it cannot be read.
pub open spec fn spec_track(d: Seq<u8>, p: int, lt: MidiFileLoopType, sysex: Seq<Seq<u8>>) -> Result<
    (Seq<Message>, Seq<i32>, Seq<Seq<u8>>, int),
    MidiFileError,
> {
    if d.len() < p + 4 {
        Err(MidiFileError::UnexpectedEndOfData)
    } else if spec_four_cc(d, p) != spec_mtrk() {
        Err(MidiFileError::InvalidChunkType { expected: spec_mtrk(), actual: spec_four_cc(d, p) })
    } else if d.len() < p + 8 {
        Err(MidiFileError::UnexpectedEndOfData)
    } else {
        match spec_track_events(
            d,
            p + 8,
            spec_u32_be(d, p + 4) as i32 as int,
            lt,
            p + 8,
            0,
            0,
            None,
            TrackOut { messages: Seq::empty(), ticks: Seq::empty(), sysex },
        ) {
            Ok((o, end)) => Ok((o.messages, o.ticks, o.sysex, end)),
            Err(e) => Err(e),
        }
    }
}

/// Reads an MTrk chunk, appending its SysEx payloads to the file's SysEx list.
pub fn read_track(reader: &mut ByteReader, lt: MidiFileLoopType, sysex: &mut Vec<Vec<u8>>) -> (r:
    Result<(Vec<Message>, Vec<i32>), MidiFileError>)
    requires
        old(reader).pos <= old(reader).data@.len(),
    ensures
        final(reader).data == old(reader).data,
        final(reader).pos <= final(reader).data@.len(),
        spec_track(old(reader).data@, old(reader).pos as int, lt, spec_payloads(old(sysex)@))
            == match r {
            Ok((m, t)) => Ok((m@, t@, spec_payloads(final(sysex)@), final(reader).pos as int)),
            Err(e) => Err(e),
        },
        r is Ok ==> r->Ok_0.0@.len() == r->Ok_0.1@.len(),
{
    let ghost d = reader.data@;
    let ghost p = reader.pos as int;
    let chunk_type = match reader.read_four_cc() {
        Ok(v) => v,
        Err(_) => return Err(MidiFileError::UnexpectedEndOfData),
    };
    let mtrk = FourCC { b0: 0x4d, b1: 0x54, b2: 0x72, b3: 0x6b };
    if chunk_type != mtrk {
        return Err(MidiFileError::InvalidChunkType { expected: mtrk, actual: chunk_type });
    }
    let size = match reader.read_i32_big_endian() {
        Ok(v) => v,
        Err(_) => return Err(MidiFileError::UnexpectedEndOfData),
    };
    let b = reader.pos;
    let mut st = TrackState {
        messages: Vec::new(),
        ticks: Vec::new(),
        tick: 0,
        last_status: 0,
        pending: None,
    };
    assert(spec_out(st, sysex@) == TrackOut {
        messages: Seq::<Message>::empty(),
        ticks: Seq::<i32>::empty(),
        sysex: spec_payloads(old(sysex)@),
    });
    loop
        invariant
            reader.data == old(reader).data,
            reader.data@ == d,
            b == p + 8,
            p == old(reader).pos,
            d == old(reader).data@,
            st.messages@.len() == st.ticks@.len(),
            b <= reader.pos <= d.len(),
            spec_track(d, p, lt, spec_payloads(old(sysex)@)) == match spec_rest_of_track(
                d,
                b as int,
                size as int,
                lt,
                reader.pos as int,
                st,
                sysex@,
            ) {
                Ok((o, end)) => Ok((o.messages, o.ticks, o.sysex, end)),
                Err(e) => Err(e),
            },
        decreases d.len() - reader.pos,
    {
        let ghost q = reader.pos as int;
        let ghost st0 = st;
        let ghost sysex0 = sysex@;
        let ghost rest = spec_rest_of_track(d, b as int, size as int, lt, q, st0, sysex0);
        assert(rest == match spec_track_step(
            d,
            b as int,
            size as int,
            lt,
            q,
            st0.tick,
            st0.last_status,
            spec_pending(st0.pending),
            spec_out(st0, sysex0),
        ) {
            TrackStep::Fail(e) => Err(e),
            TrackStep::Done(o2, end) => Ok((o2, end)),
            TrackStep::Next(q2, t2, ls2, p2, o2) => if q2 <= q || q2 > d.len() {
                Err(MidiFileError::UnexpectedEndOfData)
            } else {
                spec_track_events(d, b as int, size as int, lt, q2, t2, ls2, p2, o2)
            },
        });
        let step = read_event(reader, b, size, lt, &mut st, sysex);
        match step {
            Err(e) => {
                return Err(e);
            },
            Ok(Some(_)) => {
                let TrackState { messages, ticks, .. } = st;
                return Ok((messages, ticks));
            },
            Ok(None) => {},
        }
    }
}


/// The track whose next event comes first among tracks `ch..`, given the earliest tick
/// `min_tick` found so far (in track `min_index`, -1 for none): the first track that
/// reaches the smallest tick; a tick of `i32::MAX` is never picked.
pub open spec fn spec_scan(ticks: Seq<Seq<i32>>, idx: Seq<int>, ch: int, min_tick: int, min_index: int) -> int
    decreases ticks.len() - ch,
{
    if ch < 0 || ch >= ticks.len() {
        min_index
    } else if idx[ch] < ticks[ch].len() && ticks[ch][idx[ch]] < min_tick {
        spec_scan(ticks, idx, ch + 1, ticks[ch][idx[ch]] as int, ch)
    } else {
        spec_scan(ticks, idx, ch + 1, min_tick, min_index)
    }
}

/// The track whose next event comes first, or -1 when none is left.
pub open spec fn spec_next_track(ticks: Seq<Seq<i32>>, idx: Seq<int>) -> int {
    spec_scan(ticks, idx, 0, i32::MAX as int, -1)
}

/// The number of events of tracks `..n` after their positions `idx`.
pub open spec fn spec_left(ticks: Seq<Seq<i32>>, idx: Seq<int>, n: int) -> int
    decreases n,
{
    if n <= 0 {
        0
    } else {
        spec_left(ticks, idx, n - 1) + ticks[n - 1].len() - idx[n - 1]
    }
}

/// The events of all tracks from positions `idx` on, merged: at each step the next event
/// of the track picked by `spec_next_track`, for at most `fuel` steps.
pub open spec fn spec_merge_from(
    msgs: Seq<Seq<Message>>,
    ticks: Seq<Seq<i32>>,
    idx: Seq<int>,
    fuel: nat,
) -> (Seq<Message>, Seq<i32>)
    decreases fuel,
{
    let ch = spec_next_track(ticks, idx);
    if fuel == 0 || ch < 0 {
        (Seq::empty(), Seq::empty())
    } else {
        let rest = spec_merge_from(msgs, ticks, idx.update(ch, idx[ch] + 1), (fuel - 1) as nat);
        (seq![msgs[ch][idx[ch]]] + rest.0, seq![ticks[ch][idx[ch]]] + rest.1)
    }
}

/// All events of all tracks, merged in order of their ticks; of events at the same tick,
/// those of earlier tracks come first.
pub open spec fn spec_merge(msgs: Seq<Seq<Message>>, ticks: Seq<Seq<i32>>) -> (Seq<Message>, Seq<i32>) {
    let zeros = Seq::new(ticks.len(), |i: int| 0int);
    spec_merge_from(msgs, ticks, zeros, spec_left(ticks, zeros, ticks.len() as int) as nat)
}

/// The contents of each list.
pub open spec fn spec_views<T>(v: Seq<Vec<T>>) -> Seq<Seq<T>> {
    v.map_values(|x: Vec<T>| x@)
}

/// The track that `spec_scan` picks, if any, has an event left.
proof fn lemma_scan_valid(ticks: Seq<Seq<i32>>, idx: Seq<int>, ch: int, min_tick: int, min_index: int)
    requires
        0 <= ch,
        idx.len() == ticks.len(),
        min_index == -1 || (0 <= min_index < ticks.len() && idx[min_index] < ticks[min_index].len()),
    ensures
        ({
            let r = spec_scan(ticks, idx, ch, min_tick, min_index);
            r == -1 || (0 <= r < ticks.len() && idx[r] < ticks[r].len())
        }),
    decreases ticks.len() - ch,
{
    if ch < ticks.len() {
        if idx[ch] < ticks[ch].len() && ticks[ch][idx[ch]] < min_tick {
            lemma_scan_valid(ticks, idx, ch + 1, ticks[ch][idx[ch]] as int, ch);
        } else {
            lemma_scan_valid(ticks, idx, ch + 1, min_tick, min_index);
        }
    }
}

/// Taking one event of track `ch` leaves one event fewer.
proof fn lemma_left_take(ticks: Seq<Seq<i32>>, idx: Seq<int>, n: int, ch: int)
    requires
        0 <= ch < n <= ticks.len(),
        idx.len() == ticks.len(),
    ensures
        spec_left(ticks, idx.update(ch, idx[ch] + 1), n) == spec_left(ticks, idx, n) - 1,
    decreases n,
{
    let upd = idx.update(ch, idx[ch] + 1);
    if n - 1 != ch {
        lemma_left_take(ticks, idx, n - 1, ch);
        assert(upd[n - 1] == idx[n - 1]);
    } else {
        lemma_left_same(ticks, idx, upd, n - 1);
        assert(upd[n - 1] == idx[n - 1] + 1);
    }
    assert(spec_left(ticks, upd, n) == spec_left(ticks, upd, n - 1) + ticks[n - 1].len() - upd[n
        - 1]);
}

/// The count of events left only depends on the positions it counts.
proof fn lemma_left_same(ticks: Seq<Seq<i32>>, a: Seq<int>, b: Seq<int>, n: int)
    requires
        0 <= n <= a.len(),
        n <= b.len(),
        forall|c: int| 0 <= c < n ==> a[c] == b[c],
    ensures
        spec_left(ticks, a, n) == spec_left(ticks, b, n),
    decreases n,
{
    if n > 0 {
        lemma_left_same(ticks, a, b, n - 1);
    }
}

/// A track with an event left makes the count positive.
proof fn lemma_left_positive(ticks: Seq<Seq<i32>>, idx: Seq<int>, n: int, ch: int)
    requires
        0 <= ch < n <= ticks.len(),
        idx.len() == ticks.len(),
        forall|c: int| 0 <= c < ticks.len() ==> 0 <= #[trigger] idx[c] <= ticks[c].len(),
        idx[ch] < ticks[ch].len(),
    ensures
        spec_left(ticks, idx, n) >= 1,
    decreases n,
{
    lemma_left_nonnegative(ticks, idx, n - 1);
    if n - 1 != ch {
        lemma_left_positive(ticks, idx, n - 1, ch);
    }
}

/// The count of events left is never negative.
proof fn lemma_left_nonnegative(ticks: Seq<Seq<i32>>, idx: Seq<int>, n: int)
    requires
        n <= ticks.len(),
        idx.len() == ticks.len(),
        forall|c: int| 0 <= c < ticks.len() ==> 0 <= #[trigger] idx[c] <= ticks[c].len(),
    ensures
        spec_left(ticks, idx, n) >= 0,
    decreases n,
{
    if n > 0 {
        lemma_left_nonnegative(ticks, idx, n - 1);
    }
}

/// Every track's ticks are in order.
pub open spec fn spec_tracks_in_order(ticks: Seq<Seq<i32>>) -> bool {
    forall|c: int, i: int, j: int|
        0 <= c < ticks.len() && 0 <= i <= j < ticks[c].len() ==> #[trigger] ticks[c][i]
            <= #[trigger] ticks[c][j]
}

/// The ticks are in order.
pub open spec fn spec_in_order(s: Seq<i32>) -> bool {
    forall|i: int, j: int| 0 <= i <= j < s.len() ==> #[trigger] s[i] <= #[trigger] s[j]
}

/// Every track with an event left has its next event at tick `t` or later.
pub open spec fn spec_heads_from(ticks: Seq<Seq<i32>>, idx: Seq<int>, t: int) -> bool {
    forall|c: int| 0 <= c < ticks.len() && idx[c] < ticks[c].len() ==> t <= #[trigger] ticks[c][idx[c]]
}

/// The track `spec_scan` picks has the earliest next event of the tracks it looked at.
proof fn lemma_scan_min(ticks: Seq<Seq<i32>>, idx: Seq<int>, ch: int, min_tick: int, min_index: int)
    requires
        0 <= ch <= ticks.len(),
        idx.len() == ticks.len(),
        forall|c: int| 0 <= c < ticks.len() ==> 0 <= #[trigger] idx[c] <= ticks[c].len(),
        min_index == -1 ==> min_tick == i32::MAX,
        min_index != -1 ==> 0 <= min_index < ticks.len() && idx[min_index] < ticks[min_index].len()
            && min_tick == ticks[min_index][idx[min_index]] && min_tick < i32::MAX,
        forall|c: int|
            0 <= c < ch && idx[c] < ticks[c].len() ==> min_tick <= #[trigger] ticks[c][idx[c]],
    ensures
        ({
            let r = spec_scan(ticks, idx, ch, min_tick, min_index);
            &&& r == -1 ==> spec_heads_from(ticks, idx, i32::MAX as int)
            &&& r != -1 ==> 0 <= r < ticks.len() && idx[r] < ticks[r].len() && ticks[r][idx[r]]
                < i32::MAX && spec_heads_from(ticks, idx, ticks[r][idx[r]] as int)
        }),
    decreases ticks.len() - ch,
{
    if ch < ticks.len() {
        if idx[ch] < ticks[ch].len() && ticks[ch][idx[ch]] < min_tick {
            lemma_scan_min(ticks, idx, ch + 1, ticks[ch][idx[ch]] as int, ch);
        } else {
            lemma_scan_min(ticks, idx, ch + 1, min_tick, min_index);
        }
    }
}

/// The merge from positions `idx` gives ticks in order, none before `t`, when the tracks
/// are in order and none has a next event before `t`.
proof fn lemma_merge_in_order(
    msgs: Seq<Seq<Message>>,
    ticks: Seq<Seq<i32>>,
    idx: Seq<int>,
    fuel: nat,
    t: int,
)
    requires
        idx.len() == ticks.len(),
        forall|c: int| 0 <= c < ticks.len() ==> 0 <= #[trigger] idx[c] <= ticks[c].len(),
        spec_tracks_in_order(ticks),
        spec_heads_from(ticks, idx, t),
    ensures
        spec_in_order(spec_merge_from(msgs, ticks, idx, fuel).1),
        forall|i: int|
            0 <= i < spec_merge_from(msgs, ticks, idx, fuel).1.len() ==> t <= #[trigger] spec_merge_from(
                msgs,
                ticks,
                idx,
                fuel,
            ).1[i],
    decreases fuel,
{
    let ch = spec_next_track(ticks, idx);
    lemma_scan_min(ticks, idx, 0, i32::MAX as int, -1);
    if fuel > 0 && ch >= 0 {
        let h = ticks[ch][idx[ch]];
        let next = idx.update(ch, idx[ch] + 1);
        assert forall|c: int| 0 <= c < ticks.len() && next[c] < ticks[c].len() implies h
            <= #[trigger] ticks[c][next[c]] by {
            if c == ch {
                assert(ticks[ch][idx[ch]] <= ticks[ch][idx[ch] + 1]);
            }
        }
        assert forall|c: int| 0 <= c < ticks.len() implies 0 <= #[trigger] next[c]
            <= ticks[c].len() by {}
        lemma_merge_in_order(msgs, ticks, next, (fuel - 1) as nat, h as int);
        let rest = spec_merge_from(msgs, ticks, next, (fuel - 1) as nat).1;
        let all = spec_merge_from(msgs, ticks, idx, fuel).1;
        assert(all == seq![h] + rest);
        assert forall|i: int, j: int| 0 <= i <= j < all.len() implies #[trigger] all[i]
            <= #[trigger] all[j] by {
            if i > 0 {
                assert(all[i] == rest[i - 1]);
                assert(all[j] == rest[j - 1]);
            } else if j > 0 {
                assert(all[j] == rest[j - 1]);
                assert(h <= rest[j - 1]);
            }
        }
        assert forall|i: int| 0 <= i < all.len() implies t <= #[trigger] all[i] by {
            if i > 0 {
                assert(all[i] == rest[i - 1]);
                assert(h <= rest[i - 1]);
            }
        }
    }
}

/// Merging tracks whose ticks are each in order gives ticks in order.
pub proof fn law_merge_keeps_tick_order(msgs: Seq<Seq<Message>>, ticks: Seq<Seq<i32>>)
    requires
        spec_tracks_in_order(ticks),
    ensures
        spec_in_order(spec_merge(msgs, ticks).1),
{
    let zeros = Seq::new(ticks.len(), |i: int| 0int);
    lemma_merge_in_order(
        msgs,
        ticks,
        zeros,
        spec_left(ticks, zeros, ticks.len() as int) as nat,
        i32::MIN as int,
    );
}

/// Ticks in order, none after `tick`.
pub open spec fn spec_ticks_upto(ticks: Seq<i32>, tick: int) -> bool {
    &&& spec_in_order(ticks)
    &&& forall|i: int| 0 <= i < ticks.len() ==> #[trigger] ticks[i] <= tick
}

/// A variable-length quantity is never negative.
proof fn lemma_variable_length_nonnegative(d: Seq<u8>, p: int, acc: int, count: int)
    requires
        acc >= 0,
    ensures
        spec_variable_length_from(d, p, acc, count) matches Ok((v, _)) ==> v >= 0,
    decreases 4 - count,
{
    if !(p < 0 || p >= d.len() || count < 0 || count >= 4) {
        let v = d[p];
        let next = acc * 128 + v % 128;
        if v >= 128 && count + 1 != 4 {
            lemma_variable_length_nonnegative(d, p + 1, next, count + 1);
        }
    }
}

/// Appending tick `t`, at or after every tick so far, keeps them in order.
proof fn lemma_push_upto(ticks: Seq<i32>, tick: int, t: i32)
    requires
        spec_ticks_upto(ticks, tick),
        tick <= t,
    ensures
        spec_ticks_upto(ticks.push(t), t as int),
{
    let s = ticks.push(t);
    assert forall|i: int, j: int| 0 <= i <= j < s.len() implies #[trigger] s[i] <= #[trigger] s[j] by {
        if j < ticks.len() {
            assert(s[i] == ticks[i] && s[j] == ticks[j]);
        } else if i < ticks.len() {
            assert(s[i] == ticks[i]);
        }
    }
    assert forall|i: int| 0 <= i < s.len() implies #[trigger] s[i] <= t by {
        if i < ticks.len() {
            assert(s[i] == ticks[i]);
        }
    }
}

/// An event read at tick `t` keeps the track's ticks in order and stays at `t`.
proof fn lemma_event_step_in_order(
    d: Seq<u8>,
    b: int,
    size: int,
    lt: MidiFileLoopType,
    q: int,
    t: i32,
    last_status: u8,
    first: u8,
    pend: Option<Seq<u8>>,
    o: TrackOut,
)
    requires
        spec_ticks_upto(o.ticks, t as int),
    ensures
        match spec_event_step(d, b, size, lt, q, t, last_status, first, pend, o) {
            TrackStep::Next(_, t2, _, _, o2) => t2 == t && spec_ticks_upto(o2.ticks, t as int),
            TrackStep::Done(o2, _) => spec_in_order(o2.ticks),
            TrackStep::Fail(_) => true,
        },
{
    lemma_push_upto(o.ticks, t as int, t);
}

/// One step of a track keeps its ticks in order and never goes back in time.
proof fn lemma_track_step_in_order(
    d: Seq<u8>,
    b: int,
    size: int,
    lt: MidiFileLoopType,
    q: int,
    tick: i32,
    last_status: u8,
    pending: Option<Seq<u8>>,
    o: TrackOut,
)
    requires
        spec_ticks_upto(o.ticks, tick as int),
    ensures
        match spec_track_step(d, b, size, lt, q, tick, last_status, pending, o) {
            TrackStep::Next(_, t2, _, _, o2) => tick <= t2 && spec_ticks_upto(o2.ticks, t2 as int),
            TrackStep::Done(o2, _) => spec_in_order(o2.ticks),
            TrackStep::Fail(_) => true,
        },
{
    reveal(spec_track_step);
    lemma_variable_length_nonnegative(d, q, 0, 0);
    match spec_variable_length(d, q) {
        Err(e) => {},
        Ok((delta, q1)) => {
            if q1 < d.len() && tick + delta <= i32::MAX {
                let first = d[q1];
                let t = (tick + delta) as i32;
                assert(spec_ticks_upto(o.ticks, t as int));
                if first != 0xF7 && pending is Some {
                    match spec_emit(o, t, pending->0) {
                        Err(e) => {},
                        Ok(o1) => {
                            lemma_push_upto(o.ticks, t as int, t);
                            lemma_event_step_in_order(
                                d,
                                b,
                                size,
                                lt,
                                q1 + 1,
                                t,
                                last_status,
                                first,
                                None,
                                o1,
                            );
                        },
                    }
                } else {
                    lemma_event_step_in_order(
                        d,
                        b,
                        size,
                        lt,
                        q1 + 1,
                        t,
                        last_status,
                        first,
                        pending,
                        o,
                    );
                }
            }
        },
    }
}

/// Reading the rest of a track keeps its ticks in order.
proof fn lemma_track_events_in_order(
    d: Seq<u8>,
    b: int,
    size: int,
    lt: MidiFileLoopType,
    q: int,
    tick: i32,
    last_status: u8,
    pending: Option<Seq<u8>>,
    o: TrackOut,
)
    requires
        spec_ticks_upto(o.ticks, tick as int),
    ensures
        spec_track_events(d, b, size, lt, q, tick, last_status, pending, o) matches Ok((o2, _))
            ==> spec_in_order(o2.ticks),
    decreases d.len() - q,
{
    lemma_track_step_in_order(d, b, size, lt, q, tick, last_status, pending, o);
    match spec_track_step(d, b, size, lt, q, tick, last_status, pending, o) {
        TrackStep::Next(q2, t2, ls2, p2, o2) => {
            if !(q2 <= q || q2 > d.len()) {
                lemma_track_events_in_order(d, b, size, lt, q2, t2, ls2, p2, o2);
            }
        },
        _ => {},
    }
}

/// The events of a track come in order of their ticks.
pub proof fn law_track_ticks_in_order(d: Seq<u8>, p: int, lt: MidiFileLoopType, sysex: Seq<Seq<u8>>)
    ensures
        spec_track(d, p, lt, sysex) matches Ok((_, ticks, _, _)) ==> spec_in_order(ticks),
{
    if d.len() >= p + 8 && spec_four_cc(d, p) == spec_mtrk() {
        lemma_track_events_in_order(
            d,
            p + 8,
            spec_u32_be(d, p + 4) as i32 as int,
            lt,
            p + 8,
            0,
            0,
            None,
            TrackOut { messages: Seq::empty(), ticks: Seq::empty(), sysex },
        );
    }
}

/// A merge gives one tick for each event.
proof fn lemma_merge_from_same_length(
    msgs: Seq<Seq<Message>>,
    ticks: Seq<Seq<i32>>,
    idx: Seq<int>,
    fuel: nat,
)
    ensures
        spec_merge_from(msgs, ticks, idx, fuel).0.len() == spec_merge_from(msgs, ticks, idx, fuel).1.len(),
    decreases fuel,
{
    let ch = spec_next_track(ticks, idx);
    if fuel > 0 && ch >= 0 {
        lemma_merge_from_same_length(msgs, ticks, idx.update(ch, idx[ch] + 1), (fuel - 1) as nat);
    }
}

/// A merge gives one tick for each event.
proof fn lemma_merge_same_length(msgs: Seq<Seq<Message>>, ticks: Seq<Seq<i32>>)
    ensures
        spec_merge(msgs, ticks).0.len() == spec_merge(msgs, ticks).1.len(),
{
    let zeros = Seq::new(ticks.len(), |i: int| 0int);
    lemma_merge_from_same_length(msgs, ticks, zeros, spec_left(ticks, zeros, ticks.len() as int) as nat);
}

/// The first `n` events of a merged list, parted into the events other than tempo
/// changes with their ticks, and the tempo changes.
pub open spec fn spec_split(msgs: Seq<Message>, ticks: Seq<i32>, n: int) -> (
    Seq<Message>,
    Seq<i32>,
    Seq<Tempo>,
)
    decreases n,
{
    if n <= 0 {
        (Seq::empty(), Seq::empty(), Seq::empty())
    } else {
        let before = spec_split(msgs, ticks, n - 1);
        match msgs[n - 1] {
            Message::TempoChange { bytes } => (
                before.0,
                before.1,
                before.2.push(
                    Tempo { tick: ticks[n - 1], microseconds_per_quarter: spec_u24(bytes) as i32 },
                ),
            ),
            _ => (before.0.push(msgs[n - 1]), before.1.push(ticks[n - 1]), before.2),
        }
    }
}

/// The events of a merged list other than tempo changes, with their ticks, and its tempo
/// changes.
pub open spec fn spec_split_tempo(merged: (Seq<Message>, Seq<i32>)) -> (
    Seq<Message>,
    Seq<i32>,
    Seq<Tempo>,
) {
    spec_split(merged.0, merged.1, merged.0.len() as int)
}

/// Parting keeps no tempo change among the events, gives each event a tick, and keeps
/// ticks in order: each is at most the last tick looked at.
proof fn lemma_split(msgs: Seq<Message>, ticks: Seq<i32>, n: int)
    requires
        0 <= n <= msgs.len(),
        msgs.len() == ticks.len(),
    ensures
        ({
            let r = spec_split(msgs, ticks, n);
            &&& r.0.len() == r.1.len()
            &&& forall|i: int| 0 <= i < r.0.len() ==> !(#[trigger] r.0[i] is TempoChange)
            &&& spec_in_order(ticks.take(n)) ==> {
                &&& spec_in_order(r.1)
                &&& forall|i: int| 0 <= i < r.1.len() ==> #[trigger] r.1[i] <= ticks[n - 1]
                &&& forall|i: int, j: int|
                    0 <= i <= j < r.2.len() ==> (#[trigger] r.2[i]).tick <= (#[trigger] r.2[j]).tick
                &&& forall|i: int| 0 <= i < r.2.len() ==> (#[trigger] r.2[i]).tick <= ticks[n - 1]
            }
        }),
    decreases n,
{
    if n > 0 {
        lemma_split(msgs, ticks, n - 1);
        if spec_in_order(ticks.take(n)) {
            assert forall|i: int, j: int| 0 <= i <= j < ticks.take(n - 1).len() implies #[trigger] ticks.take(
                n - 1,
            )[i] <= #[trigger] ticks.take(n - 1)[j] by {
                assert(ticks.take(n)[i] <= ticks.take(n)[j]);
            }
            if n > 1 {
                assert(ticks.take(n)[n - 2] <= ticks.take(n)[n - 1]);
            }
        }
    }
}

/// Parts a merged list into its events other than tempo changes, with their ticks, and
/// its tempo changes.
fn split_tempo(messages: Vec<Message>, ticks: Vec<i32>) -> (r: (Vec<Message>, Vec<i32>, Vec<Tempo>))
    requires
        messages@.len() == ticks@.len(),
    ensures
        (r.0@, r.1@, r.2@) == spec_split_tempo((messages@, ticks@)),
{
    let mut events: Vec<Message> = Vec::new();
    let mut event_ticks: Vec<i32> = Vec::new();
    let mut tempos: Vec<Tempo> = Vec::new();
    let mut i: usize = 0;
    while i < messages.len()
        invariant
            i <= messages@.len(),
            messages@.len() == ticks@.len(),
            (events@, event_ticks@, tempos@) == spec_split(messages@, ticks@, i as int),
        decreases messages@.len() - i,
    {
        let message = messages[i];
        match message {
            Message::TempoChange { bytes } => {
                let value = (bytes[0] as i32) * 65536 + (bytes[1] as i32) * 256 + bytes[2] as i32;
                tempos.push(Tempo { tick: ticks[i], microseconds_per_quarter: value });
            },
            _ => {
                events.push(message);
                event_ticks.push(ticks[i]);
            },
        }
        i += 1;
    }
    (events, event_ticks, tempos)
}

/// Merges the events of all tracks in order of their ticks (of events at the same tick,
/// those of earlier tracks come first), and parts out the tempo changes: the events
/// other than tempo changes with their ticks, and the tempo changes in their own list.
pub fn merge_tracks(message_lists: &Vec<Vec<Message>>, tick_lists: &Vec<Vec<i32>>) -> (r: (
    Vec<Message>,
    Vec<i32>,
    Vec<Tempo>,
))
    requires
        message_lists@.len() == tick_lists@.len(),
        forall|c: int|
            0 <= c < tick_lists@.len() ==> (#[trigger] message_lists@[c])@.len()
                == tick_lists@[c]@.len(),
    ensures
        (r.0@, r.1@, r.2@) == spec_split_tempo(
            spec_merge(spec_views(message_lists@), spec_views(tick_lists@)),
        ),
        r.0@.len() == r.1@.len(),
        forall|i: int| 0 <= i < r.0@.len() ==> !(#[trigger] r.0@[i] is TempoChange),
        spec_tracks_in_order(spec_views(tick_lists@)) ==> spec_in_order(r.1@),
        spec_tracks_in_order(spec_views(tick_lists@)) ==> forall|i: int, j: int|
            0 <= i <= j < r.2@.len() ==> (#[trigger] r.2@[i]).tick <= (#[trigger] r.2@[j]).tick,
{
    let (messages, ticks) = merge_all(message_lists, tick_lists);
    proof {
        lemma_merge_same_length(spec_views(message_lists@), spec_views(tick_lists@));
        lemma_split(messages@, ticks@, messages@.len() as int);
        if spec_tracks_in_order(spec_views(tick_lists@)) {
            law_merge_keeps_tick_order(spec_views(message_lists@), spec_views(tick_lists@));
            assert(ticks@.take(messages@.len() as int) =~= ticks@);
        }
    }
    let ghost parted = spec_split(messages@, ticks@, messages@.len() as int);
    let r = split_tempo(messages, ticks);
    proof {
        assert(r.2@ == parted.2);
        if spec_tracks_in_order(spec_views(tick_lists@)) {
            assert forall|i: int, j: int| 0 <= i <= j < r.2@.len() implies (#[trigger] r.2@[i]).tick
                <= (#[trigger] r.2@[j]).tick by {
                assert(parted.2[i].tick <= parted.2[j].tick);
            }
        }
    }
    r
}

/// Merges the events of all tracks in order of their ticks; of events at the same tick,
/// those of earlier tracks come first.
fn merge_all(message_lists: &Vec<Vec<Message>>, tick_lists: &Vec<Vec<i32>>) -> (r: (
    Vec<Message>,
    Vec<i32>,
))
    requires
        message_lists@.len() == tick_lists@.len(),
        forall|c: int|
            0 <= c < tick_lists@.len() ==> (#[trigger] message_lists@[c])@.len()
                == tick_lists@[c]@.len(),
    ensures
        (r.0@, r.1@) == spec_merge(spec_views(message_lists@), spec_views(tick_lists@)),
{
    let ghost msgs = spec_views(message_lists@);
    let ghost ticks = spec_views(tick_lists@);
    let n = tick_lists.len();
    let mut indices: Vec<usize> = Vec::new();
    let mut k: usize = 0;
    while k < n
        invariant
            k <= n,
            n == tick_lists@.len(),
            indices@.len() == k,
            forall|c: int| 0 <= c < k ==> indices@[c] == 0,
        decreases n - k,
    {
        indices.push(0);
        k += 1;
    }
    let ghost zeros = Seq::new(ticks.len(), |i: int| 0int);
    assert(indices@.map_values(|x: usize| x as int) =~= zeros);
    proof {
        lemma_left_nonnegative(ticks, zeros, n as int);
    }
    let mut merged_messages: Vec<Message> = Vec::new();
    let mut merged_ticks: Vec<i32> = Vec::new();
    loop
        invariant
            n == tick_lists@.len(),
            n == ticks.len(),
            msgs.len() == n,
            msgs == spec_views(message_lists@),
            ticks == spec_views(tick_lists@),
            forall|c: int| 0 <= c < n ==> (#[trigger] msgs[c]).len() == ticks[c].len(),
            indices@.len() == n,
            forall|c: int| 0 <= c < n ==> 0 <= #[trigger] indices@[c] <= ticks[c].len(),
            spec_left(ticks, indices@.map_values(|x: usize| x as int), n as int) >= 0,
            ({
                let idx = indices@.map_values(|x: usize| x as int);
                let rest = spec_merge_from(
                    msgs,
                    ticks,
                    idx,
                    spec_left(ticks, idx, n as int) as nat,
                );
                spec_merge(msgs, ticks) == (merged_messages@ + rest.0, merged_ticks@ + rest.1)
            }),
        ensures
            spec_merge(msgs, ticks) == (merged_messages@, merged_ticks@),
        decreases spec_left(ticks, indices@.map_values(|x: usize| x as int), n as int),
    {
        let ghost idx = indices@.map_values(|x: usize| x as int);
        let mut min_tick: i32 = i32::MAX;
        let mut found = false;
        let mut min_index: usize = 0;
        let mut ch: usize = 0;
        while ch < n
            invariant
                ch <= n,
                n == tick_lists@.len(),
                n == ticks.len(),
                ticks == spec_views(tick_lists@),
                indices@.len() == n,
                idx == indices@.map_values(|x: usize| x as int),
                found ==> min_index < ch && idx[min_index as int] < ticks[min_index as int].len(),
                spec_next_track(ticks, idx) == spec_scan(
                    ticks,
                    idx,
                    ch as int,
                    min_tick as int,
                    if found {
                        min_index as int
                    } else {
                        -1
                    },
                ),
            decreases n - ch,
        {
            assert(ticks[ch as int] == tick_lists@[ch as int]@);
            assert(idx[ch as int] == indices@[ch as int] as int);
            if indices[ch] < tick_lists[ch].len() {
                let tick = tick_lists[ch][indices[ch]];
                if tick < min_tick {
                    min_tick = tick;
                    min_index = ch;
                    found = true;
                }
            }
            ch += 1;
        }
        if !found {
            proof {
                let left = spec_left(ticks, idx, n as int) as nat;
                if left > 0 {
                    assert(spec_merge_from(msgs, ticks, idx, left) == (
                        Seq::<Message>::empty(),
                        Seq::<i32>::empty(),
                    ));
                }
                assert(merged_messages@ + Seq::<Message>::empty() =~= merged_messages@);
                assert(merged_ticks@ + Seq::<i32>::empty() =~= merged_ticks@);
            }
            break;
        }
        let c = min_index;
        let i = indices[c];
        assert(ticks[c as int] == tick_lists@[c as int]@);
        assert(msgs[c as int] == message_lists@[c as int]@);
        assert(idx[c as int] == i as int);
        let len_c = tick_lists[c].len();
        assert(i < len_c);
        proof {
            lemma_left_positive(ticks, idx, n as int, c as int);
            lemma_left_take(ticks, idx, n as int, c as int);
        }
        let ghost mm0 = merged_messages@;
        let ghost mt0 = merged_ticks@;
        merged_messages.push(message_lists[c][i]);
        merged_ticks.push(tick_lists[c][i]);
        indices.set(c, i + 1);
        proof {
            let idx2 = indices@.map_values(|x: usize| x as int);
            assert(idx2 =~= idx.update(c as int, idx[c as int] + 1));
            let left = spec_left(ticks, idx, n as int) as nat;
            let rest = spec_merge_from(msgs, ticks, idx2, (left - 1) as nat);
            assert(spec_merge_from(msgs, ticks, idx, left) == (
                seq![msgs[c as int][i as int]] + rest.0,
                seq![ticks[c as int][i as int]] + rest.1,
            ));
            assert(merged_messages@ + rest.0 =~= mm0 + (seq![msgs[c as int][i as int]] + rest.0));
            assert(merged_ticks@ + rest.1 =~= mt0 + (seq![ticks[c as int][i as int]] + rest.1));
        }
    }
    (merged_messages, merged_ticks)
}


/// The first `n` tracks from `q`: the messages and ticks of each, the SysEx list after
/// them (`sysex` before them) and where they end.
pub open spec fn spec_tracks(d: Seq<u8>, q: int, n: int, lt: MidiFileLoopType, sysex: Seq<Seq<u8>>) -> Result<
    (Seq<Seq<Message>>, Seq<Seq<i32>>, Seq<Seq<u8>>, int),
    MidiFileError,
>
    decreases n,
{
    if n <= 0 {
        Ok((Seq::empty(), Seq::empty(), sysex, q))
    } else {
        match spec_tracks(d, q, n - 1, lt, sysex) {
            Err(e) => Err(e),
            Ok((ms, ts, sx, q1)) => match spec_track(d, q1, lt, sx) {
                Err(e) => Err(e),
                Ok((m, t, sx2, q2)) => Ok((ms.push(m), ts.push(t), sx2, q2)),
            },
        }
    }
}

/// The position of the first tick from `i` on that is at least `v`.
pub open spec fn spec_first_at_least(ticks: Seq<i32>, v: int, i: int) -> int
    decreases ticks.len() - i,
{
    if i < 0 || i >= ticks.len() {
        ticks.len() as int
    } else if ticks[i] >= v {
        i
    } else {
        spec_first_at_least(ticks, v, i + 1)
    }
}

/// A track with a loop start event inserted at tick `lp`: before the first event at or
/// after that tick, or at the end when every event comes before it.
pub open spec fn spec_insert_loop_point(ms: Seq<Message>, ts: Seq<i32>, lp: i32) -> (Seq<Message>, Seq<i32>) {
    if ts.len() > 0 && lp <= ts.last() {
        let i = spec_first_at_least(ts, lp as int, 0);
        (ms.insert(i, Message::LoopStart), ts.insert(i, lp))
    } else {
        (ms.push(Message::LoopStart), ts.push(lp))
    }
}

/// The tracks after the loop extension by tick: a nonzero loop point puts a loop start
/// event into the first track.
pub open spec fn spec_with_loop_point(
    ms: Seq<Seq<Message>>,
    ts: Seq<Seq<i32>>,
    lt: MidiFileLoopType,
) -> (Seq<Seq<Message>>, Seq<Seq<i32>>) {
    match lt {
        MidiFileLoopType::LoopPoint(lp) => if lp != 0 && ms.len() > 0 && ts.len() > 0 {
            let inserted = spec_insert_loop_point(ms[0], ts[0], lp as i32);
            (ms.update(0, inserted.0), ts.update(0, inserted.1))
        } else {
            (ms, ts)
        },
        _ => (ms, ts),
    }
}

/// A MIDI file: its events merged from all tracks with their ticks, its SysEx payloads
/// and its time division; or why it cannot be read.
pub open spec fn spec_midi_file(d: Seq<u8>, lt: MidiFileLoopType) -> Result<
    (Seq<Message>, Seq<i32>, Seq<Tempo>, Seq<Seq<u8>>, TimeDivision),
    MidiFileError,
> {
    match spec_midi_header(d) {
        Err(e) => Err(e),
        Ok((h, q)) => match spec_tracks(d, q, h.track_count as int, lt, Seq::empty()) {
            Err(e) => Err(e),
            Ok((ms, ts, sx, _)) => {
                let looped = spec_with_loop_point(ms, ts, lt);
                let parted = spec_split_tempo(spec_merge(looped.0, looped.1));
                Ok((parted.0, parted.1, parted.2, sx, h.time_division))
            },
        },
    }
}

/// Every track that `spec_tracks` reads has its ticks in order.
proof fn lemma_tracks_in_order(d: Seq<u8>, q: int, n: int, lt: MidiFileLoopType, sysex: Seq<Seq<u8>>)
    ensures
        spec_tracks(d, q, n, lt, sysex) matches Ok((_, ts, _, _)) ==> spec_tracks_in_order(ts),
    decreases n,
{
    if n > 0 {
        lemma_tracks_in_order(d, q, n - 1, lt, sysex);
        match spec_tracks(d, q, n - 1, lt, sysex) {
            Err(e) => {},
            Ok((ms, ts, sx, q1)) => {
                law_track_ticks_in_order(d, q1, lt, sx);
                match spec_track(d, q1, lt, sx) {
                    Err(e) => {},
                    Ok((m, t, sx2, q2)) => {
                        let all = ts.push(t);
                        assert forall|c: int, i: int, j: int|
                            0 <= c < all.len() && 0 <= i <= j < all[c].len() implies #[trigger] all[c][i]
                            <= #[trigger] all[c][j] by {
                            if c < ts.len() {
                                assert(all[c] == ts[c]);
                            } else {
                                assert(all[c] == t);
                            }
                        }
                    },
                }
            },
        }
    }
}

/// The first tick from `i` on that is at least `v` is found, and the ticks before it from
/// `i` on are below `v`.
proof fn lemma_first_at_least(ticks: Seq<i32>, v: int, i: int)
    requires
        0 <= i <= ticks.len(),
    ensures
        i <= spec_first_at_least(ticks, v, i) <= ticks.len(),
        forall|k: int| i <= k < spec_first_at_least(ticks, v, i) ==> #[trigger] ticks[k] < v,
        spec_first_at_least(ticks, v, i) < ticks.len() ==> ticks[spec_first_at_least(ticks, v, i)]
            >= v,
    decreases ticks.len() - i,
{
    if i < ticks.len() && ticks[i] < v {
        lemma_first_at_least(ticks, v, i + 1);
    }
}

/// Inserting the loop start keeps a track's ticks in order.
proof fn lemma_insert_loop_point_in_order(ms: Seq<Message>, ts: Seq<i32>, lp: i32)
    requires
        spec_in_order(ts),
    ensures
        spec_in_order(spec_insert_loop_point(ms, ts, lp).1),
{
    if ts.len() > 0 && lp <= ts.last() {
        let i = spec_first_at_least(ts, lp as int, 0);
        lemma_first_at_least(ts, lp as int, 0);
        if i == ts.len() {
            assert(ts[ts.len() - 1] < lp);
        }
        let s = ts.insert(i, lp);
        assert forall|a: int, b: int| 0 <= a <= b < s.len() implies #[trigger] s[a] <= #[trigger] s[b] by {
            if b < i {
                assert(s[a] == ts[a] && s[b] == ts[b]);
            } else if b == i {
                if a < i {
                    assert(s[a] == ts[a]);
                }
            } else if a < i {
                assert(s[a] == ts[a] && s[b] == ts[b - 1]);
                assert(ts[i] >= lp);
                assert(ts[i] <= ts[b - 1]);
            } else if a == i {
                assert(s[b] == ts[b - 1]);
                assert(ts[i] <= ts[b - 1]);
            } else {
                assert(s[a] == ts[a - 1] && s[b] == ts[b - 1]);
            }
        }
    } else {
        let s = ts.push(lp);
        assert forall|a: int, b: int| 0 <= a <= b < s.len() implies #[trigger] s[a] <= #[trigger] s[b] by {
            if b < ts.len() {
                assert(s[a] == ts[a] && s[b] == ts[b]);
            } else if a < ts.len() {
                assert(s[a] == ts[a]);
                if ts.len() > 0 {
                    assert(ts[a] <= ts[ts.len() - 1]);
                }
            }
        }
    }
}

/// The events of a MIDI file come in order of their ticks, and so do its tempo changes;
/// no tempo change is among the events.
pub proof fn law_midi_file_ticks_in_order(d: Seq<u8>, lt: MidiFileLoopType)
    ensures
        spec_midi_file(d, lt) matches Ok((msgs, ticks, tempos, _, _)) ==> {
            &&& spec_in_order(ticks)
            &&& forall|i: int, j: int|
                0 <= i <= j < tempos.len() ==> (#[trigger] tempos[i]).tick <= (#[trigger] tempos[j]).tick
            &&& forall|i: int| 0 <= i < msgs.len() ==> !(#[trigger] msgs[i] is TempoChange)
        },
{
    match spec_midi_header(d) {
        Err(e) => {},
        Ok((h, q)) => {
            lemma_tracks_in_order(d, q, h.track_count as int, lt, Seq::empty());
            match spec_tracks(d, q, h.track_count as int, lt, Seq::empty()) {
                Err(e) => {},
                Ok((ms, ts, sx, _)) => {
                    let looped = spec_with_loop_point(ms, ts, lt);
                    match lt {
                        MidiFileLoopType::LoopPoint(lp) => {
                            if lp != 0 && ms.len() > 0 && ts.len() > 0 {
                                lemma_insert_loop_point_in_order(ms[0], ts[0], lp as i32);
                                let t0 = spec_insert_loop_point(ms[0], ts[0], lp as i32).1;
                                assert forall|c: int, i: int, j: int|
                                    0 <= c < looped.1.len() && 0 <= i <= j < looped.1[c].len()
                                        implies #[trigger] looped.1[c][i] <= #[trigger] looped.1[c][j] by {
                                    if c == 0 {
                                        assert(looped.1[c] == t0);
                                    } else {
                                        assert(looped.1[c] == ts[c]);
                                    }
                                }
                            }
                        },
                        _ => {},
                    }
                    law_merge_keeps_tick_order(looped.0, looped.1);
                    let merged = spec_merge(looped.0, looped.1);
                    lemma_merge_same_length(looped.0, looped.1);
                    lemma_split(merged.0, merged.1, merged.0.len() as int);
                    assert(merged.1.take(merged.0.len() as int) =~= merged.1);
                },
            }
        },
    }
}

/// Puts a loop start event into a track at tick `loop_point`.
fn insert_loop_point(messages: &mut Vec<Message>, ticks: &mut Vec<i32>, loop_point: i32)
    requires
        old(messages)@.len() == old(ticks)@.len(),
    ensures
        (final(messages)@, final(ticks)@) == spec_insert_loop_point(
            old(messages)@,
            old(ticks)@,
            loop_point,
        ),
        final(messages)@.len() == final(ticks)@.len(),
{
    let n = ticks.len();
    if n > 0 && loop_point <= ticks[n - 1] {
        let mut i: usize = 0;
        while i < n
            invariant
                i <= n,
                n == ticks@.len(),
                n == messages@.len(),
                ticks@ == old(ticks)@,
                messages@ == old(messages)@,
                n > 0 && loop_point <= ticks@[n - 1],
                forall|j: int| 0 <= j < i ==> ticks@[j] < loop_point,
                spec_first_at_least(ticks@, loop_point as int, 0) == spec_first_at_least(
                    ticks@,
                    loop_point as int,
                    i as int,
                ),
            decreases n - i,
        {
            if ticks[i] >= loop_point {
                ticks.insert(i, loop_point);
                messages.insert(i, Message::LoopStart);
                return;
            }
            i += 1;
        }
        assert(ticks@[n - 1] < loop_point);
    } else {
        ticks.push(loop_point);
        messages.push(Message::LoopStart);
    }
}

/// Once reading the first `k` tracks fails, reading more tracks fails the same way.
proof fn lemma_tracks_fail(d: Seq<u8>, q: int, k: int, n: int, lt: MidiFileLoopType, sysex: Seq<Seq<u8>>)
    requires
        0 < k <= n,
        spec_tracks(d, q, k, lt, sysex) is Err,
    ensures
        spec_tracks(d, q, n, lt, sysex) == spec_tracks(d, q, k, lt, sysex),
    decreases n - k,
{
    if n > k {
        lemma_tracks_fail(d, q, k, n - 1, lt, sysex);
    }
}

/// Represents a standard MIDI file: its events merged from all tracks in order of their
/// ticks, the SysEx payloads the SysEx events point to, and its time division.
pub struct MidiFile {
    /// The events other than tempo changes, in order.
    pub messages: Vec<Message>,
    /// The tick of each event.
    pub ticks: Vec<i32>,
    /// The tempo changes, in order.
    pub tempo_changes: Vec<Tempo>,
    pub sysex_data: Vec<Vec<u8>>,
    pub time_division: TimeDivision,
}

impl MidiFile {
    /// Loads a MIDI file from its bytes.
    pub fn new(data: &[u8]) -> (r: Result<MidiFile, MidiFileError>)
        ensures
            spec_midi_file(data@, MidiFileLoopType::LoopPoint(0)) == match r {
                Ok(f) => Ok(
                    (
                        f.messages@,
                        f.ticks@,
                        f.tempo_changes@,
                        spec_payloads(f.sysex_data@),
                        f.time_division,
                    ),
                ),
                Err(e) => Err(e),
            },
    {
        MidiFile::new_with_loop_type(data, MidiFileLoopType::LoopPoint(0))
    }

    /// Loads a MIDI file from its bytes with a loop extension: `LoopPoint` gives the loop
    /// start by a tick value, the others name controllers that mark the loop points.
    pub fn new_with_loop_type(data: &[u8], loop_type: MidiFileLoopType) -> (r: Result<
        MidiFile,
        MidiFileError,
    >)
        ensures
            spec_midi_file(data@, loop_type) == match r {
                Ok(f) => Ok(
                    (
                        f.messages@,
                        f.ticks@,
                        f.tempo_changes@,
                        spec_payloads(f.sysex_data@),
                        f.time_division,
                    ),
                ),
                Err(e) => Err(e),
            },
    {
        let ghost d = data@;
        let mut reader = ByteReader::new(data);
        let header = read_header(&mut reader)?;
        let ghost q0 = reader.pos as int;
        let mut message_lists: Vec<Vec<Message>> = Vec::new();
        let mut tick_lists: Vec<Vec<i32>> = Vec::new();
        let mut sysex_data: Vec<Vec<u8>> = Vec::new();
        if header.track_count <= 0 {
            proof {
                assert(spec_with_loop_point(Seq::empty(), Seq::empty(), loop_type) == (
                    Seq::<Seq<Message>>::empty(),
                    Seq::<Seq<i32>>::empty(),
                ));
            }
            let message_lists: Vec<Vec<Message>> = Vec::new();
            let tick_lists: Vec<Vec<i32>> = Vec::new();
            assert(spec_views(message_lists@) =~= Seq::<Seq<Message>>::empty());
            assert(spec_views(tick_lists@) =~= Seq::<Seq<i32>>::empty());
            let (messages, ticks, tempo_changes) = merge_tracks(&message_lists, &tick_lists);
            assert(spec_payloads(sysex_data@) =~= Seq::<Seq<u8>>::empty());
            return Ok(
                MidiFile {
                    messages,
                    ticks,
                    tempo_changes,
                    sysex_data,
                    time_division: header.time_division,
                },
            );
        }
        let count: i32 = header.track_count;
        let mut i: i32 = 0;
        assert(spec_payloads(sysex_data@) =~= Seq::<Seq<u8>>::empty());
        assert(spec_views(message_lists@) =~= Seq::<Seq<Message>>::empty());
        assert(spec_views(tick_lists@) =~= Seq::<Seq<i32>>::empty());
        while i < count
            invariant
                reader.data@ == d,
                reader.pos <= d.len(),
                0 <= i <= count,
                count == header.track_count,
                d == data@,
                spec_midi_header(d) == Ok::<(MidiHeader, int), MidiFileError>((header, q0)),
                message_lists@.len() == tick_lists@.len(),
                forall|c: int|
                    0 <= c < tick_lists@.len() ==> (#[trigger] message_lists@[c])@.len()
                        == tick_lists@[c]@.len(),
                spec_tracks(d, q0, i as int, loop_type, Seq::empty()) == Ok::<
                    (Seq<Seq<Message>>, Seq<Seq<i32>>, Seq<Seq<u8>>, int),
                    MidiFileError,
                >(
                    (
                        spec_views(message_lists@),
                        spec_views(tick_lists@),
                        spec_payloads(sysex_data@),
                        reader.pos as int,
                    ),
                ),
            decreases count - i,
        {
            let ghost pos_before = reader.pos as int;
            let ghost sysex_before = spec_payloads(sysex_data@);
            let read = read_track(&mut reader, loop_type, &mut sysex_data);
            let (messages, ticks) = match read {
                Ok(v) => v,
                Err(e) => {
                    proof {
                        assert(spec_track(d, pos_before, loop_type, sysex_before) == Err::<
                            (Seq<Message>, Seq<i32>, Seq<Seq<u8>>, int),
                            MidiFileError,
                        >(e));
                        assert(spec_tracks(d, q0, i + 1, loop_type, Seq::empty()) == Err::<
                            (Seq<Seq<Message>>, Seq<Seq<i32>>, Seq<Seq<u8>>, int),
                            MidiFileError,
                        >(e));
                        lemma_tracks_fail(d, q0, i + 1, header.track_count as int, loop_type, Seq::empty());
                    }
                    return Err(e);
                },
            };
            let ghost pm = spec_views(message_lists@);
            let ghost pt = spec_views(tick_lists@);
            let ghost mv = messages@;
            let ghost tv = ticks@;
            message_lists.push(messages);
            tick_lists.push(ticks);
            i += 1;
            assert(spec_views(message_lists@) =~= pm.push(mv));
            assert(spec_views(tick_lists@) =~= pt.push(tv));
        }
        let ghost ms = spec_views(message_lists@);
        let ghost ts = spec_views(tick_lists@);
        match loop_type {
            MidiFileLoopType::LoopPoint(loop_point) => {
                if loop_point != 0 && message_lists.len() > 0 {
                    let ghost lists_m = message_lists@;
                    let ghost lists_t = tick_lists@;
                    let mut first_messages = message_lists.remove(0);
                    let mut first_ticks = tick_lists.remove(0);
                    assert(first_messages@ == ms[0] && first_ticks@ == ts[0]);
                    insert_loop_point(&mut first_messages, &mut first_ticks, loop_point as i32);
                    let ghost inserted = (first_messages@, first_ticks@);
                    message_lists.insert(0, first_messages);
                    tick_lists.insert(0, first_ticks);
                    assert(spec_views(message_lists@) =~= ms.update(0, inserted.0));
                    assert(spec_views(tick_lists@) =~= ts.update(0, inserted.1));
                    assert forall|c: int| 0 <= c < tick_lists@.len() implies (
                    #[trigger] message_lists@[c])@.len() == tick_lists@[c]@.len() by {
                        if c > 0 {
                            assert(message_lists@[c] == lists_m[c]);
                            assert(tick_lists@[c] == lists_t[c]);
                        }
                    }
                }
            },
            _ => {},
        }
        assert((spec_views(message_lists@), spec_views(tick_lists@)) == spec_with_loop_point(
            ms,
            ts,
            loop_type,
        ));
        let (messages, ticks, tempo_changes) = merge_tracks(&message_lists, &tick_lists);
        Ok(MidiFile { messages, ticks, tempo_changes, sysex_data, time_division: header.time_division })
    }
}

/// Program change (Cn) and channel pressure (Dn) carry one data byte, the other channel
/// messages (8n, 9n, An, Bn, En) two, whether the status byte is given or running: a
/// one-byte message takes the next byte as its data, with a second data byte of 0, and
/// reading goes on right after it.
pub proof fn law_channel_message_data_bytes(
    d: Seq<u8>,
    lt: MidiFileLoopType,
    q: int,
    t: i32,
    status: u8,
    pend: Option<Seq<u8>>,
    o: TrackOut,
)
    requires
        0 <= q,
    ensures
        (status & 0xF0 == 0xC0 || status & 0xF0 == 0xD0) && q < d.len() ==> spec_status_step(
            d,
            lt,
            q,
            t,
            status,
            pend,
            o,
        ) == TrackStep::Next(
            q + 1,
            t,
            status,
            pend,
            spec_push(o, Message::Normal { status, data1: d[q], data2: 0 }, t),
        ),
        (status & 0xF0 == 0xC0 || status & 0xF0 == 0xD0) && 0 <= q - 1 < d.len() ==> spec_running_step(
            d,
            lt,
            q,
            t,
            status,
            d[q - 1],
            pend,
            o,
        ) == TrackStep::Next(
            q,
            t,
            status,
            pend,
            spec_push(o, Message::Normal { status, data1: d[q - 1], data2: 0 }, t),
        ),
        (status & 0xF0 == 0x80 || status & 0xF0 == 0x90 || status & 0xF0 == 0xA0 || status & 0xF0
            == 0xB0 || status & 0xF0 == 0xE0) && q + 1 < d.len() ==> spec_status_step(
            d,
            lt,
            q,
            t,
            status,
            pend,
            o,
        ) == TrackStep::Next(
            q + 2,
            t,
            status,
            pend,
            spec_push(o, spec_common2(status, d[q], d[q + 1], lt), t),
        ),
        (status & 0xF0 == 0x80 || status & 0xF0 == 0x90 || status & 0xF0 == 0xA0 || status & 0xF0
            == 0xB0 || status & 0xF0 == 0xE0) && 0 <= q - 1 && q < d.len() ==> spec_running_step(
            d,
            lt,
            q,
            t,
            status,
            d[q - 1],
            pend,
            o,
        ) == TrackStep::Next(
            q + 1,
            t,
            status,
            pend,
            spec_push(o, spec_common2(status, d[q - 1], d[q], lt), t),
        ),
{
}

} // verus!
