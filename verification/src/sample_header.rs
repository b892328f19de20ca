//! Sample headers (SF2.04 SHDR, section 7.10).

use vstd::prelude::*;

use crate::binary_reader::{spec_u16_le, spec_u32_le, ByteReader};
use crate::error::SoundFontError;
use crate::fixed_string::{read_fixed_length_string, spec_fixed_string};

verus! {

/// Represents a sample in the SoundFont.
#[derive(Debug)]
pub struct SampleHeader {
    pub name: String,
    pub start: i32,
    pub end: i32,
    pub start_loop: i32,
    pub end_loop: i32,
    pub sample_rate: i32,
    pub original_pitch: u8,
    pub pitch_correction: i8,
    pub link: u16,
    pub sample_type: u16,
}

/// `h` is the sample header record stored at `p`.
pub open spec fn spec_sample_header_at(h: SampleHeader, d: Seq<u8>, p: int) -> bool {
    &&& h.name@ == spec_fixed_string(d, p, 20)
    &&& h.start == spec_u32_le(d, p + 20) as i32
    &&& h.end == spec_u32_le(d, p + 24) as i32
    &&& h.start_loop == spec_u32_le(d, p + 28) as i32
    &&& h.end_loop == spec_u32_le(d, p + 32) as i32
    &&& h.sample_rate == spec_u32_le(d, p + 36) as i32
    &&& h.original_pitch == d[p + 40]
    &&& h.pitch_correction == d[p + 41] as i8
    &&& h.link == spec_u16_le(d, p + 42)
    &&& h.sample_type == spec_u16_le(d, p + 44)
}

impl SampleHeader {
    /// Reads one 46-byte record.
    fn read(reader: &mut ByteReader) -> (h: SampleHeader)
        requires
            old(reader).pos <= old(reader).data@.len(),
            old(reader).remaining() >= 46,
        ensures
            final(reader).data == old(reader).data,
            final(reader).pos == old(reader).pos + 46,
            spec_sample_header_at(h, old(reader).data@, old(reader).pos as int),
    {
        let name = read_fixed_length_string(reader.data, reader.pos, 20);
        reader.discard_data(20).unwrap();
        let start = reader.read_i32().unwrap();
        let end = reader.read_i32().unwrap();
        let start_loop = reader.read_i32().unwrap();
        let end_loop = reader.read_i32().unwrap();
        let sample_rate = reader.read_i32().unwrap();
        let original_pitch = reader.read_u8().unwrap();
        let pitch_correction = reader.read_u8().unwrap() as i8;
        let link = reader.read_u16().unwrap();
        let sample_type = reader.read_u16().unwrap();
        SampleHeader {
            name,
            start,
            end,
            start_loop,
            end_loop,
            sample_rate,
            original_pitch,
            pitch_correction,
            link,
            sample_type,
        }
    }

    /// Reads a SHDR sub-chunk of `size` bytes, without its terminal record.
    pub fn read_from_chunk(reader: &mut ByteReader, size: usize) -> (r: Result<
        Vec<SampleHeader>,
        SoundFontError,
    >)
        requires
            old(reader).pos <= old(reader).data@.len(),
        ensures
            final(reader).data == old(reader).data,
            final(reader).pos <= final(reader).data@.len(),
            (size % 46 != 0 || size == 0) ==> r is Err && r->Err_0
                == SoundFontError::InvalidSampleHeaderList,
            (size % 46 == 0 && size > 0 && old(reader).remaining() < size) ==> r is Err
                && r->Err_0 == SoundFontError::UnexpectedEndOfData,
            (size % 46 == 0 && size > 0 && old(reader).remaining() >= size) ==> {
                &&& r is Ok
                &&& final(reader).pos == old(reader).pos + size
                &&& r->Ok_0@.len() == size / 46 - 1
                &&& forall|i: int|
                    0 <= i < r->Ok_0@.len() ==> spec_sample_header_at(
                        #[trigger] r->Ok_0@[i],
                        old(reader).data@,
                        old(reader).pos + 46 * i,
                    )
            },
    {
        if size % 46 != 0 || size == 0 {
            return Err(SoundFontError::InvalidSampleHeaderList);
        }
        if reader.bytes_left() < size {
            return Err(SoundFontError::UnexpectedEndOfData);
        }
        let count = size / 46 - 1;
        let start = reader.pos;
        let ghost d = reader.data@;
        let mut headers: Vec<SampleHeader> = Vec::new();
        let mut i: usize = 0;
        while i < count
            invariant
                i <= count,
                count == size / 46 - 1,
                size % 46 == 0,
                reader.data == old(reader).data,
                d == reader.data@,
                start == old(reader).pos,
                start + size <= d.len(),
                reader.pos == start + 46 * i,
                headers@.len() == i,
                forall|k: int|
                    0 <= k < i ==> spec_sample_header_at(#[trigger] headers@[k], d, start + 46 * k),
            decreases count - i,
        {
            let h = SampleHeader::read(reader);
            headers.push(h);
            i += 1;
        }
        // The last one is the terminator.
        reader.discard_data(46).unwrap();
        Ok(headers)
    }

    /// The name of the sample.
    pub fn get_name(&self) -> (r: &str)
        ensures
            r@ == self.name@,
    {
        self.name.as_str()
    }

    /// The start point of the sample in the sample data.
    pub fn get_start(&self) -> (r: i32)
        ensures
            r == self.start,
    {
        self.start
    }

    /// The end point of the sample in the sample data.
    pub fn get_end(&self) -> (r: i32)
        ensures
            r == self.end,
    {
        self.end
    }

    /// The loop start point of the sample in the sample data.
    pub fn get_start_loop(&self) -> (r: i32)
        ensures
            r == self.start_loop,
    {
        self.start_loop
    }

    /// The loop end point of the sample in the sample data.
    pub fn get_end_loop(&self) -> (r: i32)
        ensures
            r == self.end_loop,
    {
        self.end_loop
    }

    /// The sample rate of the sample.
    pub fn get_sample_rate(&self) -> (r: i32)
        ensures
            r == self.sample_rate,
    {
        self.sample_rate
    }

    /// The key number of the recorded pitch of the sample.
    pub fn get_original_pitch(&self) -> (r: u8)
        ensures
            r == self.original_pitch,
    {
        self.original_pitch
    }

    /// The pitch correction in cents that should be applied to the sample on playback.
    pub fn get_pitch_correction(&self) -> (r: i8)
        ensures
            r == self.pitch_correction,
    {
        self.pitch_correction
    }

    /// The sample index of the other channel of a stereo sample.
    pub fn get_link(&self) -> (r: u16)
        ensures
            r == self.link,
    {
        self.link
    }

    /// The sample type flags.
    pub fn get_sample_type(&self) -> (r: u16)
        ensures
            r == self.sample_type,
    {
        self.sample_type
    }
}

} // verus!
