//! Instrument headers (SF2.04 INST, section 7.6).

use vstd::prelude::*;

use crate::binary_reader::{spec_u16_le, u16_le_at, ByteReader};
use crate::error::SoundFontError;
use crate::fixed_string::{read_fixed_length_string, spec_fixed_string};

verus! {

/// An instrument header: its name and the span of its zones in the IBAG list.
#[derive(Debug)]
pub struct InstrumentInfo {
    pub name: String,
    pub zone_start_index: i32,
    pub zone_end_index: i32,
}

/// `info` is record `i` of an INST sub-chunk of `count` records at `p`; its zones end
/// right before the next instrument's, and the terminal record's end is 0.
pub open spec fn spec_instrument_info_at(
    info: InstrumentInfo,
    d: Seq<u8>,
    p: int,
    count: int,
    i: int,
) -> bool {
    &&& info.name@ == spec_fixed_string(d, p + 22 * i, 20)
    &&& info.zone_start_index == spec_u16_le(d, p + 22 * i + 20) as i32
    &&& info.zone_end_index == if i < count - 1 {
        spec_u16_le(d, p + 22 * (i + 1) + 20) - 1
    } else {
        0
    }
}

impl InstrumentInfo {
    /// Reads an INST sub-chunk of `size` bytes, terminal record included.
    pub fn read_from_chunk(reader: &mut ByteReader, size: usize) -> (r: Result<
        Vec<InstrumentInfo>,
        SoundFontError,
    >)
        requires
            old(reader).pos <= old(reader).data@.len(),
        ensures
            final(reader).data == old(reader).data,
            final(reader).pos <= final(reader).data@.len(),
            (size % 22 != 0 || size == 0) ==> r is Err && r->Err_0
                == SoundFontError::InvalidInstrumentList,
            (size % 22 == 0 && size > 0 && old(reader).remaining() < size) ==> r is Err
                && r->Err_0 == SoundFontError::UnexpectedEndOfData,
            (size % 22 == 0 && size > 0 && old(reader).remaining() >= size) ==> {
                &&& r is Ok
                &&& final(reader).pos == old(reader).pos + size
                &&& r->Ok_0@.len() == size / 22
                &&& forall|i: int|
                    0 <= i < r->Ok_0@.len() ==> spec_instrument_info_at(
                        #[trigger] r->Ok_0@[i],
                        old(reader).data@,
                        old(reader).pos as int,
                        (size / 22) as int,
                        i,
                    )
            },
    {
        if size % 22 != 0 || size == 0 {
            return Err(SoundFontError::InvalidInstrumentList);
        }
        if reader.bytes_left() < size {
            return Err(SoundFontError::UnexpectedEndOfData);
        }
        let count = size / 22;
        let start = reader.pos;
        let ghost d = reader.data@;
        let n = reader.data.len();
        let mut infos: Vec<InstrumentInfo> = Vec::new();
        let mut i: usize = 0;
        while i < count
            invariant
                i <= count,
                count == size / 22,
                size % 22 == 0,
                reader.data == old(reader).data,
                d == reader.data@,
                start == old(reader).pos,
                start + size <= d.len(),
                n == d.len(),
                reader.pos == start + 22 * i,
                infos@.len() == i,
                forall|k: int|
                    0 <= k < i ==> spec_instrument_info_at(
                        #[trigger] infos@[k],
                        d,
                        start as int,
                        count as int,
                        k,
                    ),
            decreases count - i,
        {
            let name = read_fixed_length_string(reader.data, reader.pos, 20);
            reader.discard_data(20).unwrap();
            let zone_start_index = reader.read_u16().unwrap() as i32;
            let zone_end_index = if i + 1 < count {
                u16_le_at(reader.data, start + 22 * (i + 1) + 20) as i32 - 1
            } else {
                0
            };
            infos.push(InstrumentInfo { name, zone_start_index, zone_end_index });
            i += 1;
        }
        Ok(infos)
    }
}

} // verus!
