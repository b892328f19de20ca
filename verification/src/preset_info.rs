//! Preset headers (SF2.04 PHDR, section 7.2).

use vstd::prelude::*;

use crate::binary_reader::{spec_u16_le, spec_u32_le, u16_le_at, ByteReader};
use crate::error::SoundFontError;
use crate::fixed_string::{read_fixed_length_string, spec_fixed_string};

verus! {

/// A preset header: its name, MIDI bank and patch, and the span of its zones in PBAG.
#[derive(Debug)]
pub struct PresetInfo {
    pub name: String,
    pub patch_number: i32,
    pub bank_number: i32,
    pub zone_start_index: i32,
    pub zone_end_index: i32,
    pub library: i32,
    pub genre: i32,
    pub morphology: i32,
}

/// `info` is record `i` of a PHDR sub-chunk of `count` records at `p`; its zones end
/// right before the next preset's, and the terminal record's end is 0.
pub open spec fn spec_preset_info_at(info: PresetInfo, d: Seq<u8>, p: int, count: int, i: int) -> bool {
    let q = p + 38 * i;
    &&& info.name@ == spec_fixed_string(d, q, 20)
    &&& info.patch_number == spec_u16_le(d, q + 20) as i32
    &&& info.bank_number == spec_u16_le(d, q + 22) as i32
    &&& info.zone_start_index == spec_u16_le(d, q + 24) as i32
    &&& info.zone_end_index == if i < count - 1 {
        spec_u16_le(d, p + 38 * (i + 1) + 24) - 1
    } else {
        0
    }
    &&& info.library == spec_u32_le(d, q + 26) as i32
    &&& info.genre == spec_u32_le(d, q + 30) as i32
    &&& info.morphology == spec_u32_le(d, q + 34) as i32
}

impl PresetInfo {
    /// Reads a PHDR sub-chunk of `size` bytes, terminal record included.
    pub fn read_from_chunk(reader: &mut ByteReader, size: usize) -> (r: Result<
        Vec<PresetInfo>,
        SoundFontError,
    >)
        requires
            old(reader).pos <= old(reader).data@.len(),
        ensures
            final(reader).data == old(reader).data,
            final(reader).pos <= final(reader).data@.len(),
            (size % 38 != 0 || size == 0) ==> r is Err && r->Err_0
                == SoundFontError::InvalidPresetList,
            (size % 38 == 0 && size > 0 && old(reader).remaining() < size) ==> r is Err
                && r->Err_0 == SoundFontError::UnexpectedEndOfData,
            (size % 38 == 0 && size > 0 && old(reader).remaining() >= size) ==> {
                &&& r is Ok
                &&& final(reader).pos == old(reader).pos + size
                &&& r->Ok_0@.len() == size / 38
                &&& forall|i: int|
                    0 <= i < r->Ok_0@.len() ==> spec_preset_info_at(
                        #[trigger] r->Ok_0@[i],
                        old(reader).data@,
                        old(reader).pos as int,
                        (size / 38) as int,
                        i,
                    )
            },
    {
        if size % 38 != 0 || size == 0 {
            return Err(SoundFontError::InvalidPresetList);
        }
        if reader.bytes_left() < size {
            return Err(SoundFontError::UnexpectedEndOfData);
        }
        let count = size / 38;
        let start = reader.pos;
        let ghost d = reader.data@;
        let n = reader.data.len();
        let mut infos: Vec<PresetInfo> = Vec::new();
        let mut i: usize = 0;
        while i < count
            invariant
                i <= count,
                count == size / 38,
                size % 38 == 0,
                reader.data == old(reader).data,
                d == reader.data@,
                start == old(reader).pos,
                start + size <= d.len(),
                n == d.len(),
                reader.pos == start + 38 * i,
                infos@.len() == i,
                forall|k: int|
                    0 <= k < i ==> spec_preset_info_at(
                        #[trigger] infos@[k],
                        d,
                        start as int,
                        count as int,
                        k,
                    ),
            decreases count - i,
        {
            let name = read_fixed_length_string(reader.data, reader.pos, 20);
            reader.discard_data(20).unwrap();
            let patch_number = reader.read_u16().unwrap() as i32;
            let bank_number = reader.read_u16().unwrap() as i32;
            let zone_start_index = reader.read_u16().unwrap() as i32;
            let library = reader.read_i32().unwrap();
            let genre = reader.read_i32().unwrap();
            let morphology = reader.read_i32().unwrap();
            let zone_end_index = if i + 1 < count {
                u16_le_at(reader.data, start + 38 * (i + 1) + 24) as i32 - 1
            } else {
                0
            };
            infos.push(
                PresetInfo {
                    name,
                    patch_number,
                    bank_number,
                    zone_start_index,
                    zone_end_index,
                    library,
                    genre,
                    morphology,
                },
            );
            i += 1;
        }
        Ok(infos)
    }
}

} // verus!
