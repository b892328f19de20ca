//! Bag records (SF2.04 PBAG/IBAG, sections 7.4 and 7.8): where each zone's
//! generators and modulators start.

use vstd::prelude::*;

use crate::binary_reader::{spec_u16_le, ByteReader};
use crate::error::SoundFontError;

verus! {

/// The generator and modulator span of one zone.
#[derive(Clone, Copy, Debug, PartialEq, Eq, Structural)]
pub struct ZoneInfo {
    pub generator_index: i32,
    pub generator_count: i32,
    pub modulator_index: i32,
    pub modulator_count: i32,
}

/// The zone info for record `i` of a bag sub-chunk of `count` records at `p`: each span
/// ends where the next record's starts, and the terminal record's is empty.
pub open spec fn spec_zone_info_at(d: Seq<u8>, p: int, count: int, i: int) -> ZoneInfo {
    let gi = spec_u16_le(d, p + 4 * i) as i32;
    let mi = spec_u16_le(d, p + 4 * i + 2) as i32;
    if i < count - 1 {
        ZoneInfo {
            generator_index: gi,
            generator_count: (spec_u16_le(d, p + 4 * (i + 1)) - gi) as i32,
            modulator_index: mi,
            modulator_count: (spec_u16_le(d, p + 4 * (i + 1) + 2) - mi) as i32,
        }
    } else {
        ZoneInfo { generator_index: gi, generator_count: 0, modulator_index: mi, modulator_count: 0 }
    }
}

impl ZoneInfo {
    /// Reads a PBAG/IBAG sub-chunk of `size` bytes, terminal record included.
    pub fn read_from_chunk(reader: &mut ByteReader, size: usize) -> (r: Result<
        Vec<ZoneInfo>,
        SoundFontError,
    >)
        requires
            old(reader).pos <= old(reader).data@.len(),
        ensures
            final(reader).data == old(reader).data,
            final(reader).pos <= final(reader).data@.len(),
            (size % 4 != 0 || size == 0) ==> r == Err::<Vec<ZoneInfo>, SoundFontError>(
                SoundFontError::InvalidZoneList,
            ),
            (size % 4 == 0 && size > 0 && old(reader).remaining() < size) ==> r == Err::<
                Vec<ZoneInfo>,
                SoundFontError,
            >(SoundFontError::UnexpectedEndOfData),
            (size % 4 == 0 && size > 0 && old(reader).remaining() >= size) ==> {
                &&& r is Ok
                &&& final(reader).pos == old(reader).pos + size
                &&& r->Ok_0@.len() == size / 4
                &&& forall|i: int|
                    0 <= i < r->Ok_0@.len() ==> #[trigger] r->Ok_0@[i] == spec_zone_info_at(
                        old(reader).data@,
                        old(reader).pos as int,
                        (size / 4) as int,
                        i,
                    )
            },
    {
        if size % 4 != 0 || size == 0 {
            return Err(SoundFontError::InvalidZoneList);
        }
        if reader.bytes_left() < size {
            return Err(SoundFontError::UnexpectedEndOfData);
        }
        let count = size / 4;
        let start = reader.pos;
        let ghost d = reader.data@;
        let mut raw: Vec<(u16, u16)> = Vec::new();
        let mut i: usize = 0;
        while i < count
            invariant
                i <= count,
                count == size / 4,
                size % 4 == 0,
                reader.data == old(reader).data,
                d == reader.data@,
                start == old(reader).pos,
                start + size <= d.len(),
                reader.pos == start + 4 * i,
                raw@.len() == i,
                forall|k: int|
                    0 <= k < i ==> #[trigger] raw@[k] == (
                        spec_u16_le(d, start + 4 * k),
                        spec_u16_le(d, start + 4 * k + 2),
                    ),
            decreases count - i,
        {
            let generator_index = reader.read_u16().unwrap();
            let modulator_index = reader.read_u16().unwrap();
            raw.push((generator_index, modulator_index));
            i += 1;
        }
        let mut zones: Vec<ZoneInfo> = Vec::new();
        let mut j: usize = 0;
        while j < count
            invariant
                j <= count,
                count == size / 4,
                raw@.len() == count,
                forall|k: int|
                    0 <= k < count ==> #[trigger] raw@[k] == (
                        spec_u16_le(d, start + 4 * k),
                        spec_u16_le(d, start + 4 * k + 2),
                    ),
                zones@.len() == j,
                forall|k: int|
                    0 <= k < j ==> #[trigger] zones@[k] == spec_zone_info_at(
                        d,
                        start as int,
                        count as int,
                        k,
                    ),
            decreases count - j,
        {
            let (gi, mi) = raw[j];
            let info = if j + 1 < count {
                let (next_gi, next_mi) = raw[j + 1];
                ZoneInfo {
                    generator_index: gi as i32,
                    generator_count: next_gi as i32 - gi as i32,
                    modulator_index: mi as i32,
                    modulator_count: next_mi as i32 - mi as i32,
                }
            } else {
                ZoneInfo {
                    generator_index: gi as i32,
                    generator_count: 0,
                    modulator_index: mi as i32,
                    modulator_count: 0,
                }
            };
            zones.push(info);
            j += 1;
        }
        Ok(zones)
    }
}

} // verus!
