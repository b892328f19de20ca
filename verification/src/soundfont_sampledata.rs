//! The sdta list of a SoundFont (SF2.04 section 6): the 16-bit sample data.

use vstd::prelude::*;

use crate::binary_reader::{spec_four_cc, spec_u16_le, u16_le_at, ByteReader};
use crate::error::SoundFontError;
use crate::four_cc::{code, FourCC};
use crate::soundfont_info::{
    advance_counter,
    read_chunk_header,
    read_list_header,
    spec_chunk_size,
    spec_counter_ok,
    spec_list_header,
};

verus! {

/// The `n` signed little-endian 16-bit samples at `p`.
pub open spec fn spec_samples(d: Seq<u8>, p: int, n: int) -> Seq<i16> {
    Seq::new(n as nat, |i: int| spec_u16_le(d, p + 2 * i) as i16)
}

/// `smpl`: the 16-bit samples.
pub open spec fn spec_smpl_id() -> FourCC {
    code(0x73, 0x6d, 0x70, 0x6c)
}

/// `sm24`: the low bytes of 24-bit samples, which are not used.
pub open spec fn spec_sm24_id() -> FourCC {
    code(0x73, 0x6d, 0x32, 0x34)
}

/// The sub-chunks of an sdta list, read from `q` while the list's byte counter `pos` is
/// below `end`: the samples of the last `smpl` sub-chunk (`acc` if there is none), and
/// where reading stopped. A `smpl` sub-chunk of odd size leaves its last byte unread.
pub open spec fn spec_sdta_chunks(
    d: Seq<u8>,
    q: int,
    pos: int,
    end: int,
    acc: Option<Seq<i16>>,
) -> Result<(Option<Seq<i16>>, int), SoundFontError>
    decreases d.len() - q,
{
    if pos >= end {
        Ok((acc, q))
    } else if q < 0 || d.len() < q + 8 {
        Err(SoundFontError::UnexpectedEndOfData)
    } else {
        let id = spec_four_cc(d, q);
        let size = spec_chunk_size(d, q);
        if id == spec_smpl_id() {
            let n = size / 2;
            if size < 0 || d.len() < q + 8 + 2 * n || !spec_counter_ok(pos, size) {
                Err(SoundFontError::UnexpectedEndOfData)
            } else {
                spec_sdta_chunks(
                    d,
                    q + 8 + 2 * n,
                    pos + 8 + size,
                    end,
                    Some(spec_samples(d, q + 8, n)),
                )
            }
        } else if id == spec_sm24_id() {
            if size < 0 || d.len() < q + 8 + size || !spec_counter_ok(pos, size) {
                Err(SoundFontError::UnexpectedEndOfData)
            } else {
                spec_sdta_chunks(d, q + 8 + size, pos + 8 + size, end, acc)
            }
        } else {
            Err(SoundFontError::ListContainsUnknownId(id))
        }
    }
}

/// The sdta list at `p`: its samples and where it ends, or why it cannot be read. A
/// list without samples, or whose `smpl` sub-chunk is empty, has no sample data.
pub open spec fn spec_sample_data(d: Seq<u8>, p: int) -> Result<(Seq<i16>, int), SoundFontError> {
    match spec_list_header(d, p, code(0x73, 0x64, 0x74, 0x61)) {
        Ok((end, q)) => spec_nonempty_samples(spec_sdta_chunks(d, q, 4, end, None)),
        Err(e) => Err(e),
    }
}

/// The samples an sdta list yields once its sub-chunks are read: none, or none in the
/// last `smpl` sub-chunk, is an error.
pub open spec fn spec_nonempty_samples(r: Result<(Option<Seq<i16>>, int), SoundFontError>) -> Result<
    (Seq<i16>, int),
    SoundFontError,
> {
    match r {
        Ok((Some(w), q)) => if w.len() > 0 {
            Ok((w, q))
        } else {
            Err(SoundFontError::SampleDataNotFound)
        },
        Ok((None, _)) => Err(SoundFontError::SampleDataNotFound),
        Err(e) => Err(e),
    }
}

/// Reads `n` samples at the reader's position, which must hold them.
fn read_samples(reader: &mut ByteReader, n: usize) -> (r: Vec<i16>)
    requires
        old(reader).pos <= old(reader).data@.len(),
        old(reader).remaining() >= 2 * n,
    ensures
        final(reader).data == old(reader).data,
        final(reader).pos == old(reader).pos + 2 * n,
        r@ == spec_samples(old(reader).data@, old(reader).pos as int, n as int),
{
    let start = reader.pos;
    let len = reader.data.len();
    let mut samples: Vec<i16> = Vec::new();
    let mut i: usize = 0;
    while i < n
        invariant
            i <= n,
            reader.data == old(reader).data,
            reader.pos == start,
            start == old(reader).pos,
            len == reader.data@.len(),
            start + 2 * n <= len,
            samples@ == spec_samples(reader.data@, start as int, i as int),
        decreases n - i,
    {
        let v = u16_le_at(reader.data, start + 2 * i) as i16;
        samples.push(v);
        i += 1;
        assert(samples@ =~= spec_samples(reader.data@, start as int, i as int));
    }
    reader.discard_data(2 * n).unwrap();
    samples
}

/// Reads the sdta list at the reader's position and returns its 16-bit samples.
pub fn read_sample_data(reader: &mut ByteReader) -> (r: Result<Vec<i16>, SoundFontError>)
    requires
        old(reader).pos <= old(reader).data@.len(),
    ensures
        final(reader).data == old(reader).data,
        final(reader).pos <= final(reader).data@.len(),
        spec_sample_data(old(reader).data@, old(reader).pos as int) == match r {
            Ok(w) => Ok((w@, final(reader).pos as int)),
            Err(e) => Err(e),
        },
{
    let ghost d = reader.data@;
    let end = read_list_header(reader, FourCC { b0: 0x73, b1: 0x64, b2: 0x74, b3: 0x61 })?;
    let ghost q0 = reader.pos as int;
    assert(spec_sample_data(d, old(reader).pos as int) == spec_nonempty_samples(
        spec_sdta_chunks(d, q0, 4, end as int, None),
    ));
    let mut wave_data: Option<Vec<i16>> = None;
    let mut pos: i32 = 4;
    while pos < end
        invariant
            reader.data == old(reader).data,
            reader.data@ == d,
            reader.pos <= d.len(),
            spec_sample_data(d, old(reader).pos as int) == spec_nonempty_samples(
                spec_sdta_chunks(d, q0, 4, end as int, None),
            ),
            spec_sdta_chunks(d, q0, 4, end as int, None) == spec_sdta_chunks(
                d,
                reader.pos as int,
                pos as int,
                end as int,
                match wave_data {
                    Some(w) => Some(w@),
                    None => None,
                },
            ),
        decreases d.len() - reader.pos,
    {
        let (id, size) = match read_chunk_header(reader) {
            Some(h) => h,
            None => return Err(SoundFontError::UnexpectedEndOfData),
        };
        if id == (FourCC { b0: 0x73, b1: 0x6d, b2: 0x70, b3: 0x6c }) {
            if size < 0 {
                return Err(SoundFontError::UnexpectedEndOfData);
            }
            let n = size as usize / 2;
            if reader.bytes_left() / 2 < n {
                return Err(SoundFontError::UnexpectedEndOfData);
            }
            let next = match advance_counter(pos, size) {
                Some(v) => v,
                None => return Err(SoundFontError::UnexpectedEndOfData),
            };
            let samples = read_samples(reader, n);
            wave_data = Some(samples);
            pos = next;
        } else if id == (FourCC { b0: 0x73, b1: 0x6d, b2: 0x32, b3: 0x34 }) {
            if size < 0 {
                return Err(SoundFontError::UnexpectedEndOfData);
            }
            let sz = size as usize;
            if reader.bytes_left() < sz {
                return Err(SoundFontError::UnexpectedEndOfData);
            }
            let next = match advance_counter(pos, size) {
                Some(v) => v,
                None => return Err(SoundFontError::UnexpectedEndOfData),
            };
            reader.discard_data(sz).unwrap();
            pos = next;
        } else {
            return Err(SoundFontError::ListContainsUnknownId(id));
        }
    }
    match wave_data {
        Some(w) => {
            if w.len() > 0 {
                Ok(w)
            } else {
                Err(SoundFontError::SampleDataNotFound)
            }
        },
        None => Err(SoundFontError::SampleDataNotFound),
    }
}

} // verus!
