//! Generator records (SF2.04 PGEN/IGEN, section 7.5 and 7.9).

use vstd::prelude::*;

use crate::binary_reader::{spec_u16_le, ByteReader};
use crate::error::SoundFontError;

verus! {

/// A generator record: a generator number and its 16-bit amount.
#[derive(Clone, Copy, Debug, PartialEq, Eq, Structural)]
pub struct Generator {
    pub generator_type: u16,
    pub value: i16,
}

/// The generator record stored at `p`.
pub open spec fn spec_generator_at(d: Seq<u8>, p: int) -> Generator {
    Generator { generator_type: spec_u16_le(d, p), value: spec_u16_le(d, p + 2) as i16 }
}

impl Generator {
    /// Reads a PGEN/IGEN sub-chunk of `size` bytes, without its terminal record.
    pub fn read_from_chunk(reader: &mut ByteReader, size: usize) -> (r: Result<
        Vec<Generator>,
        SoundFontError,
    >)
        requires
            old(reader).pos <= old(reader).data@.len(),
        ensures
            final(reader).data == old(reader).data,
            final(reader).pos <= final(reader).data@.len(),
            (size % 4 != 0 || size == 0) ==> r == Err::<Vec<Generator>, SoundFontError>(
                SoundFontError::InvalidGeneratorList,
            ),
            (size % 4 == 0 && size > 0 && old(reader).remaining() < size) ==> r == Err::<
                Vec<Generator>,
                SoundFontError,
            >(SoundFontError::UnexpectedEndOfData),
            (size % 4 == 0 && size > 0 && old(reader).remaining() >= size) ==> {
                &&& r is Ok
                &&& final(reader).pos == old(reader).pos + size
                &&& r->Ok_0@.len() == size / 4 - 1
                &&& forall|i: int|
                    0 <= i < r->Ok_0@.len() ==> #[trigger] r->Ok_0@[i] == spec_generator_at(
                        old(reader).data@,
                        old(reader).pos + 4 * i,
                    )
            },
    {
        if size % 4 != 0 || size == 0 {
            return Err(SoundFontError::InvalidGeneratorList);
        }
        if reader.bytes_left() < size {
            return Err(SoundFontError::UnexpectedEndOfData);
        }
        let count = size / 4 - 1;
        let start = reader.pos;
        let ghost d = reader.data@;
        let mut generators: Vec<Generator> = Vec::new();
        let mut i: usize = 0;
        while i < count
            invariant
                i <= count,
                count == size / 4 - 1,
                size % 4 == 0,
                reader.data == old(reader).data,
                d == reader.data@,
                start == old(reader).pos,
                start + size <= d.len(),
                reader.pos == start + 4 * i,
                generators@.len() == i,
                forall|k: int|
                    0 <= k < i ==> #[trigger] generators@[k] == spec_generator_at(d, start + 4 * k),
            decreases count - i,
        {
            let generator_type = reader.read_u16().unwrap();
            let value = reader.read_i16().unwrap();
            generators.push(Generator { generator_type, value });
            i += 1;
        }
        // The last one is the terminator.
        reader.discard_data(4).unwrap();
        Ok(generators)
    }
}


/// Sets the slot a generator names, ignoring generator numbers past the end.
pub open spec fn spec_set_generator(gs: Seq<i16>, g: Generator) -> Seq<i16> {
    if (g.generator_type as int) < gs.len() {
        gs.update(g.generator_type as int, g.value)
    } else {
        gs
    }
}

/// The generator slots after applying a list of generators in order.
pub open spec fn spec_apply_generators(gs: Seq<i16>, generators: Seq<Generator>) -> Seq<i16>
    decreases generators.len(),
{
    if generators.len() == 0 {
        gs
    } else {
        spec_set_generator(spec_apply_generators(gs, generators.drop_last()), generators.last())
    }
}

/// Applies a list of generators to the generator slots of a region, in order; a later
/// generator for the same slot wins, and unknown generators are ignored.
pub fn apply_generators(gs: &mut Vec<i16>, generators: &[Generator])
    ensures
        final(gs)@ == spec_apply_generators(old(gs)@, generators@),
{
    let mut i: usize = 0;
    while i < generators.len()
        invariant
            i <= generators@.len(),
            gs@ == spec_apply_generators(old(gs)@, generators@.take(i as int)),
        decreases generators@.len() - i,
    {
        let g = generators[i];
        assert(generators@.take(i + 1).drop_last() =~= generators@.take(i as int));
        if (g.generator_type as usize) < gs.len() {
            gs.set(g.generator_type as usize, g.value);
        }
        i += 1;
    }
    assert(generators@.take(generators@.len() as int) =~= generators@);
}

} // verus!
