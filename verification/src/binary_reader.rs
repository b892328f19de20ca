//! Reading little- and big-endian integers, four-character codes and MIDI
//! variable-length quantities from a byte buffer.

use vstd::prelude::*;

use crate::four_cc::FourCC;

verus! {

/// Why a read failed.
#[derive(Clone, Copy, Debug, PartialEq, Eq, Structural)]
pub enum ReadError {
    /// The buffer ended before the value did.
    EndOfData,
    /// A variable-length quantity ran over four bytes.
    VariableLengthTooLong,
}

/// The unsigned little-endian 16-bit value at `p`.
pub open spec fn spec_u16_le(d: Seq<u8>, p: int) -> u16 {
    (d[p] as int + d[p + 1] as int * 256) as u16
}

/// The unsigned little-endian 32-bit value at `p`.
pub open spec fn spec_u32_le(d: Seq<u8>, p: int) -> u32 {
    (d[p] as int + d[p + 1] as int * 0x100 + d[p + 2] as int * 0x10000 + d[p + 3] as int
        * 0x1000000) as u32
}

/// The unsigned big-endian 16-bit value at `p`.
pub open spec fn spec_u16_be(d: Seq<u8>, p: int) -> u16 {
    (d[p] as int * 256 + d[p + 1] as int) as u16
}

/// The unsigned big-endian 32-bit value at `p`.
pub open spec fn spec_u32_be(d: Seq<u8>, p: int) -> u32 {
    (d[p] as int * 0x1000000 + d[p + 1] as int * 0x10000 + d[p + 2] as int * 0x100 + d[p
        + 3] as int) as u32
}

/// The four-character code at `p`.
pub open spec fn spec_four_cc(d: Seq<u8>, p: int) -> FourCC {
    FourCC { b0: d[p], b1: d[p + 1], b2: d[p + 2], b3: d[p + 3] }
}

/// A MIDI variable-length quantity starting at `p`, with `acc` holding the value of the
/// `count` bytes read before it: the value and the position after it, or why it fails.
pub open spec fn spec_variable_length_from(d: Seq<u8>, p: int, acc: int, count: int) -> Result<
    (int, int),
    ReadError,
>
    decreases 4 - count,
{
    if p < 0 || p >= d.len() || count < 0 || count >= 4 {
        Err(ReadError::EndOfData)
    } else {
        let v = d[p];
        let next = acc * 128 + v % 128;
        if v < 128 {
            Ok((next, p + 1))
        } else if count + 1 == 4 {
            Err(ReadError::VariableLengthTooLong)
        } else {
            spec_variable_length_from(d, p + 1, next, count + 1)
        }
    }
}

/// A MIDI variable-length quantity (at most four bytes) starting at `p`.
pub open spec fn spec_variable_length(d: Seq<u8>, p: int) -> Result<(int, int), ReadError> {
    spec_variable_length_from(d, p, 0, 0)
}

/// The unsigned little-endian 16-bit value at `p`, read without a cursor.
pub fn u16_le_at(data: &[u8], p: usize) -> (r: u16)
    requires
        p + 2 <= data@.len(),
    ensures
        r == spec_u16_le(data@, p as int),
{
    let b0 = data[p] as u16;
    let b1 = data[p + 1] as u16;
    b0 + b1 * 256
}

/// A cursor over a byte buffer.
pub struct ByteReader<'a> {
    pub data: &'a [u8],
    pub pos: usize,
}

impl<'a> ByteReader<'a> {
    /// A reader at the start of `data`.
    pub fn new(data: &'a [u8]) -> (r: ByteReader<'a>)
        ensures
            r.data@ == data@,
            r.pos == 0,
    {
        ByteReader { data, pos: 0 }
    }

    /// The bytes left after the cursor.
    pub open spec fn remaining(&self) -> int {
        self.data@.len() - self.pos
    }

    /// The number of bytes left after the cursor.
    pub fn bytes_left(&self) -> (r: usize)
        requires
            self.pos <= self.data@.len(),
        ensures
            r == self.remaining(),
    {
        self.data.len() - self.pos
    }

    /// Reads one byte.
    pub fn read_u8(&mut self) -> (r: Result<u8, ReadError>)
        requires
            old(self).pos <= old(self).data@.len(),
        ensures
            final(self).data == old(self).data,
            final(self).pos <= final(self).data@.len(),
            old(self).remaining() >= 1 ==> r == Ok::<u8, ReadError>(old(self).data@[old(
                self,
            ).pos as int]) && final(self).pos == old(self).pos + 1,
            old(self).remaining() < 1 ==> r == Err::<u8, ReadError>(ReadError::EndOfData),
    {
        if self.pos < self.data.len() {
            let v = self.data[self.pos];
            self.pos += 1;
            Ok(v)
        } else {
            Err(ReadError::EndOfData)
        }
    }

    /// Reads an unsigned little-endian 16-bit value.
    pub fn read_u16(&mut self) -> (r: Result<u16, ReadError>)
        requires
            old(self).pos <= old(self).data@.len(),
        ensures
            final(self).data == old(self).data,
            final(self).pos <= final(self).data@.len(),
            old(self).remaining() >= 2 ==> r == Ok::<u16, ReadError>(
                spec_u16_le(old(self).data@, old(self).pos as int),
            ) && final(self).pos == old(self).pos + 2,
            old(self).remaining() < 2 ==> r == Err::<u16, ReadError>(ReadError::EndOfData),
    {
        if self.data.len() - self.pos >= 2 {
            let b0 = self.data[self.pos] as u16;
            let b1 = self.data[self.pos + 1] as u16;
            self.pos += 2;
            Ok(b0 + b1 * 256)
        } else {
            Err(ReadError::EndOfData)
        }
    }

    /// Reads a signed little-endian 16-bit value.
    pub fn read_i16(&mut self) -> (r: Result<i16, ReadError>)
        requires
            old(self).pos <= old(self).data@.len(),
        ensures
            final(self).data == old(self).data,
            final(self).pos <= final(self).data@.len(),
            old(self).remaining() >= 2 ==> r == Ok::<i16, ReadError>(
                spec_u16_le(old(self).data@, old(self).pos as int) as i16,
            ) && final(self).pos == old(self).pos + 2,
            old(self).remaining() < 2 ==> r == Err::<i16, ReadError>(ReadError::EndOfData),
    {
        let v = self.read_u16()?;
        Ok(v as i16)
    }

    /// Reads an unsigned little-endian 32-bit value.
    pub fn read_u32(&mut self) -> (r: Result<u32, ReadError>)
        requires
            old(self).pos <= old(self).data@.len(),
        ensures
            final(self).data == old(self).data,
            final(self).pos <= final(self).data@.len(),
            old(self).remaining() >= 4 ==> r == Ok::<u32, ReadError>(
                spec_u32_le(old(self).data@, old(self).pos as int),
            ) && final(self).pos == old(self).pos + 4,
            old(self).remaining() < 4 ==> r == Err::<u32, ReadError>(ReadError::EndOfData),
    {
        if self.data.len() - self.pos >= 4 {
            let b0 = self.data[self.pos] as u32;
            let b1 = self.data[self.pos + 1] as u32;
            let b2 = self.data[self.pos + 2] as u32;
            let b3 = self.data[self.pos + 3] as u32;
            self.pos += 4;
            Ok(b0 + b1 * 0x100 + b2 * 0x10000 + b3 * 0x1000000)
        } else {
            Err(ReadError::EndOfData)
        }
    }

    /// Reads a signed little-endian 32-bit value.
    pub fn read_i32(&mut self) -> (r: Result<i32, ReadError>)
        requires
            old(self).pos <= old(self).data@.len(),
        ensures
            final(self).data == old(self).data,
            final(self).pos <= final(self).data@.len(),
            old(self).remaining() >= 4 ==> r == Ok::<i32, ReadError>(
                spec_u32_le(old(self).data@, old(self).pos as int) as i32,
            ) && final(self).pos == old(self).pos + 4,
            old(self).remaining() < 4 ==> r == Err::<i32, ReadError>(ReadError::EndOfData),
    {
        let v = self.read_u32()?;
        Ok(v as i32)
    }

    /// Reads an unsigned big-endian 16-bit value.
    pub fn read_u16_big_endian(&mut self) -> (r: Result<u16, ReadError>)
        requires
            old(self).pos <= old(self).data@.len(),
        ensures
            final(self).data == old(self).data,
            final(self).pos <= final(self).data@.len(),
            old(self).remaining() >= 2 ==> r == Ok::<u16, ReadError>(
                spec_u16_be(old(self).data@, old(self).pos as int),
            ) && final(self).pos == old(self).pos + 2,
            old(self).remaining() < 2 ==> r == Err::<u16, ReadError>(ReadError::EndOfData),
    {
        if self.data.len() - self.pos >= 2 {
            let b0 = self.data[self.pos] as u16;
            let b1 = self.data[self.pos + 1] as u16;
            self.pos += 2;
            Ok(b0 * 256 + b1)
        } else {
            Err(ReadError::EndOfData)
        }
    }

    /// Reads a signed big-endian 16-bit value.
    pub fn read_i16_big_endian(&mut self) -> (r: Result<i16, ReadError>)
        requires
            old(self).pos <= old(self).data@.len(),
        ensures
            final(self).data == old(self).data,
            final(self).pos <= final(self).data@.len(),
            old(self).remaining() >= 2 ==> r == Ok::<i16, ReadError>(
                spec_u16_be(old(self).data@, old(self).pos as int) as i16,
            ) && final(self).pos == old(self).pos + 2,
            old(self).remaining() < 2 ==> r == Err::<i16, ReadError>(ReadError::EndOfData),
    {
        let v = self.read_u16_big_endian()?;
        Ok(v as i16)
    }

    /// Reads an unsigned big-endian 32-bit value.
    pub fn read_u32_big_endian(&mut self) -> (r: Result<u32, ReadError>)
        requires
            old(self).pos <= old(self).data@.len(),
        ensures
            final(self).data == old(self).data,
            final(self).pos <= final(self).data@.len(),
            old(self).remaining() >= 4 ==> r == Ok::<u32, ReadError>(
                spec_u32_be(old(self).data@, old(self).pos as int),
            ) && final(self).pos == old(self).pos + 4,
            old(self).remaining() < 4 ==> r == Err::<u32, ReadError>(ReadError::EndOfData),
    {
        if self.data.len() - self.pos >= 4 {
            let b0 = self.data[self.pos] as u32;
            let b1 = self.data[self.pos + 1] as u32;
            let b2 = self.data[self.pos + 2] as u32;
            let b3 = self.data[self.pos + 3] as u32;
            self.pos += 4;
            Ok(b0 * 0x1000000 + b1 * 0x10000 + b2 * 0x100 + b3)
        } else {
            Err(ReadError::EndOfData)
        }
    }

    /// Reads a signed big-endian 32-bit value.
    pub fn read_i32_big_endian(&mut self) -> (r: Result<i32, ReadError>)
        requires
            old(self).pos <= old(self).data@.len(),
        ensures
            final(self).data == old(self).data,
            final(self).pos <= final(self).data@.len(),
            old(self).remaining() >= 4 ==> r == Ok::<i32, ReadError>(
                spec_u32_be(old(self).data@, old(self).pos as int) as i32,
            ) && final(self).pos == old(self).pos + 4,
            old(self).remaining() < 4 ==> r == Err::<i32, ReadError>(ReadError::EndOfData),
    {
        let v = self.read_u32_big_endian()?;
        Ok(v as i32)
    }

    /// Reads a four-character code.
    pub fn read_four_cc(&mut self) -> (r: Result<FourCC, ReadError>)
        requires
            old(self).pos <= old(self).data@.len(),
        ensures
            final(self).data == old(self).data,
            final(self).pos <= final(self).data@.len(),
            old(self).remaining() >= 4 ==> r == Ok::<FourCC, ReadError>(
                spec_four_cc(old(self).data@, old(self).pos as int),
            ) && final(self).pos == old(self).pos + 4,
            old(self).remaining() < 4 ==> r == Err::<FourCC, ReadError>(ReadError::EndOfData),
    {
        if self.data.len() - self.pos >= 4 {
            let r = FourCC {
                b0: self.data[self.pos],
                b1: self.data[self.pos + 1],
                b2: self.data[self.pos + 2],
                b3: self.data[self.pos + 3],
            };
            self.pos += 4;
            Ok(r)
        } else {
            Err(ReadError::EndOfData)
        }
    }

    /// Skips `size` bytes.
    pub fn discard_data(&mut self, size: usize) -> (r: Result<(), ReadError>)
        requires
            old(self).pos <= old(self).data@.len(),
        ensures
            final(self).data == old(self).data,
            final(self).pos <= final(self).data@.len(),
            old(self).remaining() >= size ==> r == Ok::<(), ReadError>(()) && final(self).pos
                == old(self).pos + size,
            old(self).remaining() < size ==> r == Err::<(), ReadError>(ReadError::EndOfData),
    {
        if self.data.len() - self.pos >= size {
            self.pos += size;
            Ok(())
        } else {
            Err(ReadError::EndOfData)
        }
    }

    /// Reads `size` bytes.
    pub fn read_bytes(&mut self, size: usize) -> (r: Result<Vec<u8>, ReadError>)
        requires
            old(self).pos <= old(self).data@.len(),
        ensures
            final(self).data == old(self).data,
            final(self).pos <= final(self).data@.len(),
            old(self).remaining() >= size ==> r is Ok && r->Ok_0@ == old(self).data@.subrange(
                old(self).pos as int,
                old(self).pos + size,
            ) && final(self).pos == old(self).pos + size,
            old(self).remaining() < size ==> r == Err::<Vec<u8>, ReadError>(ReadError::EndOfData),
    {
        if self.data.len() - self.pos >= size {
            let mut out: Vec<u8> = Vec::new();
            let start = self.pos;
            let len = self.data.len();
            let mut i: usize = 0;
            while i < size
                invariant
                    i <= size,
                    len == self.data@.len(),
                    self.data == old(self).data,
                    start + size <= self.data@.len(),
                    self.pos == start,
                    out@ == self.data@.subrange(start as int, start + i),
                decreases size - i,
            {
                out.push(self.data[start + i]);
                i += 1;
                assert(out@ =~= self.data@.subrange(start as int, start + i));
            }
            self.pos = start + size;
            Ok(out)
        } else {
            Err(ReadError::EndOfData)
        }
    }

    /// Reads a MIDI variable-length quantity of at most four bytes.
    pub fn read_i32_variable_length(&mut self) -> (r: Result<i32, ReadError>)
        requires
            old(self).pos <= old(self).data@.len(),
        ensures
            final(self).data == old(self).data,
            final(self).pos <= final(self).data@.len(),
            match spec_variable_length(old(self).data@, old(self).pos as int) {
                Ok((v, p)) => r == Ok::<i32, ReadError>(v as i32) && final(self).pos == p
                    && 0 <= v < 0x10000000,
                Err(e) => r == Err::<i32, ReadError>(e),
            },
    {
        let ghost d = self.data@;
        let ghost p0 = self.pos as int;
        let mut acc: i32 = 0;
        let mut count: i32 = 0;
        loop
            invariant
                self.data == old(self).data,
                self.data@ == d,
                d == old(self).data@,
                p0 == old(self).pos,
                self.pos <= d.len(),
                0 <= count < 4,
                0 <= acc < pow128(count as nat),
                spec_variable_length(d, p0) == spec_variable_length_from(
                    d,
                    self.pos as int,
                    acc as int,
                    count as int,
                ),
            decreases 4 - count,
        {
            if self.pos >= self.data.len() {
                return Err(ReadError::EndOfData);
            }
            let value = self.data[self.pos];
            let ghost acc0 = acc as int;
            let ghost pos0 = self.pos as int;
            self.pos += 1;
            proof {
                lemma_pow128_bound(count as nat);
                assert(acc * 128 + value % 128 < pow128(count as nat + 1)) by (nonlinear_arith)
                    requires
                        0 <= acc < pow128(count as nat),
                        pow128(count as nat + 1) == pow128(count as nat) * 128,
                        value % 128 < 128,
                ;
            }
            acc = acc * 128 + (value % 128) as i32;
            assert(spec_variable_length_from(d, pos0, acc0, count as int) == if value < 128 {
                Ok((acc as int, pos0 + 1))
            } else if count + 1 == 4 {
                Err(ReadError::VariableLengthTooLong)
            } else {
                spec_variable_length_from(d, pos0 + 1, acc as int, count + 1)
            });
            if value < 128 {
                return Ok(acc);
            }
            count += 1;
            if count == 4 {
                return Err(ReadError::VariableLengthTooLong);
            }
        }
    }
}

/// 128 to the power `n`.
pub open spec fn pow128(n: nat) -> int
    decreases n,
{
    if n == 0 {
        1
    } else {
        128 * pow128((n - 1) as nat)
    }
}

proof fn lemma_pow128_bound(n: nat)
    requires
        n <= 3,
    ensures
        pow128(n + 1) == pow128(n) * 128,
        pow128(n + 1) <= 0x10000000,
{
    reveal_with_fuel(pow128, 5);
}

} // verus!
