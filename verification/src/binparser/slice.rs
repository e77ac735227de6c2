use vstd::prelude::*;

use crate::binparser::{
    lemma_le_value_append, lemma_be_value_append, lemma_word_value_1, lemma_word_value_2,
    pow256, word_value, Buffer,
};
use crate::Endian;

verus! {

/// A byte source that borrows an in-memory byte range from the caller.
///
/// Reads are zero-copy and bounds-checked: any access past the end of the
/// range is answered with an absent value.
#[derive(Debug)]
pub struct Slice<'elf> {
    buffer: &'elf [u8],
}

impl<'elf> Slice<'elf> {
    /// The bytes this source reads from.
    pub closed spec fn bytes(&self) -> Seq<u8> {
        self.buffer@
    }

    /// Create a byte source over a borrowed byte range.
    pub fn new(buffer: &'elf [u8]) -> (r: Slice<'elf>)
        ensures
            r.bytes() == buffer@,
    {
        Slice { buffer }
    }

    /// Read the byte at `offset`, or nothing when `offset` is out of range.
    pub fn get_u8(&self, offset: u64) -> (r: Option<u8>)
        ensures
            r is Some <==> offset + 1 <= self.bytes().len(),
            r matches Some(v) ==> v == self.bytes()[offset as int],
    {
        if offset >= self.buffer.len() as u64 {
            return None;
        }
        Some(self.buffer[offset as usize])
    }

    /// Read the 16-bit value at `offset` under the given byte order, or
    /// nothing when the two bytes do not all lie in range.
    pub fn get_u16(&self, offset: u64, e: Endian) -> (r: Option<u16>)
        ensures
            r is Some <==> offset + 2 <= self.bytes().len(),
            r matches Some(v) ==> v == word_value(
                self.bytes().subrange(offset as int, offset + 2),
                e,
            ),
    {
        if self.buffer.len() < 2 || offset > (self.buffer.len() - 2) as u64 {
            return None;
        }
        let i = offset as usize;
        let b0 = self.buffer[i];
        let b1 = self.buffer[i + 1];
        let v: u16 = match e {
            Endian::Little => (b0 as u16) + 256 * (b1 as u16),
            Endian::Big => 256 * (b0 as u16) + (b1 as u16),
        };
        proof {
            let s = self.bytes().subrange(offset as int, offset + 2);
            lemma_word_value_2(s, e);
        }
        Some(v)
    }

    /// Read the 32-bit value at `offset` under the given byte order, or
    /// nothing when the four bytes do not all lie in range.
    pub fn get_u32(&self, offset: u64, e: Endian) -> (r: Option<u32>)
        ensures
            r is Some <==> offset + 4 <= self.bytes().len(),
            r matches Some(v) ==> v == word_value(
                self.bytes().subrange(offset as int, offset + 4),
                e,
            ),
    {
        if self.buffer.len() < 4 || offset > (self.buffer.len() - 4) as u64 {
            return None;
        }
        let first = self.get_u16(offset, e).unwrap();
        let second = self.get_u16(offset + 2, e).unwrap();
        let v: u32 = match e {
            Endian::Little => (first as u32) + 0x1_0000 * (second as u32),
            Endian::Big => 0x1_0000 * (first as u32) + (second as u32),
        };
        proof {
            let a = self.bytes().subrange(offset as int, offset + 2);
            let b = self.bytes().subrange(offset + 2, offset + 4);
            assert(self.bytes().subrange(offset as int, offset + 4) =~= a + b);
            lemma_le_value_append(a, b);
            lemma_be_value_append(a, b);
            assert(pow256(2) == 0x1_0000) by {
                reveal_with_fuel(pow256, 3);
            }
        }
        Some(v)
    }

    /// Read the 64-bit value at `offset` under the given byte order, or
    /// nothing when the eight bytes do not all lie in range.
    pub fn get_u64(&self, offset: u64, e: Endian) -> (r: Option<u64>)
        ensures
            r is Some <==> offset + 8 <= self.bytes().len(),
            r matches Some(v) ==> v == word_value(
                self.bytes().subrange(offset as int, offset + 8),
                e,
            ),
    {
        if self.buffer.len() < 8 || offset > (self.buffer.len() - 8) as u64 {
            return None;
        }
        let first = self.get_u32(offset, e).unwrap();
        let second = self.get_u32(offset + 4, e).unwrap();
        let v: u64 = match e {
            Endian::Little => (first as u64) + 0x1_0000_0000 * (second as u64),
            Endian::Big => 0x1_0000_0000 * (first as u64) + (second as u64),
        };
        proof {
            let a = self.bytes().subrange(offset as int, offset + 4);
            let b = self.bytes().subrange(offset + 4, offset + 8);
            assert(self.bytes().subrange(offset as int, offset + 8) =~= a + b);
            lemma_le_value_append(a, b);
            lemma_be_value_append(a, b);
            assert(pow256(4) == 0x1_0000_0000) by {
                reveal_with_fuel(pow256, 5);
            }
        }
        Some(v)
    }

    /// Lend out the contiguous byte range `[offset, offset + len)`, or
    /// nothing when it does not all lie in range. The source holds the whole
    /// image in memory, so the region is a zero-copy view.
    pub fn get_map(&self, offset: u64, len: usize) -> (r: Option<Buffer<'elf>>)
        ensures
            r is Some <==> offset + len <= self.bytes().len(),
            r matches Some(b) ==> b.bytes() == self.bytes().subrange(
                offset as int,
                offset + len,
            ),
            r matches Some(b) ==> b is AsRef,
    {
        if (self.buffer.len() as u64) < (len as u64)
            || offset > (self.buffer.len() as u64) - (len as u64) {
            return None;
        }
        let i = offset as usize;
        let region = vstd::slice::slice_subrange(self.buffer, i, i + len);
        Some(Buffer::AsRef(region))
    }
}

} // verus!
