use vstd::prelude::*;

use crate::binparser::{word_value, Buffer, Slice};
use crate::Endian;

verus! {

/// A byte source that owns its bytes: the caller hands the buffer over and
/// the source keeps it for as long as it lives.
///
/// Reads behave exactly as on a borrowed slice over the same bytes.
#[derive(Debug)]
pub struct VecBuffer {
    buffer: Vec<u8>,
}

impl VecBuffer {
    /// The bytes this source reads from.
    pub closed spec fn bytes(&self) -> Seq<u8> {
        self.buffer@
    }

    /// Create a byte source that takes ownership of the buffer.
    pub fn new(buffer: Vec<u8>) -> (r: VecBuffer)
        ensures
            r.bytes() == buffer@,
    {
        VecBuffer { buffer }
    }

    /// Read the byte at `offset`, or nothing when `offset` is out of range.
    pub fn get_u8(&self, offset: u64) -> (r: Option<u8>)
        ensures
            r is Some <==> offset + 1 <= self.bytes().len(),
            r matches Some(v) ==> v == self.bytes()[offset as int],
    {
        let slice = Slice::new(self.buffer.as_slice());
        slice.get_u8(offset)
    }

    /// Read the 16-bit value at `offset` under the given byte order, or
    /// nothing when the two bytes do not all lie in range.
    pub fn get_u16(&self, offset: u64, e: Endian) -> (r: Option<u16>)
        ensures
            r is Some <==> offset + 2 <= self.bytes().len(),
            r matches Some(v) ==> v == word_value(
                self.bytes().subrange(offset as int, offset + 2),
                e,
            ),
    {
        let slice = Slice::new(self.buffer.as_slice());
        slice.get_u16(offset, e)
    }

    /// Read the 32-bit value at `offset` under the given byte order, or
    /// nothing when the four bytes do not all lie in range.
    pub fn get_u32(&self, offset: u64, e: Endian) -> (r: Option<u32>)
        ensures
            r is Some <==> offset + 4 <= self.bytes().len(),
            r matches Some(v) ==> v == word_value(
                self.bytes().subrange(offset as int, offset + 4),
                e,
            ),
    {
        let slice = Slice::new(self.buffer.as_slice());
        slice.get_u32(offset, e)
    }

    /// Read the 64-bit value at `offset` under the given byte order, or
    /// nothing when the eight bytes do not all lie in range.
    pub fn get_u64(&self, offset: u64, e: Endian) -> (r: Option<u64>)
        ensures
            r is Some <==> offset + 8 <= self.bytes().len(),
            r matches Some(v) ==> v == word_value(
                self.bytes().subrange(offset as int, offset + 8),
                e,
            ),
    {
        let slice = Slice::new(self.buffer.as_slice());
        slice.get_u64(offset, e)
    }

    /// Lend out the contiguous byte range `[offset, offset + len)`, or
    /// nothing when it does not all lie in range. The source already holds
    /// the whole image in memory, so the region is a zero-copy view.
    pub fn get_map(&self, offset: u64, len: usize) -> (r: Option<Buffer<'_>>)
        ensures
            r is Some <==> offset + len <= self.bytes().len(),
            r matches Some(b) ==> b.bytes() == self.bytes().subrange(
                offset as int,
                offset + len,
            ),
            r matches Some(b) ==> b is AsRef,
    {
        let slice = Slice::new(self.buffer.as_slice());
        slice.get_map(offset, len)
    }
}

} // verus!
