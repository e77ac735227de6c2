use vstd::prelude::*;

use crate::{Class, Endian};

mod slice;
pub use slice::Slice;

mod vecbuffer;
pub use vecbuffer::VecBuffer;

mod buffer;
pub use buffer::Buffer;

verus! {

/// The byte source a parsed ELF file reads from: one of the concrete
/// storage strategies behind one type, chosen at construction time.
///
/// Every read is bounds-checked and endian-aware, and behaves identically
/// on either variant over the same bytes.
#[derive(Debug)]
pub(crate) enum BinParser<'elf> {
    /// A borrowed in-memory byte range.
    Slice(Slice<'elf>),
    /// An owned in-memory buffer.
    VecBuffer(VecBuffer),
}

impl<'elf> BinParser<'elf> {
    /// The bytes this source reads from.
    pub(crate) open spec fn bytes(&self) -> Seq<u8> {
        match self {
            BinParser::Slice(s) => s.bytes(),
            BinParser::VecBuffer(v) => v.bytes(),
        }
    }

    /// Read the byte at `offset`, or nothing when `offset` is out of range.
    pub(crate) fn get_u8(&self, offset: u64) -> (r: Option<u8>)
        ensures
            r is Some <==> offset + 1 <= self.bytes().len(),
            r matches Some(v) ==> v == self.bytes()[offset as int],
    {
        match self {
            BinParser::Slice(s) => s.get_u8(offset),
            BinParser::VecBuffer(v) => v.get_u8(offset),
        }
    }

    /// Read the 16-bit value at `offset` under the given byte order, or
    /// nothing when the two bytes do not all lie in range.
    pub(crate) fn get_u16(&self, offset: u64, e: Endian) -> (r: Option<u16>)
        ensures
            r is Some <==> offset + 2 <= self.bytes().len(),
            r matches Some(v) ==> v == word_value(
                self.bytes().subrange(offset as int, offset + 2),
                e,
            ),
    {
        match self {
            BinParser::Slice(s) => s.get_u16(offset, e),
            BinParser::VecBuffer(v) => v.get_u16(offset, e),
        }
    }

    /// Read the 32-bit value at `offset` under the given byte order, or
    /// nothing when the four bytes do not all lie in range.
    pub(crate) fn get_u32(&self, offset: u64, e: Endian) -> (r: Option<u32>)
        ensures
            r is Some <==> offset + 4 <= self.bytes().len(),
            r matches Some(v) ==> v == word_value(
                self.bytes().subrange(offset as int, offset + 4),
                e,
            ),
    {
        match self {
            BinParser::Slice(s) => s.get_u32(offset, e),
            BinParser::VecBuffer(v) => v.get_u32(offset, e),
        }
    }

    /// Read the 64-bit value at `offset` under the given byte order, or
    /// nothing when the eight bytes do not all lie in range.
    pub(crate) fn get_u64(&self, offset: u64, e: Endian) -> (r: Option<u64>)
        ensures
            r is Some <==> offset + 8 <= self.bytes().len(),
            r matches Some(v) ==> v == word_value(
                self.bytes().subrange(offset as int, offset + 8),
                e,
            ),
    {
        match self {
            BinParser::Slice(s) => s.get_u64(offset, e),
            BinParser::VecBuffer(v) => v.get_u64(offset, e),
        }
    }

    /// Read a value of the class's native width at `offset`: four bytes for
    /// a 32-bit file, widened to 64 bits, or eight bytes for a 64-bit file.
    pub(crate) fn get_usize(&self, offset: u64, e: Endian, c: Class) -> (r: Option<u64>)
        ensures
            r is Some <==> offset + native_width(c) <= self.bytes().len(),
            r matches Some(v) ==> v == word_value(
                self.bytes().subrange(offset as int, offset + native_width(c)),
                e,
            ),
    {
        match c {
            Class::Elf32 => {
                match self.get_u32(offset, e) {
                    Some(v) => Some(v as u64),
                    None => None,
                }
            },
            Class::Elf64 => self.get_u64(offset, e),
        }
    }

    /// Lend out the contiguous byte range `[offset, offset + len)`, or
    /// nothing when it does not all lie in range.
    pub(crate) fn get_map(&self, offset: u64, len: usize) -> (r: Option<Buffer<'_>>)
        ensures
            r is Some <==> offset + len <= self.bytes().len(),
            r matches Some(b) ==> b.bytes() == self.bytes().subrange(
                offset as int,
                offset + len,
            ),
    {
        match self {
            BinParser::Slice(s) => s.get_map(offset, len),
            BinParser::VecBuffer(v) => v.get_map(offset, len),
        }
    }
}

/// `256^n`: the number of values that `n` bytes can hold.
pub open spec fn pow256(n: nat) -> int
    decreases n,
{
    if n == 0 {
        1
    } else {
        256 * pow256((n - 1) as nat)
    }
}

/// The integer that a byte sequence denotes in little-endian order: the
/// first byte is the least significant.
pub open spec fn le_value(s: Seq<u8>) -> int
    decreases s.len(),
{
    if s.len() == 0 {
        0
    } else {
        s[0] + 256 * le_value(s.skip(1))
    }
}

/// The integer that a byte sequence denotes in big-endian order: the first
/// byte is the most significant.
pub open spec fn be_value(s: Seq<u8>) -> int
    decreases s.len(),
{
    if s.len() == 0 {
        0
    } else {
        256 * be_value(s.drop_last()) + s.last()
    }
}

/// The integer that a byte sequence denotes under the given byte order.
pub open spec fn word_value(s: Seq<u8>, e: Endian) -> int {
    match e {
        Endian::Little => le_value(s),
        Endian::Big => be_value(s),
    }
}

/// The 16-bit value at offset `o` of the byte sequence, under the given
/// byte order.
pub open spec fn u16_at(s: Seq<u8>, o: int, e: Endian) -> u16 {
    word_value(s.subrange(o, o + 2), e) as u16
}

/// The 32-bit value at offset `o` of the byte sequence, under the given
/// byte order.
pub open spec fn u32_at(s: Seq<u8>, o: int, e: Endian) -> u32 {
    word_value(s.subrange(o, o + 4), e) as u32
}

/// The 64-bit value at offset `o` of the byte sequence, under the given
/// byte order.
pub open spec fn u64_at(s: Seq<u8>, o: int, e: Endian) -> u64 {
    word_value(s.subrange(o, o + 8), e) as u64
}

/// The width in bytes of an address, offset or size field for the given
/// class.
pub open spec fn native_width(c: Class) -> int {
    match c {
        Class::Elf32 => 4,
        Class::Elf64 => 8,
    }
}

/// The two bytes that encode a 16-bit value under the given byte order.
pub open spec fn bytes2(v: u16, e: Endian) -> Seq<u8> {
    match e {
        Endian::Little => seq![(v % 256) as u8, (v / 256) as u8],
        Endian::Big => seq![(v / 256) as u8, (v % 256) as u8],
    }
}

/// The four bytes that encode a 32-bit value under the given byte order.
pub open spec fn bytes4(v: u32, e: Endian) -> Seq<u8> {
    match e {
        Endian::Little => bytes2((v % 0x1_0000) as u16, e) + bytes2((v / 0x1_0000) as u16, e),
        Endian::Big => bytes2((v / 0x1_0000) as u16, e) + bytes2((v % 0x1_0000) as u16, e),
    }
}

/// The eight bytes that encode a 64-bit value under the given byte order.
pub open spec fn bytes8(v: u64, e: Endian) -> Seq<u8> {
    match e {
        Endian::Little => bytes4((v % 0x1_0000_0000) as u32, e)
            + bytes4((v / 0x1_0000_0000) as u32, e),
        Endian::Big => bytes4((v / 0x1_0000_0000) as u32, e)
            + bytes4((v % 0x1_0000_0000) as u32, e),
    }
}

/// Encoding a 16-bit value and reading the bytes back gives the value:
/// the two are inverse.
pub proof fn lemma_bytes2_value(v: u16, e: Endian)
    ensures
        bytes2(v, e).len() == 2,
        word_value(bytes2(v, e), e) == v,
{
    lemma_word_value_2(bytes2(v, e), e);
}

/// Encoding a 32-bit value and reading the bytes back gives the value:
/// the two are inverse.
pub proof fn lemma_bytes4_value(v: u32, e: Endian)
    ensures
        bytes4(v, e).len() == 4,
        word_value(bytes4(v, e), e) == v,
{
    let lo = (v % 0x1_0000) as u16;
    let hi = (v / 0x1_0000) as u16;
    lemma_bytes2_value(lo, e);
    lemma_bytes2_value(hi, e);
    lemma_le_value_append(bytes2(lo, e), bytes2(hi, e));
    lemma_be_value_append(bytes2(hi, e), bytes2(lo, e));
    assert(pow256(2) == 0x1_0000) by {
        reveal_with_fuel(pow256, 3);
    }
}

/// Encoding a 64-bit value and reading the bytes back gives the value:
/// the two are inverse.
pub proof fn lemma_bytes8_value(v: u64, e: Endian)
    ensures
        bytes8(v, e).len() == 8,
        word_value(bytes8(v, e), e) == v,
{
    let lo = (v % 0x1_0000_0000) as u32;
    let hi = (v / 0x1_0000_0000) as u32;
    lemma_bytes4_value(lo, e);
    lemma_bytes4_value(hi, e);
    lemma_le_value_append(bytes4(lo, e), bytes4(hi, e));
    lemma_be_value_append(bytes4(hi, e), bytes4(lo, e));
    assert(pow256(4) == 0x1_0000_0000) by {
        reveal_with_fuel(pow256, 5);
    }
}

/// Little-endian interpretation splits over concatenation: the right part
/// contributes its value shifted past the left part's bytes.
pub proof fn lemma_le_value_append(a: Seq<u8>, b: Seq<u8>)
    ensures
        le_value(a + b) == le_value(a) + pow256(a.len()) * le_value(b),
    decreases a.len(),
{
    if a.len() == 0 {
        assert(a + b =~= b);
    } else {
        assert((a + b).skip(1) =~= a.skip(1) + b);
        lemma_le_value_append(a.skip(1), b);
        assert(256 * (le_value(a.skip(1)) + pow256((a.len() - 1) as nat) * le_value(b))
            == 256 * le_value(a.skip(1)) + (256 * pow256((a.len() - 1) as nat)) * le_value(b))
            by (nonlinear_arith);
    }
}

/// Big-endian interpretation splits over concatenation: the left part
/// contributes its value shifted past the right part's bytes.
pub proof fn lemma_be_value_append(a: Seq<u8>, b: Seq<u8>)
    ensures
        be_value(a + b) == be_value(a) * pow256(b.len()) + be_value(b),
    decreases b.len(),
{
    if b.len() == 0 {
        assert(a + b =~= a);
    } else {
        assert((a + b).drop_last() =~= a + b.drop_last());
        assert((a + b).last() == b.last());
        lemma_be_value_append(a, b.drop_last());
        assert(256 * (be_value(a) * pow256((b.len() - 1) as nat) + be_value(b.drop_last()))
            == be_value(a) * (256 * pow256((b.len() - 1) as nat)) + 256 * be_value(b.drop_last()))
            by (nonlinear_arith);
    }
}

/// A single byte denotes its own value under either byte order.
pub proof fn lemma_word_value_1(s: Seq<u8>, e: Endian)
    requires
        s.len() == 1,
    ensures
        word_value(s, e) == s[0],
{
    reveal_with_fuel(le_value, 2);
    reveal_with_fuel(be_value, 2);
    assert(s.skip(1).len() == 0);
    assert(s.drop_last().len() == 0);
    assert(s.last() == s[0]);
}

/// The value of a two-byte sequence, written out for both byte orders.
pub proof fn lemma_word_value_2(s: Seq<u8>, e: Endian)
    requires
        s.len() == 2,
    ensures
        e is Little ==> word_value(s, e) == s[0] + 256 * s[1],
        e is Big ==> word_value(s, e) == 256 * s[0] + s[1],
{
    lemma_word_value_1(s.skip(1), e);
    assert(s.skip(1)[0] == s[1]);
    lemma_word_value_1(s.drop_last(), e);
    assert(s.drop_last()[0] == s[0]);
    assert(s.last() == s[1]);
}

} // verus!
