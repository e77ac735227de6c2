use vstd::prelude::*;

use vstd::utf8::{decode_utf8, valid_utf8};

use crate::binparser::Buffer;
use crate::readelf::section_header::{sh_decodable, spec_sh_at, SectionHeader};
use crate::readelf::HeaderFields;
use crate::{ReadElf, SectionType};

verus! {

/// The view of an optional owned string: the characters it holds, if any.
pub open spec fn opt_str_view(n: Option<String>) -> Option<Seq<char>> {
    match n {
        Some(x) => Some(x@),
        None => None,
    }
}

/// The position of the first null byte at or after offset `o` of the
/// table, if there is one.
pub open spec fn spec_scan_nul(t: Seq<u8>, o: int) -> Option<int>
    decreases t.len() - o,
{
    if o < 0 || o >= t.len() {
        None
    } else if t[o] == 0 {
        Some(o)
    } else {
        spec_scan_nul(t, o + 1)
    }
}

/// The string that a string table resolves at byte offset `o`: the bytes
/// from `o` up to the first null terminator, decoded as UTF-8; absent when
/// no terminator follows or the bytes are not valid UTF-8.
pub open spec fn spec_name_at(t: Seq<u8>, o: int) -> Option<Seq<char>> {
    match spec_scan_nul(t, o) {
        None => None,
        Some(k) => {
            let bytes = t.subrange(o, k);
            if valid_utf8(bytes) {
                Some(decode_utf8(bytes))
            } else {
                None
            }
        },
    }
}

/// A scan that runs into a null byte after seeing none resolves there.
proof fn lemma_scan_nul_found(t: Seq<u8>, o: int, k: int)
    requires
        0 <= o <= k < t.len(),
        t[k] == 0,
        forall|j: int| o <= j < k ==> t[j] != 0,
    ensures
        spec_scan_nul(t, o) == Some(k),
    decreases k - o,
{
    if o < k {
        lemma_scan_nul_found(t, o + 1, k);
    }
}

/// A scan that sees no null byte up to the end of the table resolves to
/// nothing.
proof fn lemma_scan_nul_none(t: Seq<u8>, o: int)
    requires
        0 <= o,
        forall|j: int| o <= j < t.len() ==> t[j] != 0,
    ensures
        spec_scan_nul(t, o) is None,
    decreases t.len() - o,
{
    if o < t.len() {
        lemma_scan_nul_none(t, o + 1);
    }
}

/// What the scan resolves to is exactly the first null byte: when it
/// answers a position, that position holds a null byte, lies at or after
/// the start, and nothing before it does; when it answers nothing, no byte
/// from the start to the end of the table is null.
proof fn lemma_scan_nul_characterization(t: Seq<u8>, o: int)
    requires
        0 <= o,
    ensures
        spec_scan_nul(t, o) matches Some(k) ==> o <= k < t.len() && t[k] == 0
            && (forall|j: int| o <= j < k ==> t[j] != 0),
        spec_scan_nul(t, o) is None ==> (forall|j: int| o <= j < t.len() ==> t[j] != 0),
    decreases t.len() - o,
{
    if o < t.len() && t[o] != 0 {
        lemma_scan_nul_characterization(t, o + 1);
    }
}

/// String resolution: a lookup at byte offset `o` of a string table scans
/// forward to the first null terminator and decodes the bytes before it
/// (terminator excluded) as UTF-8; it is absent exactly when no terminator
/// follows the offset or those bytes are not valid UTF-8.
pub proof fn lemma_string_resolution(t: Seq<u8>, o: int)
    requires
        0 <= o,
    ensures
        ({
            match spec_scan_nul(t, o) {
                Some(k) => {
                    &&& o <= k < t.len()
                    &&& t[k] == 0
                    &&& forall|j: int| o <= j < k ==> t[j] != 0
                    &&& spec_name_at(t, o) == (if valid_utf8(t.subrange(o, k)) {
                        Some(decode_utf8(t.subrange(o, k)))
                    } else {
                        None::<Seq<char>>
                    })
                },
                None => {
                    &&& forall|j: int| o <= j < t.len() ==> t[j] != 0
                    &&& spec_name_at(t, o) is None
                },
            }
        }),
{
    lemma_scan_nul_characterization(t, o);
}

/// Relies on std's str::from_utf8: it succeeds exactly on the byte
/// sequences that are valid UTF-8, and yields the characters those bytes
/// encode.
#[verifier::external_body]
fn utf8_to_string(bytes: &[u8]) -> (r: Option<String>)
    ensures
        r is Some <==> valid_utf8(bytes@),
        r matches Some(s) ==> s@ == decode_utf8(bytes@),
{
    match core::str::from_utf8(bytes) {
        Ok(s) => Some(s.to_owned()),
        Err(_) => None,
    }
}

/// Whether section `idx` designates a string table that can be
/// materialized: the index lies within the advertised section count, the
/// section decodes, its declared size fits the platform's addressable
/// range, its type marks it as a string table, and its byte extent lies
/// within the source.
pub open spec fn strtab_at_ok(s: Seq<u8>, h: HeaderFields, idx: int) -> bool {
    &&& idx < h.shnum
    &&& sh_decodable(s, h, idx)
    &&& spec_sh_at(s, h, idx).file_size <= usize::MAX
    &&& spec_sh_at(s, h, idx).section_type == 3
    &&& spec_sh_at(s, h, idx).file_offset + spec_sh_at(s, h, idx).file_size <= s.len()
}

/// The bytes of the string table that section `idx` designates.
pub open spec fn strtab_bytes_at(s: Seq<u8>, h: HeaderFields, idx: int) -> Seq<u8> {
    let f = spec_sh_at(s, h, idx);
    s.subrange(f.file_offset as int, f.file_offset + f.file_size)
}

/// One section's string table, materialized once and then consulted for
/// null-terminated, UTF-8 name strings by byte offset.
#[derive(Debug)]
pub(crate) struct StringSection<'elf> {
    buffer: Buffer<'elf>,
}

impl<'elf> StringSection<'elf> {
    /// The bytes of the string table.
    pub(crate) closed spec fn bytes(&self) -> Seq<u8> {
        self.buffer.bytes()
    }

    /// Materialize the string table from the ELF file using the default
    /// string table section index.
    pub(crate) fn new(elf: &'elf ReadElf<'elf>) -> (r: Option<StringSection<'elf>>)
        ensures
            r is Some <==> strtab_at_ok(elf.bytes(), elf@, elf@.shstrndx as int),
            r matches Some(ss) ==> ss.bytes() == strtab_bytes_at(
                elf.bytes(),
                elf@,
                elf@.shstrndx as int,
            ),
    {
        let index = elf.shstrndx_field();
        Self::from_index(elf, index)
    }

    /// Materialize the string table from the ELF file using the given
    /// section index.
    pub(crate) fn from_index(elf: &'elf ReadElf<'elf>, index: u16) -> (r: Option<
        StringSection<'elf>,
    >)
        ensures
            r is Some <==> strtab_at_ok(elf.bytes(), elf@, index as int),
            r matches Some(ss) ==> ss.bytes() == strtab_bytes_at(elf.bytes(), elf@, index as int),
    {
        if index >= elf.shnum_field() {
            None
        } else {
            // The general section lookup resolves names through this very
            // table; decoding the raw entry directly avoids that cycle.
            let section = match SectionHeader::new(elf, index, None) {
                Some(sec) => sec,
                None => { return None; },
            };
            if section.file_size > usize::MAX as u64
                || u32::from(section.section_type) != u32::from(SectionType::StrTab) {
                None
            } else {
                let buffer = match elf.parser().get_map(
                    section.file_offset,
                    section.file_size as usize,
                ) {
                    Some(b) => b,
                    None => { return None; },
                };
                Some(StringSection { buffer })
            }
        }
    }

    /// Resolve the string at byte offset `index` of the table.
    ///
    /// A string table is a run of null-terminated strings; the lookup
    /// scans forward from `index` for the terminator and expects the bytes
    /// before it to be UTF-8 encoded, yielding nothing otherwise.
    pub(crate) fn to_string(&self, index: u32) -> (r: Option<String>)
        ensures
            opt_str_view(r) == spec_name_at(self.bytes(), index as int),
    {
        let buf: &[u8] = self.buffer.buffer();
        let n: usize = buf.len();
        let start = index as usize;
        let mut k: usize = start;
        while k < n
            invariant
                start == index as usize,
                start <= k,
                n == buf@.len(),
                buf@ == self.bytes(),
                forall|j: int| start <= j < k ==> buf@[j] != 0,
            decreases n - k,
        {
            if buf[k] == 0 {
                let bytes = vstd::slice::slice_subrange(buf, start, k);
                proof {
                    lemma_scan_nul_found(self.bytes(), start as int, k as int);
                }
                return utf8_to_string(bytes);
            }
            k = k + 1;
        }
        proof {
            if start < self.bytes().len() {
                lemma_scan_nul_none(self.bytes(), start as int);
            }
        }
        None
    }
}

} // verus!
