use vstd::prelude::*;

use crate::readelf::program_header::{ph_decodable, ph_min_entsize, spec_ph_at};
use crate::readelf::HeaderFields;
use crate::{Class, ProgramHeader, ReadElf};

verus! {

/// The index a fresh program header table reader starts at: the first
/// entry when the declared entry size can hold an entry of this class,
/// else the declared count, so that the reader starts exhausted.
pub open spec fn spec_ph_start(h: HeaderFields) -> u16 {
    if h.phentsize < ph_min_entsize(h.class) {
        h.phnum
    } else {
        0
    }
}

/// The entries that iterating from entry `i` onward yields: one decoded
/// entry per index until the advertised count is reached or an entry fails
/// to decode, whichever comes first.
pub open spec fn spec_ph_yielded(s: Seq<u8>, h: HeaderFields, i: int) -> Seq<ProgramHeader>
    decreases h.phnum - i,
{
    if i < 0 || i >= h.phnum {
        Seq::empty()
    } else if !ph_decodable(s, h, i) {
        Seq::empty()
    } else {
        seq![spec_ph_at(s, h, i)] + spec_ph_yielded(s, h, i + 1)
    }
}

/// A restartable, finite, forward-only walk over the program header table.
///
/// The advertised length is always the count the file header declares,
/// whether or not that many entries can actually be decoded; iteration
/// stops for good at the first entry that cannot.
#[derive(Debug)]
pub struct ProgramHeaders<'elf> {
    elf: &'elf ReadElf<'elf>,
    index: u16,
}

impl<'elf> ReadElf<'elf> {
    /// Walk the program header table of this file.
    pub fn program_headers(&'elf self) -> (r: ProgramHeaders<'elf>)
        ensures
            r.spec_header() == self@,
            r.spec_bytes() == self.bytes(),
            r.spec_index() == spec_ph_start(self@),
    {
        let min_phentsize: u16 = match self.class_field() {
            Class::Elf32 => 32,
            Class::Elf64 => 56,
        };

        let i = if self.phentsize_field() < min_phentsize {
            // Do not iterate, by indicating the walk is already at the end.
            self.phnum_field()
        } else {
            0
        };

        ProgramHeaders { elf: self, index: i }
    }
}

impl<'elf> ProgramHeaders<'elf> {
    /// The decoded file header whose table this reader walks.
    pub closed spec fn spec_header(&self) -> HeaderFields {
        self.elf@
    }

    /// The bytes of the underlying byte source.
    pub closed spec fn spec_bytes(&self) -> Seq<u8> {
        self.elf.bytes()
    }

    /// The entry the walk stands at; the declared count once exhausted.
    pub closed spec fn spec_index(&self) -> u16 {
        self.index
    }

    /// Get the expected number of program header table entries.
    ///
    /// This is always the count the file header declares, regardless of
    /// whether that many entries are actually readable.
    pub fn len(&self) -> (r: usize)
        ensures
            r == self.spec_header().phnum,
    {
        self.elf.phnum_field() as usize
    }

    /// Check if the file declares no program header table entries.
    ///
    /// This too goes by the declared count alone, regardless of whether
    /// the entries are actually readable.
    pub fn is_empty(&self) -> (r: bool)
        ensures
            r == (self.spec_header().phnum == 0),
    {
        self.elf.phnum_field() == 0
    }

    /// Get the program header at the given index.
    ///
    /// The lookup bounds-checks `index` against the declared count and
    /// then decodes the entry directly from the file; an entry inside the
    /// declared count may still be absent when the file is corrupt or
    /// truncated there.
    pub fn index(&self, index: usize) -> (r: Option<ProgramHeader>)
        ensures
            r is Some <==> (index < self.spec_header().phnum
                && ph_decodable(self.spec_bytes(), self.spec_header(), index as int)),
            r matches Some(ph) ==> ph == spec_ph_at(
                self.spec_bytes(),
                self.spec_header(),
                index as int,
            ),
    {
        if index >= self.elf.phnum_field() as usize {
            None
        } else {
            ProgramHeader::new(self.elf, index as u16)
        }
    }

    /// Decode the entry the walk stands at and advance.
    ///
    /// Once an entry fails to decode the walk is exhausted for good:
    /// later entries are not retried.
    pub fn next(&mut self) -> (r: Option<ProgramHeader>)
        requires
            old(self).spec_index() <= old(self).spec_header().phnum,
        ensures
            final(self).spec_header() == old(self).spec_header(),
            final(self).spec_bytes() == old(self).spec_bytes(),
            ({
                let s = old(self).spec_bytes();
                let h = old(self).spec_header();
                let i = old(self).spec_index();
                if i == h.phnum {
                    r is None && final(self).spec_index() == i
                } else if ph_decodable(s, h, i as int) {
                    r == Some(spec_ph_at(s, h, i as int))
                        && final(self).spec_index() == i + 1
                } else {
                    r is None && final(self).spec_index() == h.phnum
                }
            }),
    {
        if self.index == self.elf.phnum_field() {
            return None;
        }

        let segment = ProgramHeader::new(self.elf, self.index);
        match segment {
            Some(_) => {
                self.index = self.index + 1;
            },
            None => {
                self.index = self.elf.phnum_field();
            },
        };
        segment
    }

    /// Decode every remaining entry into a vector, in table order,
    /// stopping for good at the first entry that cannot be decoded.
    pub fn to_vec(self) -> (r: Vec<ProgramHeader>)
        requires
            self.spec_index() <= self.spec_header().phnum,
        ensures
            r@ == spec_ph_yielded(self.spec_bytes(), self.spec_header(), self.spec_index() as int),
    {
        let ghost s = self.spec_bytes();
        let ghost h = self.spec_header();
        let ghost i0 = self.spec_index() as int;
        let mut walk = self;
        let mut out: Vec<ProgramHeader> = Vec::new();
        loop
            invariant
                walk.spec_bytes() == s,
                walk.spec_header() == h,
                walk.spec_index() <= h.phnum,
                out@ + spec_ph_yielded(s, h, walk.spec_index() as int)
                    =~= spec_ph_yielded(s, h, i0),
            ensures
                out@ =~= spec_ph_yielded(s, h, i0),
            decreases h.phnum - walk.spec_index() + 1,
        {
            match walk.next() {
                Some(ph) => {
                    out.push(ph);
                },
                None => {
                    break;
                },
            }
        }
        out
    }
}

/// Lazy table truncation: when the declared entry size is below the class
/// minimum, a fresh reader starts exhausted, so iterating yields no entry
/// at all, while the advertised length is still the declared count.
pub proof fn lemma_undersized_entries_yield_nothing(s: Seq<u8>, h: HeaderFields)
    requires
        h.phentsize < ph_min_entsize(h.class),
    ensures
        spec_ph_start(h) == h.phnum,
        spec_ph_yielded(s, h, h.phnum as int) =~= Seq::<ProgramHeader>::empty(),
{
}

/// Table overflow: with the table offset at the maximum representable
/// value, no entry is decodable, so iteration yields nothing and every
/// indexed lookup is absent, while the advertised length is still the
/// declared count.
pub proof fn lemma_table_offset_overflow(s: Seq<u8>, h: HeaderFields, i: int)
    requires
        h.phoff == u64::MAX,
        0 <= i,
    ensures
        !ph_decodable(s, h, i),
        spec_ph_yielded(s, h, 0) =~= Seq::<ProgramHeader>::empty(),
{
    assert(i * h.phentsize >= 0) by (nonlinear_arith)
        requires i >= 0 && h.phentsize >= 0;
    assert(!ph_decodable(s, h, i));
    if h.phnum > 0 {
        assert(0 * h.phentsize == 0) by (nonlinear_arith);
        assert(!ph_decodable(s, h, 0));
    }
}

} // verus!
