use vstd::prelude::*;

use crate::readelf::section_header::{
    sh_decodable, sh_matches, sh_min_entsize, spec_sh_at, spec_sh_name, SectionFields,
};
use crate::readelf::string_section::{
    opt_str_view, spec_name_at, strtab_at_ok, strtab_bytes_at, StringSection,
};
use crate::readelf::HeaderFields;
use crate::{Class, ReadElf, SectionHeader};

verus! {

/// The index a fresh section header table reader starts at: the first
/// entry when the declared entry size can hold an entry of this class,
/// else the declared count, so that the reader starts exhausted.
pub open spec fn spec_sh_start(h: HeaderFields) -> u16 {
    if h.shentsize < sh_min_entsize(h.class) {
        h.shnum
    } else {
        0
    }
}

/// The raw records that iterating from entry `i` onward yields: one per
/// index until the advertised count is reached or an entry fails to
/// decode, whichever comes first.
pub open spec fn spec_sh_yielded(s: Seq<u8>, h: HeaderFields, i: int) -> Seq<SectionFields>
    decreases h.shnum - i,
{
    if i < 0 || i >= h.shnum {
        Seq::empty()
    } else if !sh_decodable(s, h, i) {
        Seq::empty()
    } else {
        seq![spec_sh_at(s, h, i)] + spec_sh_yielded(s, h, i + 1)
    }
}

/// A restartable, finite, forward-only walk over the section header
/// table.
///
/// On construction the reader resolves the designated string table once;
/// when that fails, every section name simply stays absent. The
/// advertised length is always the count the file header declares;
/// iteration stops for good at the first entry that cannot be decoded.
#[derive(Debug)]
pub struct SectionHeaders<'elf> {
    elf: &'elf ReadElf<'elf>,
    strings: Option<StringSection<'elf>>,
    index: u16,
}

impl<'elf> ReadElf<'elf> {
    /// Walk the section header table of this file.
    pub fn section_headers(&'elf self) -> (r: SectionHeaders<'elf>)
        ensures
            r.spec_header() == self@,
            r.spec_bytes() == self.bytes(),
            r.spec_index() == spec_sh_start(self@),
            r.spec_strtab() == (if strtab_at_ok(self.bytes(), self@, self@.shstrndx as int) {
                Some(strtab_bytes_at(self.bytes(), self@, self@.shstrndx as int))
            } else {
                None::<Seq<u8>>
            }),
    {
        let min_shentsize: u16 = match self.class_field() {
            Class::Elf32 => 40,
            Class::Elf64 => 64,
        };

        let i = if self.shentsize_field() < min_shentsize {
            // Do not iterate, by indicating the walk is already at the end.
            self.shnum_field()
        } else {
            0
        };

        let strings = StringSection::new(self);

        SectionHeaders { elf: self, strings, index: i }
    }
}

impl<'elf> SectionHeaders<'elf> {
    /// The decoded file header whose table this reader walks.
    pub closed spec fn spec_header(&self) -> HeaderFields {
        self.elf@
    }

    /// The bytes of the underlying byte source.
    pub closed spec fn spec_bytes(&self) -> Seq<u8> {
        self.elf.bytes()
    }

    /// The entry the walk stands at; the declared count once exhausted.
    pub closed spec fn spec_index(&self) -> u16 {
        self.index
    }

    /// The bytes of the resolved string table, when one was resolved.
    pub closed spec fn spec_strtab(&self) -> Option<Seq<u8>> {
        match self.strings {
            Some(ss) => Some(ss.bytes()),
            None => None,
        }
    }

    /// Get the expected number of section header table entries.
    ///
    /// This is always the count the file header declares, regardless of
    /// whether that many entries are actually readable.
    pub fn len(&self) -> (r: usize)
        ensures
            r == self.spec_header().shnum,
    {
        self.elf.shnum_field() as usize
    }

    /// Check if the file declares no section header table entries.
    ///
    /// This too goes by the declared count alone, regardless of whether
    /// the entries are actually readable.
    pub fn is_empty(&self) -> (r: bool)
        ensures
            r == (self.spec_header().shnum == 0),
    {
        self.elf.shnum_field() == 0
    }

    /// Get the section header at the given index.
    ///
    /// The lookup bounds-checks `index` against the declared count and
    /// then decodes the entry directly from the file; an entry inside the
    /// declared count may still be absent when the file is corrupt or
    /// truncated there.
    pub fn index(&self, index: usize) -> (r: Option<SectionHeader>)
        ensures
            r is Some <==> (index < self.spec_header().shnum
                && sh_decodable(self.spec_bytes(), self.spec_header(), index as int)),
            r matches Some(sec) ==> sh_matches(
                sec,
                spec_sh_at(self.spec_bytes(), self.spec_header(), index as int),
            ),
            r matches Some(sec) ==> opt_str_view(sec.name) == spec_sh_name(
                self.spec_bytes(),
                self.spec_header(),
                self.spec_strtab(),
                index as int,
            ),
    {
        if index >= self.elf.shnum_field() as usize {
            None
        } else {
            SectionHeader::new(self.elf, index as u16, self.strings.as_ref())
        }
    }

    /// Decode the entry the walk stands at and advance.
    ///
    /// Once an entry fails to decode the walk is exhausted for good:
    /// later entries are not retried.
    pub fn next(&mut self) -> (r: Option<SectionHeader>)
        requires
            old(self).spec_index() <= old(self).spec_header().shnum,
        ensures
            final(self).spec_header() == old(self).spec_header(),
            final(self).spec_bytes() == old(self).spec_bytes(),
            final(self).spec_strtab() == old(self).spec_strtab(),
            ({
                let s = old(self).spec_bytes();
                let h = old(self).spec_header();
                let i = old(self).spec_index();
                if i == h.shnum {
                    r is None && final(self).spec_index() == i
                } else if sh_decodable(s, h, i as int) {
                    r is Some && final(self).spec_index() == i + 1
                } else {
                    r is None && final(self).spec_index() == h.shnum
                }
            }),
            r matches Some(sec) ==> sh_matches(
                sec,
                spec_sh_at(
                    old(self).spec_bytes(),
                    old(self).spec_header(),
                    old(self).spec_index() as int,
                ),
            ),
            r matches Some(sec) ==> opt_str_view(sec.name) == spec_sh_name(
                old(self).spec_bytes(),
                old(self).spec_header(),
                old(self).spec_strtab(),
                old(self).spec_index() as int,
            ),
    {
        if self.index == self.elf.shnum_field() {
            return None;
        }

        let section = SectionHeader::new(self.elf, self.index, self.strings.as_ref());
        match section {
            Some(_) => {
                self.index = self.index + 1;
            },
            None => {
                self.index = self.elf.shnum_field();
            },
        };
        section
    }

    /// Decode every remaining entry into a vector, in table order,
    /// stopping for good at the first entry that cannot be decoded. Each
    /// decoded header carries the raw fields of its table entry and the
    /// name those fields resolve to through the string table.
    pub fn to_vec(self) -> (r: Vec<SectionHeader>)
        requires
            self.spec_index() <= self.spec_header().shnum,
        ensures
            r@.len() == spec_sh_yielded(
                self.spec_bytes(),
                self.spec_header(),
                self.spec_index() as int,
            ).len(),
            forall|j: int| 0 <= j < r@.len() ==> {
                let rec = spec_sh_yielded(
                    self.spec_bytes(),
                    self.spec_header(),
                    self.spec_index() as int,
                )[j];
                sh_matches(#[trigger] r@[j], rec) && opt_str_view(r@[j].name) == (
                match self.spec_strtab() {
                    Some(t) => spec_name_at(t, rec.name_offset as int),
                    None => None::<Seq<char>>,
                })
            },
    {
        let ghost s = self.spec_bytes();
        let ghost h = self.spec_header();
        let ghost strtab = self.spec_strtab();
        let ghost i0 = self.spec_index() as int;
        let mut walk = self;
        let mut out: Vec<SectionHeader> = Vec::new();
        let ghost mut recs: Seq<SectionFields> = Seq::empty();
        loop
            invariant
                walk.spec_bytes() == s,
                walk.spec_header() == h,
                walk.spec_strtab() == strtab,
                walk.spec_index() <= h.shnum,
                recs + spec_sh_yielded(s, h, walk.spec_index() as int)
                    =~= spec_sh_yielded(s, h, i0),
                out@.len() == recs.len(),
                forall|j: int| 0 <= j < out@.len() ==> {
                    sh_matches(#[trigger] out@[j], recs[j]) && opt_str_view(out@[j].name) == (
                    match strtab {
                        Some(t) => spec_name_at(t, recs[j].name_offset as int),
                        None => None::<Seq<char>>,
                    })
                },
            ensures
                recs =~= spec_sh_yielded(s, h, i0),
                out@.len() == recs.len(),
                forall|j: int| 0 <= j < out@.len() ==> {
                    sh_matches(#[trigger] out@[j], recs[j]) && opt_str_view(out@[j].name) == (
                    match strtab {
                        Some(t) => spec_name_at(t, recs[j].name_offset as int),
                        None => None::<Seq<char>>,
                    })
                },
            decreases h.shnum - walk.spec_index() + 1,
        {
            let ghost i = walk.spec_index() as int;
            match walk.next() {
                Some(sec) => {
                    out.push(sec);
                    proof {
                        recs = recs.push(spec_sh_at(s, h, i));
                    }
                },
                None => {
                    break;
                },
            }
        }
        out
    }
}

/// Lazy table truncation: when the declared entry size is below the class
/// minimum, a fresh reader starts exhausted, so iterating yields no entry
/// at all, while the advertised length is still the declared count.
pub proof fn lemma_undersized_section_entries_yield_nothing(s: Seq<u8>, h: HeaderFields)
    requires
        h.shentsize < sh_min_entsize(h.class),
    ensures
        spec_sh_start(h) == h.shnum,
        spec_sh_yielded(s, h, h.shnum as int) =~= Seq::<SectionFields>::empty(),
{
}

/// Table overflow: with the table offset at the maximum representable
/// value, no entry is decodable, so iteration yields nothing and every
/// indexed lookup is absent, while the advertised length is still the
/// declared count.
pub proof fn lemma_section_table_offset_overflow(s: Seq<u8>, h: HeaderFields, i: int)
    requires
        h.shoff == u64::MAX,
        0 <= i,
    ensures
        !sh_decodable(s, h, i),
        spec_sh_yielded(s, h, 0) =~= Seq::<SectionFields>::empty(),
{
    assert(i * h.shentsize >= 0) by (nonlinear_arith)
        requires i >= 0 && h.shentsize >= 0;
    assert(!sh_decodable(s, h, i));
    if h.shnum > 0 {
        assert(0 * h.shentsize == 0) by (nonlinear_arith);
        assert(!sh_decodable(s, h, 0));
    }
}

} // verus!
