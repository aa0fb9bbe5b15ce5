//! Portable Executable (PE) header parser and export directory extractor.
//!
//! The format is described by the spec functions of this module ([`pe_parse`] and the
//! functions it builds on); [`PeParser::parse`] is proved to compute exactly that.
use std::collections::HashMap;
use vstd::prelude::*;

use crate::helpers::bytes::{
    absent, find_byte_from, first_index, is_first_index, le16, le32, le64, read_u16, read_u32,
    read_u64,
};
use crate::helpers::pe::error::PeError;
use crate::helpers::pe::magic::{PE32, PE32_PLUS};
use crate::helpers::pe::models::{
    exports_view, last_rva_with_ordinal, max_u32, opt_chars, opt_exports_view, ordinal_index,
    sat_add_u16, sat_add_u32, section_spans, sections_view, PeExport, PeExportDirectory,
    PeExportDirectoryView, PeExportView, PeInfo, PeInfoView, PeSection, PeSectionView,
};
use crate::helpers::text::{utf8_decode_lossy, utf8_lossy};

verus! {

broadcast use vstd::std_specs::hash::group_hash_axioms;

// ---------------------------------------------------------------------------
// The format
// ---------------------------------------------------------------------------

/// The unsigned 16-bit little-endian field at `off`.
pub open spec fn u16_at(d: Seq<u8>, off: int) -> u16 {
    le16(d, off) as u16
}

/// The unsigned 32-bit little-endian field at `off`.
pub open spec fn u32_at(d: Seq<u8>, off: int) -> u32 {
    le32(d, off) as u32
}

/// The unsigned 64-bit little-endian field at `off`.
pub open spec fn u64_at(d: Seq<u8>, off: int) -> u64 {
    le64(d, off) as u64
}

/// File offset of `rva` within the section table: the first section whose span holds the
/// RVA, whose raw data holds it too, and whose resulting offset lies inside the file.
pub open spec fn rva_in_sections(rva: u32, secs: Seq<PeSectionView>, file_len: int) -> Option<int>
    decreases secs.len(),
{
    if secs.len() == 0 {
        None
    } else {
        let s = secs[0];
        let delta = rva - s.virtual_address;
        if section_spans(s, rva) && delta < s.raw_data_size && s.raw_data_offset + delta
            < file_len {
            Some(s.raw_data_offset + delta)
        } else {
            rva_in_sections(rva, secs.drop_first(), file_len)
        }
    }
}

/// File offset of an RVA: RVAs inside the headers map to themselves, others go through the
/// section table.
pub open spec fn rva_to_offset(
    rva: u32,
    secs: Seq<PeSectionView>,
    size_of_headers: u32,
    file_len: int,
) -> Option<int> {
    if rva < size_of_headers && rva < file_len {
        Some(rva as int)
    } else {
        rva_in_sections(rva, secs, file_len)
    }
}

/// The null-terminated string at file offset `off`, lossily decoded; `None` when `off` is
/// outside the file or no terminator follows it.
pub open spec fn ascii_at(d: Seq<u8>, off: int) -> Option<Seq<char>> {
    if off < 0 || off >= d.len() {
        None
    } else {
        match first_index(d.subrange(off, d.len() as int), 0) {
            Some(p) => Some(utf8_lossy(d.subrange(off, off + p))),
            None => None,
        }
    }
}

/// The null-terminated string at an RVA.
pub open spec fn string_at_rva(
    d: Seq<u8>,
    rva: u32,
    secs: Seq<PeSectionView>,
    size_of_headers: u32,
) -> Option<Seq<char>> {
    match rva_to_offset(rva, secs, size_of_headers, d.len() as int) {
        Some(o) => ascii_at(d, o),
        None => None,
    }
}

/// The section header at file offset `off`.
pub open spec fn section_at(d: Seq<u8>, off: int) -> PeSectionView {
    let raw = d.subrange(off, off + 8);
    let name_len = match first_index(raw, 0) {
        Some(p) => p,
        None => 8,
    };
    PeSectionView {
        name: utf8_lossy(raw.take(name_len)),
        virtual_size: u32_at(d, off + 8),
        virtual_address: u32_at(d, off + 12),
        raw_data_size: u32_at(d, off + 16),
        raw_data_offset: u32_at(d, off + 20),
        characteristics: u32_at(d, off + 36),
    }
}

/// The tables an export directory refers to.
pub struct ExportTables {
    pub d: Seq<u8>,
    pub secs: Seq<PeSectionView>,
    pub size_of_headers: u32,
    pub export_rva: u32,
    pub export_size: u32,
    pub ordinal_base: u32,
    pub functions: Seq<u32>,
    pub names_off: int,
    pub ordinals_off: int,
}

/// The forwarder string of an export whose RVA points inside the export table.
pub open spec fn forwarder_of(t: ExportTables, rva: u32) -> Option<Seq<char>> {
    if rva >= t.export_rva && rva < sat_add_u32(t.export_rva, t.export_size) {
        string_at_rva(t.d, rva, t.secs, t.size_of_headers)
    } else {
        None
    }
}

/// Ordinal of the function at table index `idx` (the ordinal base truncated to 16 bits,
/// plus the index, saturating).
pub open spec fn ordinal_of(t: ExportTables, idx: u16) -> u16 {
    sat_add_u16(t.ordinal_base as u16, idx)
}

/// The function address table at file offset `fo` holding `nf` entries, cut to at most
/// 65536 entries and to the entries that lie inside the file.
pub open spec fn function_table(d: Seq<u8>, fo: int, nf: u32) -> Seq<u32> {
    let max_funcs: int = if nf > 65536 { 65536 } else { nf as int };
    let avail = (d.len() - fo) / 4;
    let count = if max_funcs < avail { max_funcs } else { avail };
    Seq::new(count as nat, |i: int| u32_at(d, fo + 4 * i))
}

/// Number of name table entries read: at most 65536, and only those whose name pointer and
/// ordinal both lie inside the file.
pub open spec fn name_count(d: Seq<u8>, no: int, oo: int, nn: u32) -> int {
    let max_names: int = if nn > 65536 { 65536 } else { nn as int };
    let a = (d.len() - no) / 4;
    let b = (d.len() - oo) / 2;
    let m = if max_names < a { max_names } else { a };
    if m < b { m } else { b }
}

/// The exports named by the first `k` name table entries, in table order; entries whose
/// ordinal index is outside the function table are skipped.
pub open spec fn named_exports(t: ExportTables, k: int) -> Seq<PeExportView>
    decreases k,
{
    if k <= 0 {
        Seq::empty()
    } else {
        let prev = named_exports(t, k - 1);
        let i = k - 1;
        let str_rva = u32_at(t.d, t.names_off + 4 * i);
        let idx = u16_at(t.d, t.ordinals_off + 2 * i);
        if (idx as int) < t.functions.len() {
            let rva = t.functions[idx as int];
            prev.push(
                PeExportView {
                    name: string_at_rva(t.d, str_rva, t.secs, t.size_of_headers),
                    ordinal: ordinal_of(t, idx),
                    rva,
                    forwarder: forwarder_of(t, rva),
                },
            )
        } else {
            prev
        }
    }
}

/// Some export in `s` carries ordinal `o`.
pub open spec fn has_ordinal(s: Seq<PeExportView>, o: u16) -> bool {
    last_rva_with_ordinal(s, o) is Some
}

/// `named` followed by the unnamed exports among the first `k` functions: those with a
/// non-zero RVA whose ordinal no earlier export carries.
pub open spec fn ordinal_only_exports(t: ExportTables, named: Seq<PeExportView>, k: int) -> Seq<
    PeExportView,
>
    decreases k,
{
    if k <= 0 {
        named
    } else {
        let prev = ordinal_only_exports(t, named, k - 1);
        let idx = k - 1;
        let rva = t.functions[idx];
        let o = ordinal_of(t, idx as u16);
        if rva != 0 && !has_ordinal(prev, o) {
            prev.push(PeExportView { name: None, ordinal: o, rva, forwarder: forwarder_of(t, rva) })
        } else {
            prev
        }
    }
}

/// The export directory described by the data directory entry `(export_rva, export_size)`.
pub open spec fn export_directory(
    d: Seq<u8>,
    export_rva: u32,
    export_size: u32,
    secs: Seq<PeSectionView>,
    size_of_headers: u32,
) -> Option<PeExportDirectoryView> {
    match rva_to_offset(export_rva, secs, size_of_headers, d.len() as int) {
        None => None,
        Some(off) => if off + 40 > d.len() {
            None
        } else {
            let name_rva = u32_at(d, off + 12);
            let base = u32_at(d, off + 16);
            let nf = u32_at(d, off + 20);
            let nn = u32_at(d, off + 24);
            let af = u32_at(d, off + 28);
            let an = u32_at(d, off + 32);
            let ao = u32_at(d, off + 36);
            let dll = if name_rva != 0 {
                string_at_rva(d, name_rva, secs, size_of_headers)
            } else {
                None
            };
            match rva_to_offset(af, secs, size_of_headers, d.len() as int) {
                None => None,
                Some(fo) => {
                    let fr = function_table(d, fo, nf);
                    let no = rva_to_offset(an, secs, size_of_headers, d.len() as int);
                    let oo = rva_to_offset(ao, secs, size_of_headers, d.len() as int);
                    let t = ExportTables {
                        d,
                        secs,
                        size_of_headers,
                        export_rva,
                        export_size,
                        ordinal_base: base,
                        functions: fr,
                        names_off: if no is Some { no->0 } else { 0 },
                        ordinals_off: if oo is Some { oo->0 } else { 0 },
                    };
                    let named = if no is Some && oo is Some {
                        named_exports(t, name_count(d, no->0, oo->0, nn))
                    } else {
                        Seq::empty()
                    };
                    let all = ordinal_only_exports(t, named, fr.len() as int);
                    Some(
                        PeExportDirectoryView {
                            dll_name: dll,
                            export_table_rva: export_rva,
                            export_table_size: export_size,
                            ordinal_base: base,
                            exports: all,
                            by_ordinal: ordinal_index(all),
                        },
                    )
                },
            }
        },
    }
}

/// The fields of the optional header read by the parser.
pub struct OptionalHeaderView {
    pub entry_point_rva: u32,
    pub image_base: u64,
    pub size_of_image: u32,
    pub size_of_headers: u32,
    pub subsystem: u16,
    pub export_rva: u32,
    pub export_size: u32,
}

/// The optional header at `opt` of size `size` (PE32+ when `is64`).
pub open spec fn optional_header(d: Seq<u8>, opt: int, size: int, is64: bool) -> OptionalHeaderView {
    let dir_start: int = if is64 { 112 } else { 96 };
    let rva_count = u32_at(d, opt + dir_start - 4);
    let has_dir = rva_count > 0 && size >= dir_start + 8;
    OptionalHeaderView {
        entry_point_rva: u32_at(d, opt + 16),
        image_base: if is64 { u64_at(d, opt + 24) } else { u32_at(d, opt + 28) as u64 },
        size_of_image: u32_at(d, opt + 56),
        size_of_headers: u32_at(d, opt + 60),
        subsystem: u16_at(d, opt + 68),
        export_rva: if has_dir { u32_at(d, opt + dir_start) } else { 0 },
        export_size: if has_dir { u32_at(d, opt + dir_start + 4) } else { 0 },
    }
}

/// Sections and exports of an image whose headers passed validation.
pub open spec fn pe_parse_body(d: Seq<u8>, e: int, is64: bool) -> Result<PeInfoView, PeError> {
    let coff = e + 4;
    let nsec = le16(d, coff + 2);
    let opt_size = le16(d, coff + 16);
    let opt = coff + 20;
    let h = optional_header(d, opt, opt_size, is64);
    let table = opt + opt_size;
    if table + nsec * 40 > d.len() {
        Err(PeError::TruncatedSectionHeaders)
    } else {
        let secs = Seq::new(nsec as nat, |i: int| section_at(d, table + 40 * i));
        let exports = if h.export_rva != 0 && h.export_size != 0 {
            export_directory(d, h.export_rva, h.export_size, secs, h.size_of_headers)
        } else {
            None
        };
        Ok(
            PeInfoView {
                is_64bit: is64,
                machine: u16_at(d, coff),
                characteristics: u16_at(d, coff + 18),
                subsystem: h.subsystem,
                image_base: h.image_base,
                size_of_image: h.size_of_image,
                entry_point_rva: h.entry_point_rva,
                size_of_headers: h.size_of_headers,
                sections: secs,
                exports,
            },
        )
    }
}

/// Optional header validation of an image whose NT signature is at `e`.
pub open spec fn pe_parse_headers(d: Seq<u8>, e: int) -> Result<PeInfoView, PeError> {
    let coff = e + 4;
    let opt_size = le16(d, coff + 16);
    let opt = coff + 20;
    if opt + opt_size > d.len() {
        Err(PeError::BufferTooSmall { expected: (opt + opt_size) as usize, actual: d.len() as usize })
    } else if opt_size < 2 {
        Err(PeError::UnsupportedOptionalHeaderMagic(0))
    } else {
        let m = u16_at(d, opt);
        if m == PE32_PLUS {
            if opt_size < 112 {
                Err(PeError::BufferTooSmall { expected: 112, actual: opt_size as usize })
            } else {
                pe_parse_body(d, e, true)
            }
        } else if m == PE32 {
            if opt_size < 96 {
                Err(PeError::BufferTooSmall { expected: 96, actual: opt_size as usize })
            } else {
                pe_parse_body(d, e, false)
            }
        } else {
            Err(PeError::UnsupportedOptionalHeaderMagic(m))
        }
    }
}

/// What parsing the bytes `d` as a PE image yields.
pub open spec fn pe_parse(d: Seq<u8>) -> Result<PeInfoView, PeError> {
    if d.len() < 64 {
        Err(PeError::BufferTooSmall { expected: 64, actual: d.len() as usize })
    } else if d[0] != 0x4d || d[1] != 0x5a {
        Err(PeError::InvalidDosSignature)
    } else {
        let e = le32(d, 0x3c);
        if e + 24 > d.len() {
            Err(PeError::InvalidPeHeaderOffset(e as usize))
        } else if !(d[e] == 0x50 && d[e + 1] == 0x45 && d[e + 2] == 0 && d[e + 3] == 0) {
            Err(PeError::InvalidPeSignature)
        } else {
            pe_parse_headers(d, e)
        }
    }
}

/// The view of a parse outcome.
pub open spec fn parse_outcome_view(r: Result<PeInfo, PeError>) -> Result<PeInfoView, PeError> {
    match r {
        Ok(info) => Ok(info@),
        Err(e) => Err(e),
    }
}

/// The header fields of a parsed image come from their PE/COFF offsets. With `e` the NT
/// header offset stored at 0x3C and `opt = e + 24` the optional header: the machine and the
/// characteristics are the 16-bit fields at `e + 4` and `e + 22`; the entry point, image size
/// and header size the 32-bit fields at `opt + 16`, `opt + 56` and `opt + 60`; the subsystem
/// the 16-bit field at `opt + 68`. The image is 64-bit exactly when the magic at `opt` is
/// 0x20B, and its image base is then the 64-bit field at `opt + 24`; for a PE32 image (magic
/// 0x10B) it is the 32-bit ImageBase field at `opt + 28`, whatever the BaseOfData field at
/// `opt + 24` holds.
pub proof fn lemma_header_field_offsets(d: Seq<u8>)
    requires
        pe_parse(d) is Ok,
    ensures
        ({
            let e = le32(d, 0x3c);
            let opt = e + 24;
            let info = pe_parse(d)->Ok_0;
            &&& info.machine as int == le16(d, e + 4)
            &&& info.characteristics as int == le16(d, e + 22)
            &&& info.entry_point_rva as int == le32(d, opt + 16)
            &&& info.size_of_image as int == le32(d, opt + 56)
            &&& info.size_of_headers as int == le32(d, opt + 60)
            &&& info.subsystem as int == le16(d, opt + 68)
            &&& info.is_64bit == (le16(d, opt) == 0x20B)
            &&& le16(d, opt) == 0x20B ==> info.image_base as int == le64(d, opt + 24)
            &&& le16(d, opt) == 0x10B ==> info.image_base as int == le32(d, opt + 28)
            &&& (le16(d, opt) == 0x10B || le16(d, opt) == 0x20B)
        }),
{
    let e = le32(d, 0x3c);
    let coff = e + 4;
    let opt = coff + 20;
    let opt_size = le16(d, coff + 16);
    lemma_le32_range(d, 0x3c);
    lemma_le16_range(d, coff + 16);
    assert(pe_parse(d) == pe_parse_headers(d, e));
    lemma_le16_range(d, opt);
    lemma_le16_range(d, coff);
    lemma_le16_range(d, coff + 18);
    lemma_le16_range(d, opt + 68);
    lemma_le32_range(d, opt + 16);
    lemma_le32_range(d, opt + 28);
    lemma_le32_range(d, opt + 56);
    lemma_le32_range(d, opt + 60);
    lemma_le64_range(d, opt + 24);
    let m = u16_at(d, opt);
    if m == PE32_PLUS {
        assert(pe_parse_headers(d, e) == pe_parse_body(d, e, true));
    } else {
        assert(m == PE32);
        assert(pe_parse_headers(d, e) == pe_parse_body(d, e, false));
    }
}

proof fn lemma_le16_range(d: Seq<u8>, off: int)
    requires
        0 <= off,
        off + 2 <= d.len(),
    ensures
        0 <= le16(d, off) < 0x1_0000,
{
    assert(d[off] <= 255 && d[off + 1] <= 255);
}

proof fn lemma_le32_range(d: Seq<u8>, off: int)
    requires
        0 <= off,
        off + 4 <= d.len(),
    ensures
        0 <= le32(d, off) < 0x1_0000_0000,
{
    lemma_le16_range(d, off);
    lemma_le16_range(d, off + 2);
}

proof fn lemma_le64_range(d: Seq<u8>, off: int)
    requires
        0 <= off,
        off + 8 <= d.len(),
    ensures
        0 <= le64(d, off) < 0x1_0000_0000_0000_0000,
{
    lemma_le32_range(d, off);
    lemma_le32_range(d, off + 4);
}

/// Pushing an export onto a list updates its ordinal index at that export's ordinal.
pub proof fn lemma_ordinal_index_push(es: Seq<PeExportView>, e: PeExportView)
    ensures
        ordinal_index(es.push(e)) == ordinal_index(es).insert(e.ordinal, e.rva),
{
    assert forall|o: u16| #[trigger]
        last_rva_with_ordinal(es.push(e), o) == if o == e.ordinal {
            Some(e.rva)
        } else {
            last_rva_with_ordinal(es, o)
        } by {
        assert(es.push(e).drop_last() =~= es);
    }
    assert(ordinal_index(es.push(e)) =~= ordinal_index(es).insert(e.ordinal, e.rva));
}

// ---------------------------------------------------------------------------
// The parser
// ---------------------------------------------------------------------------

/// Memory-safe parser for 32-bit and 64-bit Portable Executable images.
pub struct PeParser;

impl PeParser {
    /// Translates a relative virtual address to an offset in a file of `file_len` bytes.
    pub fn rva_to_file_offset(
        rva: u32,
        sections: &[PeSection],
        size_of_headers: u32,
        file_len: usize,
    ) -> (r: Option<usize>)
        ensures
            match r {
                Some(o) => rva_to_offset(
                    rva,
                    sections_view(sections@),
                    size_of_headers,
                    file_len as int,
                ) == Some(o as int),
                None => rva_to_offset(
                    rva,
                    sections_view(sections@),
                    size_of_headers,
                    file_len as int,
                ) is None,
            },
            r matches Some(o) ==> o < file_len,
    {
        if rva < size_of_headers && (rva as usize) < file_len {
            return Some(rva as usize);
        }
        let ghost ss = sections_view(sections@);
        let n = sections.len();
        let mut i: usize = 0;
        assert(ss.subrange(0, n as int) =~= ss);
        assert(rva_to_offset(rva, ss, size_of_headers, file_len as int) == rva_in_sections(
            rva,
            ss,
            file_len as int,
        ));
        while i < n
            invariant
                n == sections@.len(),
                i <= n,
                ss == sections_view(sections@),
                rva_to_offset(rva, ss, size_of_headers, file_len as int) == rva_in_sections(
                    rva,
                    ss,
                    file_len as int,
                ),
                rva_in_sections(rva, ss, file_len as int) == rva_in_sections(
                    rva,
                    ss.subrange(i as int, n as int),
                    file_len as int,
                ),
            decreases n - i,
        {
            assert(ss.subrange(i as int, n as int).drop_first() =~= ss.subrange(
                i + 1,
                n as int,
            ));
            let sec = &sections[i];
            assert(ss.subrange(i as int, n as int)[0] == sec@);
            if sec.spans(rva) {
                let delta = rva - sec.virtual_address;
                if delta < sec.raw_data_size {
                    let offset = (sec.raw_data_offset as usize).saturating_add(delta as usize);
                    if offset < file_len {
                        assert(offset == sec.raw_data_offset + delta);
                        assert(rva_in_sections(rva, ss.subrange(i as int, n as int), file_len as int)
                            == Some(offset as int));
                        return Some(offset);
                    }
                }
            }
            i = i + 1;
        }
        None
    }

    /// Reads the null-terminated string at file offset `offset`, decoded lossily.
    fn extract_ascii_string(data: &[u8], offset: usize) -> (r: Option<String>)
        ensures
            opt_chars(r) == ascii_at(data@, offset as int),
    {
        if offset >= data.len() {
            return None;
        }
        let end = match find_byte_from(data, offset, 0) {
            Some(p) => p,
            None => return None,
        };
        let slice = &data[offset..end];
        assert(slice@ =~= data@.subrange(offset as int, end as int));
        Some(utf8_decode_lossy(slice))
    }

    /// Reads the null-terminated string at an RVA.
    fn string_at(data: &[u8], rva: u32, sections: &[PeSection], size_of_headers: u32) -> (r:
        Option<String>)
        ensures
            opt_chars(r) == string_at_rva(data@, rva, sections_view(sections@), size_of_headers),
    {
        match Self::rva_to_file_offset(rva, sections, size_of_headers, data.len()) {
            Some(off) => Self::extract_ascii_string(data, off),
            None => None,
        }
    }

    /// Reads the forwarder string of an export whose RVA lies inside the export table.
    fn forwarder_at(
        data: &[u8],
        rva: u32,
        export_rva: u32,
        export_size: u32,
        sections: &[PeSection],
        size_of_headers: u32,
        Ghost(t): Ghost<ExportTables>,
    ) -> (r: Option<String>)
        requires
            t.d == data@,
            t.secs == sections_view(sections@),
            t.size_of_headers == size_of_headers,
            t.export_rva == export_rva,
            t.export_size == export_size,
        ensures
            opt_chars(r) == forwarder_of(t, rva),
    {
        let end = export_rva.saturating_add(export_size);
        if rva >= export_rva && rva < end {
            Self::string_at(data, rva, sections, size_of_headers)
        } else {
            None
        }
    }

    /// Reads the function address table at file offset `fo`.
    fn read_function_table(data: &[u8], fo: usize, num_functions: u32) -> (r: Vec<u32>)
        requires
            fo < data@.len(),
            data@.len() <= isize::MAX,
        ensures
            r@ == function_table(data@, fo as int, num_functions),
            r@.len() <= 65536,
    {
        let ghost d = data@;
        let len = data.len();
        let max_funcs: usize = if num_functions > 65536 { 65536 } else { num_functions as usize };
        let avail_funcs = (len - fo) / 4;
        let func_count = if max_funcs < avail_funcs { max_funcs } else { avail_funcs };
        let ghost fr = function_table(d, fo as int, num_functions);
        let mut out: Vec<u32> = Vec::new();
        let mut i: usize = 0;
        while i < func_count
            invariant
                d == data@,
                len == d.len(),
                func_count == fr.len(),
                fo + 4 * func_count <= len,
                fr == function_table(d, fo as int, num_functions),
                i <= func_count,
                out@ == fr.take(i as int),
            decreases func_count - i,
        {
            out.push(read_u32(data, fo + 4 * i));
            i = i + 1;
            assert(out@ =~= fr.take(i as int));
        }
        assert(out@ =~= fr);
        out
    }

    /// Collects the exports listed in the name table, with their ordinal index.
    fn collect_named_exports(
        data: &[u8],
        sections: &[PeSection],
        size_of_headers: u32,
        export_rva: u32,
        export_size: u32,
        ordinal_base: u32,
        names_off: usize,
        ord_off: usize,
        num_names: u32,
        function_rvas: &Vec<u32>,
        Ghost(t): Ghost<ExportTables>,
    ) -> (r: (Vec<PeExport>, HashMap<u16, u32>))
        requires
            names_off < data@.len(),
            ord_off < data@.len(),
            data@.len() <= isize::MAX,
            t.d == data@,
            t.secs == sections_view(sections@),
            t.size_of_headers == size_of_headers,
            t.export_rva == export_rva,
            t.export_size == export_size,
            t.ordinal_base == ordinal_base,
            t.functions == function_rvas@,
            t.names_off == names_off,
            t.ordinals_off == ord_off,
        ensures
            exports_view(r.0@) == named_exports(
                t,
                name_count(data@, names_off as int, ord_off as int, num_names),
            ),
            r.1@ == ordinal_index(exports_view(r.0@)),
    {
        let len = data.len();
        let max_names: usize = if num_names > 65536 { 65536 } else { num_names as usize };
        let a = (len - names_off) / 4;
        let b = (len - ord_off) / 2;
        let m = if max_names < a { max_names } else { a };
        let name_cnt = if m < b { m } else { b };
        let mut exports: Vec<PeExport> = Vec::new();
        let mut by_ordinal: HashMap<u16, u32> = HashMap::new();
        assert(ordinal_index(exports_view(exports@)) =~= by_ordinal@);
        assert(exports_view(exports@) =~= named_exports(t, 0));
        let mut k: usize = 0;
        while k < name_cnt
            invariant
                len == data@.len(),
                t.d == data@,
                t.secs == sections_view(sections@),
                t.size_of_headers == size_of_headers,
                t.export_rva == export_rva,
                t.export_size == export_size,
                t.ordinal_base == ordinal_base,
                t.functions == function_rvas@,
                t.names_off == names_off,
                t.ordinals_off == ord_off,
                names_off + 4 * name_cnt <= len,
                ord_off + 2 * name_cnt <= len,
                k <= name_cnt,
                exports_view(exports@) == named_exports(t, k as int),
                by_ordinal@ == ordinal_index(exports_view(exports@)),
            decreases name_cnt - k,
        {
            let str_rva = read_u32(data, names_off + 4 * k);
            let ord_idx = read_u16(data, ord_off + 2 * k);
            let symbol_name = Self::string_at(data, str_rva, sections, size_of_headers);
            if (ord_idx as usize) < function_rvas.len() {
                let rva = function_rvas[ord_idx as usize];
                let ordinal = (#[verifier::truncate] (ordinal_base as u16)).saturating_add(ord_idx);
                let forwarder = Self::forwarder_at(
                    data,
                    rva,
                    export_rva,
                    export_size,
                    sections,
                    size_of_headers,
                    Ghost(t),
                );
                let e = PeExport { name: symbol_name, ordinal, rva, forwarder };
                proof {
                    lemma_ordinal_index_push(exports_view(exports@), e@);
                }
                by_ordinal.insert(ordinal, rva);
                exports.push(e);
                assert(exports_view(exports@) =~= named_exports(t, k + 1));
            } else {
                assert(exports_view(exports@) =~= named_exports(t, k + 1));
            }
            k = k + 1;
        }
        (exports, by_ordinal)
    }

    /// Appends the functions exported by ordinal only.
    fn append_ordinal_only_exports(
        data: &[u8],
        sections: &[PeSection],
        size_of_headers: u32,
        export_rva: u32,
        export_size: u32,
        ordinal_base: u32,
        function_rvas: &Vec<u32>,
        exports: &mut Vec<PeExport>,
        by_ordinal: &mut HashMap<u16, u32>,
        Ghost(t): Ghost<ExportTables>,
    )
        requires
            function_rvas@.len() <= 65536,
            t.d == data@,
            t.secs == sections_view(sections@),
            t.size_of_headers == size_of_headers,
            t.export_rva == export_rva,
            t.export_size == export_size,
            t.ordinal_base == ordinal_base,
            t.functions == function_rvas@,
            old(by_ordinal)@ == ordinal_index(exports_view(old(exports)@)),
        ensures
            exports_view(final(exports)@) == ordinal_only_exports(
                t,
                exports_view(old(exports)@),
                function_rvas@.len() as int,
            ),
            final(by_ordinal)@ == ordinal_index(exports_view(final(exports)@)),
    {
        let ghost named = exports_view(exports@);
        assert(named =~= ordinal_only_exports(t, named, 0));
        let count = function_rvas.len();
        let mut idx: usize = 0;
        while idx < count
            invariant
                t.d == data@,
                t.secs == sections_view(sections@),
                t.size_of_headers == size_of_headers,
                t.export_rva == export_rva,
                t.export_size == export_size,
                t.ordinal_base == ordinal_base,
                t.functions == function_rvas@,
                count == function_rvas@.len(),
                count <= 65536,
                idx <= count,
                exports_view(exports@) == ordinal_only_exports(t, named, idx as int),
                by_ordinal@ == ordinal_index(exports_view(exports@)),
            decreases count - idx,
        {
            let rva = function_rvas[idx];
            let ordinal = (#[verifier::truncate] (ordinal_base as u16)).saturating_add(idx as u16);
            assert(ordinal == ordinal_of(t, idx as u16));
            if rva != 0 && !by_ordinal.contains_key(&ordinal) {
                let forwarder = Self::forwarder_at(
                    data,
                    rva,
                    export_rva,
                    export_size,
                    sections,
                    size_of_headers,
                    Ghost(t),
                );
                let e = PeExport { name: None, ordinal, rva, forwarder };
                proof {
                    lemma_ordinal_index_push(exports_view(exports@), e@);
                }
                by_ordinal.insert(ordinal, rva);
                exports.push(e);
                assert(exports_view(exports@) =~= ordinal_only_exports(t, named, idx + 1));
            } else {
                assert(exports_view(exports@) =~= ordinal_only_exports(t, named, idx + 1));
            }
            idx = idx + 1;
        }
    }

    /// Parses the export directory described by `(export_rva, export_size)`.
    fn parse_export_directory(
        data: &[u8],
        export_rva: u32,
        export_size: u32,
        sections: &[PeSection],
        size_of_headers: u32,
    ) -> (r: Option<PeExportDirectory>)
        requires
            data@.len() <= isize::MAX,
        ensures
            opt_exports_view(r) == export_directory(
                data@,
                export_rva,
                export_size,
                sections_view(sections@),
                size_of_headers,
            ),
    {
        let ghost d = data@;
        let ghost secs = sections_view(sections@);
        let len = data.len();
        let export_off = match Self::rva_to_file_offset(export_rva, sections, size_of_headers, len) {
            Some(o) => o,
            None => return None,
        };
        if export_off + 40 > len {
            return None;
        }
        let name_rva = read_u32(data, export_off + 12);
        let ordinal_base = read_u32(data, export_off + 16);
        let num_functions = read_u32(data, export_off + 20);
        let num_names = read_u32(data, export_off + 24);
        let addr_functions_rva = read_u32(data, export_off + 28);
        let addr_names_rva = read_u32(data, export_off + 32);
        let addr_ordinals_rva = read_u32(data, export_off + 36);

        let dll_name = if name_rva != 0 {
            Self::string_at(data, name_rva, sections, size_of_headers)
        } else {
            None
        };

        let func_table_off = match Self::rva_to_file_offset(
            addr_functions_rva,
            sections,
            size_of_headers,
            len,
        ) {
            Some(o) => o,
            None => return None,
        };
        let function_rvas = Self::read_function_table(data, func_table_off, num_functions);

        let names_table_off = Self::rva_to_file_offset(
            addr_names_rva,
            sections,
            size_of_headers,
            len,
        );
        let ordinals_table_off = Self::rva_to_file_offset(
            addr_ordinals_rva,
            sections,
            size_of_headers,
            len,
        );
        let ghost t = ExportTables {
            d,
            secs,
            size_of_headers,
            export_rva,
            export_size,
            ordinal_base,
            functions: function_rvas@,
            names_off: match names_table_off {
                Some(o) => o as int,
                None => 0,
            },
            ordinals_off: match ordinals_table_off {
                Some(o) => o as int,
                None => 0,
            },
        };

        let (mut exports, mut by_ordinal) = match (names_table_off, ordinals_table_off) {
            (Some(names_off), Some(ord_off)) => Self::collect_named_exports(
                data,
                sections,
                size_of_headers,
                export_rva,
                export_size,
                ordinal_base,
                names_off,
                ord_off,
                num_names,
                &function_rvas,
                Ghost(t),
            ),
            _ => {
                let e: Vec<PeExport> = Vec::new();
                let m: HashMap<u16, u32> = HashMap::new();
                assert(exports_view(e@) =~= Seq::<PeExportView>::empty());
                assert(ordinal_index(exports_view(e@)) =~= m@);
                (e, m)
            },
        };
        Self::append_ordinal_only_exports(
            data,
            sections,
            size_of_headers,
            export_rva,
            export_size,
            ordinal_base,
            &function_rvas,
            &mut exports,
            &mut by_ordinal,
            Ghost(t),
        );
        Some(
            PeExportDirectory {
                dll_name,
                export_table_rva: export_rva,
                export_table_size: export_size,
                ordinal_base,
                exports,
                by_ordinal,
            },
        )
    }
}


impl PeParser {
    /// Reads the optional header fields used by the parser: entry point, image base, image
    /// size, headers size, subsystem and the export data directory entry.
    fn read_optional_header(data: &[u8], opt: usize, size: usize, is64: bool) -> (r: (
        u32,
        u64,
        u32,
        u32,
        u16,
        u32,
        u32,
    ))
        requires
            opt + size <= data@.len(),
            size >= if is64 { 112int } else { 96int },
        ensures
            ({
                let h = optional_header(data@, opt as int, size as int, is64);
                &&& r.0 == h.entry_point_rva
                &&& r.1 == h.image_base
                &&& r.2 == h.size_of_image
                &&& r.3 == h.size_of_headers
                &&& r.4 == h.subsystem
                &&& r.5 == h.export_rva
                &&& r.6 == h.export_size
            }),
    {
        let _len = data.len();
        let entry = read_u32(data, opt + 16);
        let image_base = if is64 {
            read_u64(data, opt + 24)
        } else {
            read_u32(data, opt + 28) as u64
        };
        let image_size = read_u32(data, opt + 56);
        let headers_size = read_u32(data, opt + 60);
        let subsystem = read_u16(data, opt + 68);
        let dir_start: usize = if is64 { 112 } else { 96 };
        let rva_count = read_u32(data, opt + dir_start - 4);
        let (exp_rva, exp_size) = if rva_count > 0 && size >= dir_start + 8 {
            (read_u32(data, opt + dir_start), read_u32(data, opt + dir_start + 4))
        } else {
            (0, 0)
        };
        (entry, image_base, image_size, headers_size, subsystem, exp_rva, exp_size)
    }

    /// Reads the section header at file offset `off`.
    fn read_section(data: &[u8], off: usize) -> (r: PeSection)
        requires
            off + 40 <= data@.len(),
        ensures
            r@ == section_at(data@, off as int),
    {
        let _len = data.len();
        let raw = &data[off..off + 8];
        assert(raw@ == data@.subrange(off as int, off + 8));
        assert(raw@.subrange(0, 8) =~= raw@);
        let name_len = match find_byte_from(raw, 0, 0) {
            Some(p) => p,
            None => 8,
        };
        let name_bytes = &raw[0..name_len];
        assert(name_bytes@ =~= raw@.take(name_len as int));
        let name = utf8_decode_lossy(name_bytes);
        PeSection {
            name,
            virtual_size: read_u32(data, off + 8),
            virtual_address: read_u32(data, off + 12),
            raw_data_size: read_u32(data, off + 16),
            raw_data_offset: read_u32(data, off + 20),
            characteristics: read_u32(data, off + 36),
        }
    }

    /// Reads `count` section headers starting at file offset `table`.
    fn parse_sections(data: &[u8], table: usize, count: usize) -> (r: Vec<PeSection>)
        requires
            table + 40 * count <= data@.len(),
        ensures
            sections_view(r@) == Seq::new(
                count as nat,
                |i: int| section_at(data@, table + 40 * i),
            ),
    {
        let ghost want = Seq::new(count as nat, |i: int| section_at(data@, table + 40 * i));
        let _len = data.len();
        let mut sections: Vec<PeSection> = Vec::new();
        let mut i: usize = 0;
        while i < count
            invariant
                table + 40 * count <= data@.len(),
                data@.len() <= usize::MAX,
                want == Seq::new(count as nat, |i: int| section_at(data@, table + 40 * i)),
                i <= count,
                sections_view(sections@) == want.take(i as int),
            decreases count - i,
        {
            let sec = Self::read_section(data, table + 40 * i);
            assert(sec@ == want[i as int]);
            let ghost before = sections@;
            sections.push(sec);
            assert(sections_view(sections@) =~= sections_view(before).push(sec@));
            assert(want.take(i as int).push(want[i as int]) =~= want.take(i + 1));
            i = i + 1;
        }
        assert(want.take(count as int) =~= want);
        sections
    }

    /// Parses a PE image from its bytes.
    ///
    /// Validates the DOS header, the NT signature, the optional header and the section
    /// table, then decodes the export directory when the image has one.
    ///
    /// # Errors
    ///
    /// Returns a [`PeError`] when the buffer is truncated, carries an invalid signature or an
    /// unsupported optional header, or its section table runs past the end.
    pub fn parse(data: &[u8]) -> (res: Result<PeInfo, PeError>)
        requires
            data@.len() <= isize::MAX,
        ensures
            parse_outcome_view(res) == pe_parse(data@),
    {
        let ghost d = data@;
        let len = data.len();
        if len < 64 {
            return Err(PeError::BufferTooSmall { expected: 64, actual: len });
        }
        if data[0] != 0x4d || data[1] != 0x5a {
            return Err(PeError::InvalidDosSignature);
        }
        let e_lfanew = read_u32(data, 0x3c) as usize;
        if e_lfanew.saturating_add(24) > len {
            return Err(PeError::InvalidPeHeaderOffset(e_lfanew));
        }
        if !(data[e_lfanew] == 0x50 && data[e_lfanew + 1] == 0x45 && data[e_lfanew + 2] == 0
            && data[e_lfanew + 3] == 0) {
            return Err(PeError::InvalidPeSignature);
        }
        let coff = e_lfanew + 4;
        let machine = read_u16(data, coff);
        let number_of_sections = read_u16(data, coff + 2);
        let opt_size = read_u16(data, coff + 16) as usize;
        let characteristics = read_u16(data, coff + 18);
        let opt = coff + 20;
        if opt.saturating_add(opt_size) > len {
            return Err(PeError::BufferTooSmall { expected: opt + opt_size, actual: len });
        }
        if opt_size < 2 {
            return Err(PeError::UnsupportedOptionalHeaderMagic(0));
        }
        let opt_magic = read_u16(data, opt);
        let is_64bit = if opt_magic == PE32_PLUS {
            if opt_size < 112 {
                return Err(PeError::BufferTooSmall { expected: 112, actual: opt_size });
            }
            true
        } else if opt_magic == PE32 {
            if opt_size < 96 {
                return Err(PeError::BufferTooSmall { expected: 96, actual: opt_size });
            }
            false
        } else {
            return Err(PeError::UnsupportedOptionalHeaderMagic(opt_magic));
        };
        let (entry_point_rva, image_base, size_of_image, size_of_headers, subsystem, export_rva, export_size) =
            Self::read_optional_header(data, opt, opt_size, is_64bit);

        let table = opt + opt_size;
        let total = (number_of_sections as usize) * 40;
        if table.saturating_add(total) > len {
            return Err(PeError::TruncatedSectionHeaders);
        }
        let sections = Self::parse_sections(data, table, number_of_sections as usize);
        let exports = if export_rva != 0 && export_size != 0 {
            Self::parse_export_directory(
                data,
                export_rva,
                export_size,
                sections.as_slice(),
                size_of_headers,
            )
        } else {
            None
        };
        Ok(
            PeInfo {
                is_64bit,
                machine,
                characteristics,
                subsystem,
                image_base,
                size_of_image,
                entry_point_rva,
                size_of_headers,
                sections,
                exports,
            },
        )
    }
}

} // verus!
