//! Portable Executable (PE) metadata models and export structures.
use std::collections::HashMap;
use vstd::prelude::*;

use crate::helpers::pe::file_flags::{IMAGE_FILE_DLL, IMAGE_FILE_EXECUTABLE_IMAGE};
use crate::helpers::pe::section_flags::{
    IMAGE_SCN_MEM_EXECUTE, IMAGE_SCN_MEM_READ, IMAGE_SCN_MEM_WRITE,
};

verus! {

broadcast use vstd::std_specs::hash::group_hash_axioms;

/// The characters of an optional string.
pub open spec fn opt_chars(o: Option<String>) -> Option<Seq<char>> {
    match o {
        Some(s) => Some(s@),
        None => None,
    }
}

/// `a + b`, saturating at `u32::MAX`.
pub open spec fn sat_add_u32(a: u32, b: u32) -> u32 {
    if a + b > u32::MAX {
        u32::MAX
    } else {
        (a + b) as u32
    }
}

/// `a + b`, saturating at `u16::MAX`.
pub open spec fn sat_add_u16(a: u16, b: u16) -> u16 {
    if a + b > u16::MAX {
        u16::MAX
    } else {
        (a + b) as u16
    }
}

/// The larger of two values.
pub open spec fn max_u32(a: u32, b: u32) -> u32 {
    if a >= b {
        a
    } else {
        b
    }
}

/// Abstract content of a [`PeSection`].
pub struct PeSectionView {
    pub name: Seq<char>,
    pub virtual_address: u32,
    pub virtual_size: u32,
    pub raw_data_offset: u32,
    pub raw_data_size: u32,
    pub characteristics: u32,
}

/// A single section of the PE image (`IMAGE_SECTION_HEADER`).
#[derive(Debug, Clone, PartialEq, Eq)]
pub struct PeSection {
    /// Section name decoded from its 8-byte field (e.g. `".text"`).
    pub name: String,
    /// Relative virtual address where the section is loaded.
    pub virtual_address: u32,
    /// Size of the section in memory.
    pub virtual_size: u32,
    /// File offset of the section's raw data.
    pub raw_data_offset: u32,
    /// Size of the section's raw data in the file.
    pub raw_data_size: u32,
    /// Section characteristics and permission flags.
    pub characteristics: u32,
}

impl View for PeSection {
    type V = PeSectionView;

    open spec fn view(&self) -> PeSectionView {
        PeSectionView {
            name: self.name@,
            virtual_address: self.virtual_address,
            virtual_size: self.virtual_size,
            raw_data_offset: self.raw_data_offset,
            raw_data_size: self.raw_data_size,
            characteristics: self.characteristics,
        }
    }
}

/// The section's memory span `[virtual_address, virtual_address + max(virtual, raw size))`
/// (end saturating at `u32::MAX`) holds `rva`.
pub open spec fn section_spans(s: PeSectionView, rva: u32) -> bool {
    rva >= s.virtual_address && rva < sat_add_u32(
        s.virtual_address,
        max_u32(s.virtual_size, s.raw_data_size),
    )
}

/// Views of a list of sections.
pub open spec fn sections_view(v: Seq<PeSection>) -> Seq<PeSectionView> {
    v.map_values(|s: PeSection| s@)
}

/// Index of the first section whose span holds `rva`.
pub open spec fn first_section_spanning(secs: Seq<PeSectionView>, rva: u32) -> Option<int>
    decreases secs.len(),
{
    if secs.len() == 0 {
        None
    } else if section_spans(secs[0], rva) {
        Some(0)
    } else {
        match first_section_spanning(secs.drop_first(), rva) {
            Some(i) => Some(i + 1),
            None => None,
        }
    }
}

impl PeSection {
    /// The section holds executable code.
    pub fn is_executable(&self) -> (r: bool)
        ensures
            r == (self.characteristics & IMAGE_SCN_MEM_EXECUTE != 0),
    {
        (self.characteristics & IMAGE_SCN_MEM_EXECUTE) != 0
    }

    /// The section is readable.
    pub fn is_readable(&self) -> (r: bool)
        ensures
            r == (self.characteristics & IMAGE_SCN_MEM_READ != 0),
    {
        (self.characteristics & IMAGE_SCN_MEM_READ) != 0
    }

    /// The section is writable.
    pub fn is_writable(&self) -> (r: bool)
        ensures
            r == (self.characteristics & IMAGE_SCN_MEM_WRITE != 0),
    {
        (self.characteristics & IMAGE_SCN_MEM_WRITE) != 0
    }

    /// Whether the section's memory span holds `rva`.
    pub fn spans(&self, rva: u32) -> (r: bool)
        ensures
            r == section_spans(self@, rva),
    {
        let span = if self.virtual_size >= self.raw_data_size {
            self.virtual_size
        } else {
            self.raw_data_size
        };
        rva >= self.virtual_address && rva < self.virtual_address.saturating_add(span)
    }
}

/// Abstract content of a [`PeExport`].
pub struct PeExportView {
    pub name: Option<Seq<char>>,
    pub ordinal: u16,
    pub rva: u32,
    pub forwarder: Option<Seq<char>>,
}

/// A function or variable exported by the PE image.
#[derive(Debug, Clone, PartialEq, Eq)]
pub struct PeExport {
    /// Exported symbol name, when exported by name.
    pub name: Option<String>,
    /// Export ordinal (ordinal base + table index).
    pub ordinal: u16,
    /// RVA of the exported entry point.
    pub rva: u32,
    /// Forwarder string when the export forwards to another library.
    pub forwarder: Option<String>,
}

impl View for PeExport {
    type V = PeExportView;

    open spec fn view(&self) -> PeExportView {
        PeExportView {
            name: opt_chars(self.name),
            ordinal: self.ordinal,
            rva: self.rva,
            forwarder: opt_chars(self.forwarder),
        }
    }
}

/// Views of a list of exports.
pub open spec fn exports_view(v: Seq<PeExport>) -> Seq<PeExportView> {
    v.map_values(|e: PeExport| e@)
}

/// RVA of the last export named `n` (the one a name index built in list order keeps).
pub open spec fn last_rva_named(es: Seq<PeExportView>, n: Seq<char>) -> Option<u32>
    decreases es.len(),
{
    if es.len() == 0 {
        None
    } else if es.last().name == Some(n) {
        Some(es.last().rva)
    } else {
        last_rva_named(es.drop_last(), n)
    }
}

/// RVA of the last export with ordinal `o`.
pub open spec fn last_rva_with_ordinal(es: Seq<PeExportView>, o: u16) -> Option<u32>
    decreases es.len(),
{
    if es.len() == 0 {
        None
    } else if es.last().ordinal == o {
        Some(es.last().rva)
    } else {
        last_rva_with_ordinal(es.drop_last(), o)
    }
}

/// The ordinal index of an export list: each ordinal present maps to the RVA of the last
/// export that carries it.
pub open spec fn ordinal_index(es: Seq<PeExportView>) -> Map<u16, u32> {
    Map::new(
        |o: u16| last_rva_with_ordinal(es, o) is Some,
        |o: u16| last_rva_with_ordinal(es, o)->0,
    )
}

/// Index of the first export with the given RVA.
pub open spec fn first_export_with_rva(es: Seq<PeExportView>, rva: u32) -> Option<int>
    decreases es.len(),
{
    if es.len() == 0 {
        None
    } else if es[0].rva == rva {
        Some(0)
    } else {
        match first_export_with_rva(es.drop_first(), rva) {
            Some(i) => Some(i + 1),
            None => None,
        }
    }
}

/// Abstract content of a [`PeExportDirectory`].
pub struct PeExportDirectoryView {
    pub dll_name: Option<Seq<char>>,
    pub export_table_rva: u32,
    pub export_table_size: u32,
    pub ordinal_base: u32,
    pub exports: Seq<PeExportView>,
    pub by_ordinal: Map<u16, u32>,
}

/// The PE export directory (`IMAGE_DIRECTORY_ENTRY_EXPORT`).
#[derive(Debug, Clone, PartialEq, Eq)]
pub struct PeExportDirectory {
    /// DLL name recorded in the export directory.
    pub dll_name: Option<String>,
    /// RVA of the export table.
    pub export_table_rva: u32,
    /// Size of the export table in bytes.
    pub export_table_size: u32,
    /// Ordinal base (bias, typically 1).
    pub ordinal_base: u32,
    /// All exported symbols, named exports first, in table order.
    pub exports: Vec<PeExport>,
    /// Index from ordinal to function RVA.
    pub by_ordinal: HashMap<u16, u32>,
}

impl View for PeExportDirectory {
    type V = PeExportDirectoryView;

    open spec fn view(&self) -> PeExportDirectoryView {
        PeExportDirectoryView {
            dll_name: opt_chars(self.dll_name),
            export_table_rva: self.export_table_rva,
            export_table_size: self.export_table_size,
            ordinal_base: self.ordinal_base,
            exports: exports_view(self.exports@),
            by_ordinal: self.by_ordinal@,
        }
    }
}

/// Views of an optional export directory.
pub open spec fn opt_exports_view(o: Option<PeExportDirectory>) -> Option<PeExportDirectoryView> {
    match o {
        Some(d) => Some(d@),
        None => None,
    }
}

impl PeExportDirectory {
    /// Finds the entry point RVA of the export named `name` (the last one, when a name is
    /// exported twice).
    pub fn find_rva_by_name(&self, name: &str) -> (r: Option<u32>)
        ensures
            r == last_rva_named(self@.exports, name@),
    {
        let target = name.to_owned();
        let ghost es = self@.exports;
        let mut i = self.exports.len();
        assert(es.take(i as int) =~= es);
        while i > 0
            invariant
                i <= self.exports@.len(),
                es == exports_view(self.exports@),
                last_rva_named(es, name@) == last_rva_named(es.take(i as int), name@),
                target@ == name@,
            decreases i,
        {
            let e = &self.exports[i - 1];
            assert(es.take(i as int).last() == e@);
            assert(es.take(i as int).drop_last() =~= es.take(i - 1));
            match &e.name {
                Some(n) => {
                    if *n == target {
                        return Some(e.rva);
                    }
                },
                None => {},
            }
            i = i - 1;
        }
        None
    }

    /// Finds the entry point RVA recorded for `ordinal` in the ordinal index.
    pub fn find_rva_by_ordinal(&self, ordinal: u16) -> (r: Option<u32>)
        ensures
            r == self.by_ordinal@.get(ordinal),
    {
        match self.by_ordinal.get(&ordinal) {
            Some(v) => Some(*v),
            None => None,
        }
    }

    /// Finds the first export whose RVA is `rva`.
    pub fn find_export_by_rva(&self, rva: u32) -> (r: Option<&PeExport>)
        ensures
            match first_export_with_rva(self@.exports, rva) {
                Some(i) => r == Some(&self.exports@[i]),
                None => r is None,
            },
    {
        let ghost es = self@.exports;
        let n = self.exports.len();
        let mut i: usize = 0;
        assert(es.subrange(0, n as int) =~= es);
        while i < n
            invariant
                n == self.exports@.len(),
                i <= n,
                es == exports_view(self.exports@),
                first_export_with_rva(es, rva) == match first_export_with_rva(
                    es.subrange(i as int, n as int),
                    rva,
                ) {
                    Some(k) => Some(k + i),
                    None => None::<int>,
                },
            decreases n - i,
        {
            assert(es.subrange(i as int, n as int).drop_first() =~= es.subrange(
                i + 1,
                n as int,
            ));
            if self.exports[i].rva == rva {
                return Some(&self.exports[i]);
            }
            i = i + 1;
        }
        None
    }
}

/// Abstract content of a [`PeInfo`].
pub struct PeInfoView {
    pub is_64bit: bool,
    pub machine: u16,
    pub characteristics: u16,
    pub subsystem: u16,
    pub image_base: u64,
    pub size_of_image: u32,
    pub entry_point_rva: u32,
    pub size_of_headers: u32,
    pub sections: Seq<PeSectionView>,
    pub exports: Option<PeExportDirectoryView>,
}

/// Metadata extracted from a Portable Executable (PE) image.
#[derive(Debug, Clone, PartialEq, Eq)]
pub struct PeInfo {
    /// The image is PE32+ (64-bit).
    pub is_64bit: bool,
    /// Target machine architecture.
    pub machine: u16,
    /// COFF characteristics flags.
    pub characteristics: u16,
    /// Target Windows subsystem.
    pub subsystem: u16,
    /// Preferred image base address.
    pub image_base: u64,
    /// Virtual size of the mapped image.
    pub size_of_image: u32,
    /// Entry point RVA.
    pub entry_point_rva: u32,
    /// Size of all headers.
    pub size_of_headers: u32,
    /// Image sections in table order.
    pub sections: Vec<PeSection>,
    /// Export directory, when the image exports symbols.
    pub exports: Option<PeExportDirectory>,
}

impl View for PeInfo {
    type V = PeInfoView;

    open spec fn view(&self) -> PeInfoView {
        PeInfoView {
            is_64bit: self.is_64bit,
            machine: self.machine,
            characteristics: self.characteristics,
            subsystem: self.subsystem,
            image_base: self.image_base,
            size_of_image: self.size_of_image,
            entry_point_rva: self.entry_point_rva,
            size_of_headers: self.size_of_headers,
            sections: sections_view(self.sections@),
            exports: opt_exports_view(self.exports),
        }
    }
}

impl PeInfo {
    /// The image is marked as a DLL.
    pub fn is_dll(&self) -> (r: bool)
        ensures
            r == (self.characteristics & IMAGE_FILE_DLL != 0),
    {
        (self.characteristics & IMAGE_FILE_DLL) != 0
    }

    /// The image is marked as executable.
    pub fn is_executable_image(&self) -> (r: bool)
        ensures
            r == (self.characteristics & IMAGE_FILE_EXECUTABLE_IMAGE != 0),
    {
        (self.characteristics & IMAGE_FILE_EXECUTABLE_IMAGE) != 0
    }

    /// Entry point RVA of the export named `name`, when the image has an export directory.
    pub fn find_export_by_name(&self, name: &str) -> (r: Option<u32>)
        ensures
            r == match self@.exports {
                Some(d) => last_rva_named(d.exports, name@),
                None => None,
            },
    {
        match &self.exports {
            Some(d) => d.find_rva_by_name(name),
            None => None,
        }
    }

    /// The first export whose RVA is `rva`, when the image has an export directory.
    pub fn find_export_by_rva(&self, rva: u32) -> (r: Option<&PeExport>)
        ensures
            match self.exports {
                Some(d) => match first_export_with_rva(d@.exports, rva) {
                    Some(i) => r == Some(&d.exports@[i]),
                    None => r is None,
                },
                None => r is None,
            },
    {
        match &self.exports {
            Some(d) => d.find_export_by_rva(rva),
            None => None,
        }
    }

    /// The first section whose memory span holds `rva`.
    pub fn find_section_by_rva(&self, rva: u32) -> (r: Option<&PeSection>)
        ensures
            match first_section_spanning(self@.sections, rva) {
                Some(i) => r == Some(&self.sections@[i]),
                None => r is None,
            },
    {
        let ghost ss = self@.sections;
        let n = self.sections.len();
        let mut i: usize = 0;
        assert(ss.subrange(0, n as int) =~= ss);
        while i < n
            invariant
                n == self.sections@.len(),
                i <= n,
                ss == sections_view(self.sections@),
                first_section_spanning(ss, rva) == match first_section_spanning(
                    ss.subrange(i as int, n as int),
                    rva,
                ) {
                    Some(k) => Some(k + i),
                    None => None::<int>,
                },
            decreases n - i,
        {
            assert(ss.subrange(i as int, n as int).drop_first() =~= ss.subrange(
                i + 1,
                n as int,
            ));
            if self.sections[i].spans(rva) {
                return Some(&self.sections[i]);
            }
            i = i + 1;
        }
        None
    }
}

} // verus!
