//! Executable images mapped into processes.
use std::sync::Arc;
use vstd::prelude::*;

use crate::context::identity::FileKey;
use crate::helpers::text::{
    ascii_lower, ascii_lowercase, chars_of, contains, ends_with, occurs_at, seq_contains, seq_ends_with,
    seq_starts_with, starts_with,
};

verus! {

/// `\windows\system32\`
pub const SYSTEM_PATTERN_SYSTEM32: &'static str = "\\windows\\system32\\";
/// `\windows\syswow64\`
pub const SYSTEM_PATTERN_SYSWOW64: &'static str = "\\windows\\syswow64\\";
/// `\windows\winsxs\`
pub const SYSTEM_PATTERN_WINSXS: &'static str = "\\windows\\winsxs\\";
/// `\systemroot\system32\`
pub const SYSTEM_PATTERN_SYSTEMROOT: &'static str = "\\systemroot\\system32\\";
/// `\??\c:\windows\system32\`
pub const SYSTEM_PATTERN_NT_SYSTEM32: &'static str = "\\??\\c:\\windows\\system32\\";

/// `p` occurs in `l` or begins it.
pub open spec fn pattern_hit(l: Seq<char>, p: Seq<char>) -> bool {
    seq_contains(l, p) || seq_starts_with(l, p)
}

/// The path lies in a recognized Windows system directory or names a core system DLL,
/// compared case-insensitively (ASCII).
pub open spec fn is_system_path_spec(path: Seq<char>) -> bool {
    let l = ascii_lower(path);
    ||| seq_contains(l, "\\system32\\"@)
    ||| seq_contains(l, "\\syswow64\\"@)
    ||| seq_contains(l, "\\winsxs\\"@)
    ||| seq_contains(l, "\\systemroot\\"@)
    ||| seq_ends_with(l, "ntdll.dll"@)
    ||| seq_ends_with(l, "win32u.dll"@)
    ||| seq_ends_with(l, "kernel32.dll"@)
    ||| seq_ends_with(l, "kernelbase.dll"@)
    ||| seq_ends_with(l, "user32.dll"@)
    ||| pattern_hit(l, SYSTEM_PATTERN_SYSTEM32@)
    ||| pattern_hit(l, SYSTEM_PATTERN_SYSWOW64@)
    ||| pattern_hit(l, SYSTEM_PATTERN_WINSXS@)
    ||| pattern_hit(l, SYSTEM_PATTERN_SYSTEMROOT@)
    ||| pattern_hit(l, SYSTEM_PATTERN_NT_SYSTEM32@)
}

/// Every path in one of the system directories `\system32\`, `\syswow64\`, `\winsxs\`
/// or `\systemroot\` (the directory name anywhere in the path, ASCII case-insensitively),
/// and every path ending in the name of a core system DLL (`ntdll.dll`, `win32u.dll`,
/// `kernel32.dll`, `kernelbase.dll`, `user32.dll`), is a system path.
pub proof fn lemma_system_directories(path: Seq<char>, i: int)
    ensures
        occurs_at(ascii_lower(path), "\\system32\\"@, i) ==> is_system_path_spec(path),
        occurs_at(ascii_lower(path), "\\syswow64\\"@, i) ==> is_system_path_spec(path),
        occurs_at(ascii_lower(path), "\\winsxs\\"@, i) ==> is_system_path_spec(path),
        occurs_at(ascii_lower(path), "\\systemroot\\"@, i) ==> is_system_path_spec(path),
        seq_ends_with(ascii_lower(path), "ntdll.dll"@) ==> is_system_path_spec(path),
        seq_ends_with(ascii_lower(path), "win32u.dll"@) ==> is_system_path_spec(path),
        seq_ends_with(ascii_lower(path), "kernel32.dll"@) ==> is_system_path_spec(path),
        seq_ends_with(ascii_lower(path), "kernelbase.dll"@) ==> is_system_path_spec(path),
        seq_ends_with(ascii_lower(path), "user32.dll"@) ==> is_system_path_spec(path),
{
    let l = ascii_lower(path);
    if occurs_at(l, "\\system32\\"@, i) {
        assert(seq_contains(l, "\\system32\\"@));
    }
    if occurs_at(l, "\\syswow64\\"@, i) {
        assert(seq_contains(l, "\\syswow64\\"@));
    }
    if occurs_at(l, "\\winsxs\\"@, i) {
        assert(seq_contains(l, "\\winsxs\\"@));
    }
    if occurs_at(l, "\\systemroot\\"@, i) {
        assert(seq_contains(l, "\\systemroot\\"@));
    }
}

fn lit_in(l: &[char], lit: &str) -> (b: bool)
    ensures
        b == seq_contains(l@, lit@),
{
    let p = chars_of(lit);
    contains(l, &p)
}

fn lit_ends(l: &[char], lit: &str) -> (b: bool)
    ensures
        b == seq_ends_with(l@, lit@),
{
    let p = chars_of(lit);
    ends_with(l, &p)
}

fn lit_hit(l: &[char], lit: &str) -> (b: bool)
    ensures
        b == pattern_hit(l@, lit@),
{
    let p = chars_of(lit);
    contains(l, &p) || starts_with(l, &p)
}

/// Metadata of an image on disk, shared by every process that maps it.
#[derive(Debug, Clone, PartialEq, Eq)]
pub struct ModuleInfo {
    /// File name or full path of the image.
    pub image_name: String,
    /// Size of the mapped image in bytes.
    pub image_size: u64,
    /// Key of the backing file, when resolved.
    pub file_key: Option<FileKey>,
    /// Checksum from the PE header.
    pub checksum: u32,
    /// Preferred base address from the PE header.
    pub default_base: u64,
    /// The image lies in a recognized Windows system directory.
    pub is_system: bool,
}

impl ModuleInfo {
    /// Module metadata, classified as system or not by its path.
    pub fn new(
        image_name: String,
        image_size: u64,
        file_key: Option<FileKey>,
        checksum: u32,
        default_base: u64,
    ) -> (m: Self)
        ensures
            m.image_name@ == image_name@,
            m.image_size == image_size,
            m.file_key == file_key,
            m.checksum == checksum,
            m.default_base == default_base,
            m.is_system == is_system_path_spec(image_name@),
    {
        let is_system = Self::is_system_path(image_name.as_str());
        ModuleInfo { image_name, image_size, file_key, checksum, default_base, is_system }
    }

    /// The path lies in a recognized Windows system directory or names a core system DLL.
    pub fn is_system_path(path: &str) -> (b: bool)
        ensures
            b == is_system_path_spec(path@),
    {
        let raw = chars_of(path);
        let l = ascii_lowercase(&raw);
        lit_in(&l, "\\system32\\") || lit_in(&l, "\\syswow64\\") || lit_in(&l, "\\winsxs\\")
            || lit_in(&l, "\\systemroot\\") || lit_ends(&l, "ntdll.dll") || lit_ends(
            &l,
            "win32u.dll",
        ) || lit_ends(&l, "kernel32.dll") || lit_ends(&l, "kernelbase.dll") || lit_ends(
            &l,
            "user32.dll",
        ) || lit_hit(&l, SYSTEM_PATTERN_SYSTEM32) || lit_hit(&l, SYSTEM_PATTERN_SYSWOW64)
            || lit_hit(&l, SYSTEM_PATTERN_WINSXS) || lit_hit(&l, SYSTEM_PATTERN_SYSTEMROOT)
            || lit_hit(&l, SYSTEM_PATTERN_NT_SYSTEM32)
    }
}

/// `a + b`, or `u64::MAX` when that overflows.
pub open spec fn sat_add_u64(a: u64, b: u64) -> u64 {
    if a + b > u64::MAX {
        u64::MAX
    } else {
        (a + b) as u64
    }
}

/// An image mapped into one process.
#[derive(Debug, PartialEq, Eq)]
pub struct LoadedModule {
    /// Base address of the mapping in the process.
    pub base_address: u64,
    /// When the image was loaded.
    pub load_time: i64,
    /// The image has no backing file on disk.
    pub is_unbacked: bool,
    /// Shared metadata of the image.
    pub info: Arc<ModuleInfo>,
}

impl Clone for LoadedModule {
    /// A copy sharing the same metadata.
    fn clone(&self) -> (m: Self)
        ensures
            m == *self,
    {
        LoadedModule {
            base_address: self.base_address,
            load_time: self.load_time,
            is_unbacked: self.is_unbacked,
            info: Arc::clone(&self.info),
        }
    }
}

impl LoadedModule {
    /// End of the mapped range (exclusive), saturating at the top of the address space.
    pub open spec fn end_spec(&self) -> u64 {
        sat_add_u64(self.base_address, self.info.image_size)
    }

    /// `addr` lies in the half-open mapped range `[base, end)`.
    pub open spec fn covers(&self, addr: u64) -> bool {
        self.base_address <= addr && addr < self.end_spec()
    }

    /// A module with its own freshly built metadata.
    pub fn new(
        base_address: u64,
        image_size: u64,
        image_name: String,
        file_key: Option<FileKey>,
        load_time: i64,
        checksum: u32,
        default_base: u64,
        is_unbacked: bool,
    ) -> (m: Self)
        ensures
            m.base_address == base_address,
            m.load_time == load_time,
            m.is_unbacked == is_unbacked,
            m.info.image_name@ == image_name@,
            m.info.image_size == image_size,
            m.info.file_key == file_key,
            m.info.checksum == checksum,
            m.info.default_base == default_base,
            m.info.is_system == is_system_path_spec(image_name@),
    {
        let info = Arc::new(ModuleInfo::new(image_name, image_size, file_key, checksum, default_base));
        LoadedModule { base_address, load_time, is_unbacked, info }
    }

    /// A module sharing existing metadata.
    pub fn with_info(base_address: u64, load_time: i64, is_unbacked: bool, info: Arc<ModuleInfo>) -> (m: Self)
        ensures
            m.base_address == base_address,
            m.load_time == load_time,
            m.is_unbacked == is_unbacked,
            m.info == info,
    {
        LoadedModule { base_address, load_time, is_unbacked, info }
    }

    /// The path lies in a recognized Windows system directory or names a core system DLL.
    pub fn is_system_path(path: &str) -> (b: bool)
        ensures
            b == is_system_path_spec(path@),
    {
        ModuleInfo::is_system_path(path)
    }

    /// File name or full path of the image.
    pub fn image_name(&self) -> (s: &str)
        ensures
            s@ == self.info.image_name@,
    {
        self.info.image_name.as_str()
    }

    /// Size of the mapped image.
    pub fn image_size(&self) -> (v: u64)
        ensures
            v == self.info.image_size,
    {
        self.info.image_size
    }

    /// Key of the backing file, when resolved.
    pub fn file_key(&self) -> (v: Option<FileKey>)
        ensures
            v == self.info.file_key,
    {
        self.info.file_key
    }

    /// Checksum from the PE header.
    pub fn checksum(&self) -> (v: u32)
        ensures
            v == self.info.checksum,
    {
        self.info.checksum
    }

    /// Preferred base address from the PE header.
    pub fn default_base(&self) -> (v: u64)
        ensures
            v == self.info.default_base,
    {
        self.info.default_base
    }

    /// The image lies in a recognized Windows system directory.
    pub fn is_system(&self) -> (v: bool)
        ensures
            v == self.info.is_system,
    {
        self.info.is_system
    }

    /// `addr` lies in `[base_address, base_address + image_size)`, the end saturating.
    pub fn contains_address(&self, addr: u64) -> (b: bool)
        ensures
            b == self.covers(addr),
    {
        let end = self.base_address.saturating_add(self.info.image_size);
        self.base_address <= addr && addr < end
    }

    /// End of the mapped range, saturating at the top of the address space.
    pub fn end_address(&self) -> (v: u64)
        ensures
            v == self.end_spec(),
    {
        self.base_address.saturating_add(self.info.image_size)
    }

    /// The image was mapped away from its preferred (non-zero) base.
    pub fn is_relocated(&self) -> (b: bool)
        ensures
            b == (self.info.default_base != 0 && self.base_address != self.info.default_base),
    {
        self.info.default_base != 0 && self.base_address != self.info.default_base
    }
}

} // verus!
