//! Files seen on the system: identity, format metadata and a bounded access history.
use std::collections::VecDeque;
use std::sync::Arc;
use vstd::prelude::*;

use crate::context::identity::FileKey;
use crate::helpers::pe::file_flags::{IMAGE_FILE_DLL, IMAGE_FILE_EXECUTABLE_IMAGE};
use crate::helpers::pe::models::PeInfo;
use crate::helpers::text::{ascii_lower, ascii_lowercase, chars_of, ends_with, seq_ends_with};

pub mod signature;

use signature::{DigitalSignature, SignatureStatus};

verus! {

/// Number of access records each file keeps (the oldest are dropped first).
pub const MAX_ACCESS_HISTORY_ENTRIES: usize = 32;

/// What is known of a file's format.
#[derive(Debug, Clone)]
pub enum FileFormatInfo {
    /// Not determined.
    Unknown,
    /// A parsed PE image, shared by every holder.
    Pe(Arc<PeInfo>),
}

impl Default for FileFormatInfo {
    fn default() -> (f: Self)
        ensures
            f is Unknown,
    {
        FileFormatInfo::Unknown
    }
}

/// Kind of a file operation.
#[derive(Debug, Clone, Copy, PartialEq, Eq, Structural, Hash)]
pub enum FileOperationKind {
    /// Create.
    Create,
    /// Open.
    Open,
    /// Read.
    Read,
    /// Write.
    Write,
    /// Delete.
    Delete,
    /// Rename.
    Rename,
    /// Set information.
    SetInformation,
    /// Close.
    Close,
    /// Cleanup.
    Cleanup,
    /// Flush.
    Flush,
}

/// One access to a file.
#[derive(Debug, Clone, Copy, PartialEq, Eq)]
pub struct FileAccessRecord {
    /// The operation.
    pub operation: FileOperationKind,
    /// When it happened.
    pub timestamp: i64,
    /// Bytes transferred.
    pub bytes_transferred: u64,
    /// The operation modifies the file.
    pub is_write: bool,
}

/// The history `h` after recording `r`: `r` appended, the oldest entry dropped first when
/// the history is full.
pub open spec fn history_after(h: Seq<FileAccessRecord>, r: FileAccessRecord) -> Seq<FileAccessRecord> {
    if h.len() >= MAX_ACCESS_HISTORY_ENTRIES {
        h.drop_first().push(r)
    } else {
        h.push(r)
    }
}

/// The path has an executable extension (`.exe`, `.dll`, `.sys`, `.scr`), ASCII case-insensitively.
pub open spec fn has_executable_extension(path: Seq<char>) -> bool {
    let l = ascii_lower(path);
    seq_ends_with(l, ".exe"@) || seq_ends_with(l, ".dll"@) || seq_ends_with(l, ".sys"@)
        || seq_ends_with(l, ".scr"@)
}

/// A file on disk, identified by its normalized path.
#[derive(Debug)]
pub struct FileContext {
    /// Synthetic key.
    pub key: FileKey,
    /// Normalized path.
    pub path: String,
    /// Format metadata.
    pub format_info: FileFormatInfo,
    /// SHA-256 of the content, when computed.
    pub sha256: Option<[u8; 32]>,
    /// Name of the signer, when known.
    pub signer_name: Option<String>,
    /// Verdict of signature verification (unchecked until a verification is recorded).
    pub signature: DigitalSignature,
    /// When the file was first seen.
    pub first_seen: i64,
    /// When it was last accessed.
    pub last_accessed: i64,
    /// The file has been written to.
    pub is_modified: bool,
    /// Recent accesses, oldest first, at most [`MAX_ACCESS_HISTORY_ENTRIES`].
    pub access_history: VecDeque<FileAccessRecord>,
}

impl FileContext {
    /// The recorded accesses, oldest first.
    pub open spec fn history(&self) -> Seq<FileAccessRecord> {
        self.access_history@
    }

    /// The history never exceeds its bound.
    pub open spec fn wf(&self) -> bool {
        self.access_history@.len() <= MAX_ACCESS_HISTORY_ENTRIES
    }

    /// A file first seen at `timestamp`, with nothing else known.
    pub fn new(key: FileKey, path: String, timestamp: i64) -> (f: Self)
        ensures
            f.wf(),
            f.key == key,
            f.path@ == path@,
            f.format_info is Unknown,
            f.sha256 is None,
            f.signer_name is None,
            f.signature.status == SignatureStatus::Unchecked,
            f.first_seen == timestamp,
            f.last_accessed == timestamp,
            !f.is_modified,
            f.history() == Seq::<FileAccessRecord>::empty(),
    {
        FileContext {
            key,
            path,
            format_info: FileFormatInfo::Unknown,
            sha256: None,
            signer_name: None,
            signature: DigitalSignature::unchecked(),
            first_seen: timestamp,
            last_accessed: timestamp,
            is_modified: false,
            access_history: VecDeque::with_capacity(MAX_ACCESS_HISTORY_ENTRIES),
        }
    }

    /// Sets the format metadata.
    pub fn set_format_info(&mut self, info: FileFormatInfo)
        ensures
            final(self).format_info == info,
            final(self).history() == old(self).history(),
            final(self).wf() == old(self).wf(),
            final(self).key == old(self).key,
            final(self).path == old(self).path,
    {
        self.format_info = info;
    }

    /// Records the content hash.
    pub fn set_sha256(&mut self, hash: [u8; 32])
        ensures
            final(self).sha256 == Some(hash),
            final(self).history() == old(self).history(),
            final(self).wf() == old(self).wf(),
    {
        self.sha256 = Some(hash);
    }

    /// The content hash, when computed.
    pub fn sha256(&self) -> (h: Option<[u8; 32]>)
        ensures
            h == self.sha256,
    {
        self.sha256
    }

    /// Records the signer's name.
    pub fn set_signer_name(&mut self, name: String)
        ensures
            final(self).signer_name == Some(name),
            final(self).history() == old(self).history(),
            final(self).wf() == old(self).wf(),
    {
        self.signer_name = Some(name);
    }

    /// The signer's name, when known.
    pub fn signer_name(&self) -> (n: Option<String>)
        ensures
            n == self.signer_name,
    {
        self.signer_name.clone()
    }

    /// Records the verdict of signature verification; the signer's name becomes the
    /// verdict's signer.
    pub fn set_signature(&mut self, sig: DigitalSignature)
        ensures
            final(self).signature == sig,
            final(self).signer_name == sig.signer_name,
            final(self).history() == old(self).history(),
            final(self).wf() == old(self).wf(),
            final(self).key == old(self).key,
            final(self).path == old(self).path,
    {
        self.signer_name = sig.signer_name.clone();
        self.signature = sig;
    }

    /// Status of the recorded signature verdict.
    pub fn signature_status(&self) -> (s: SignatureStatus)
        ensures
            s == self.signature.status,
    {
        self.signature.status
    }

    /// The parsed PE metadata, when the file is a PE image.
    pub fn pe_info(&self) -> (p: Option<Arc<PeInfo>>)
        ensures
            p == (match self.format_info {
                FileFormatInfo::Pe(pe) => Some(pe),
                FileFormatInfo::Unknown => None,
            }),
    {
        match &self.format_info {
            FileFormatInfo::Pe(pe) => Some(Arc::clone(pe)),
            FileFormatInfo::Unknown => None,
        }
    }

    /// The file is a parsed PE image.
    pub fn is_pe(&self) -> (b: bool)
        ensures
            b == self.format_info is Pe,
    {
        match &self.format_info {
            FileFormatInfo::Pe(_) => true,
            FileFormatInfo::Unknown => false,
        }
    }

    /// The file is executable: by its PE characteristics when parsed, otherwise by its
    /// extension.
    pub fn is_executable(&self) -> (b: bool)
        ensures
            b == (match self.format_info {
                FileFormatInfo::Pe(pe) => pe.characteristics & IMAGE_FILE_EXECUTABLE_IMAGE != 0
                    || pe.characteristics & IMAGE_FILE_DLL != 0,
                FileFormatInfo::Unknown => has_executable_extension(self.path@),
            }),
    {
        match &self.format_info {
            FileFormatInfo::Pe(pe) => pe.is_executable_image() || pe.is_dll(),
            FileFormatInfo::Unknown => {
                let raw = chars_of(self.path.as_str());
                let l = ascii_lowercase(&raw);
                let exe = chars_of(".exe");
                let dll = chars_of(".dll");
                let sys = chars_of(".sys");
                let scr = chars_of(".scr");
                ends_with(&l, &exe) || ends_with(&l, &dll) || ends_with(&l, &sys) || ends_with(
                    &l,
                    &scr,
                )
            },
        }
    }

    /// Records an access: marks the file modified on a write, sets the last-access time, and
    /// appends to the bounded history.
    pub fn record_access(&mut self, record: FileAccessRecord)
        requires
            old(self).wf(),
        ensures
            final(self).wf(),
            final(self).history() == history_after(old(self).history(), record),
            final(self).is_modified == (old(self).is_modified || record.is_write),
            final(self).last_accessed == record.timestamp,
            *final(self) == (FileContext {
                access_history: final(self).access_history,
                is_modified: final(self).is_modified,
                last_accessed: final(self).last_accessed,
                ..*old(self)
            }),
    {
        if record.is_write {
            self.is_modified = true;
        }
        self.last_accessed = record.timestamp;
        if self.access_history.len() >= MAX_ACCESS_HISTORY_ENTRIES {
            self.access_history.pop_front();
        }
        self.access_history.push_back(record);
    }

    /// The recorded accesses, oldest first.
    pub fn access_history(&self) -> (v: Vec<FileAccessRecord>)
        ensures
            v@ == self.history(),
    {
        let mut v: Vec<FileAccessRecord> = Vec::new();
        let n = self.access_history.len();
        let mut i: usize = 0;
        while i < n
            invariant
                n == self.access_history@.len(),
                i <= n,
                v@ == self.access_history@.take(i as int),
            decreases n - i,
        {
            let r = self.access_history[i];
            v.push(r);
            assert(v@ =~= self.access_history@.take(i + 1));
            i = i + 1;
        }
        assert(self.access_history@.take(n as int) =~= self.access_history@);
        v
    }

    /// The file has been written to.
    pub fn has_writes(&self) -> (b: bool)
        ensures
            b == self.is_modified,
    {
        self.is_modified
    }

    /// Advances the last-access time to `timestamp` (never moves it back).
    pub fn touch(&mut self, timestamp: i64)
        ensures
            final(self).last_accessed == (if timestamp > old(self).last_accessed {
                timestamp
            } else {
                old(self).last_accessed
            }),
            *final(self) == (FileContext { last_accessed: final(self).last_accessed, ..*old(self) }),
    {
        if timestamp > self.last_accessed {
            self.last_accessed = timestamp;
        }
    }
}

/// The history stays bounded and always ends with the newest record, keeping the records
/// before it in order.
pub proof fn lemma_history_bounded(h: Seq<FileAccessRecord>, r: FileAccessRecord)
    requires
        h.len() <= MAX_ACCESS_HISTORY_ENTRIES,
    ensures
        history_after(h, r).len() <= MAX_ACCESS_HISTORY_ENTRIES,
        history_after(h, r).last() == r,
        h.len() < MAX_ACCESS_HISTORY_ENTRIES ==> history_after(h, r).drop_last() == h,
        h.len() == MAX_ACCESS_HISTORY_ENTRIES ==> history_after(h, r).drop_last() == h.drop_first(),
{
    assert(h.push(r).drop_last() =~= h);
    if h.len() > 0 {
        assert(h.drop_first().push(r).drop_last() =~= h.drop_first());
    }
}

} // verus!
