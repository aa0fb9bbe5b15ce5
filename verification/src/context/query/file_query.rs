//! Query handle over one tracked file, and the processes that touched it.
use std::sync::Arc;
use vstd::prelude::*;

use crate::context::identity::FileKey;
use crate::context::models::file::signature::{DigitalSignature, SignatureStatus};
use crate::context::models::file::{FileAccessRecord, FileContext, FileFormatInfo};
use crate::context::query::process_query::{ref_at, ProcessRef};
use crate::context::registries::file_registry::{key_for_path, normalized_path};
use crate::context::system::SystemContext;
use crate::helpers::format::{hex_lower, hex_lower_bytes};
use crate::helpers::pe::models::{exports_view, PeExport, PeExportView, PeInfo};
use crate::helpers::text::{chars_of, last_component, last_path_component, string_from_chars};

verus! {

broadcast use vstd::std_specs::hash::group_hash_axioms;

/// A tracked file, seen through the context that holds it.
pub struct FileRef<'a> {
    /// The context the file belongs to.
    pub ctx: &'a SystemContext,
    /// The file.
    pub inner: &'a FileContext,
}

/// The live process holding `pid` is tracked and touched the file with raw key `fk`.
pub open spec fn touches(ctx: &SystemContext, pid: u32, fk: u64) -> bool {
    let pids = ctx.processes.pids();
    let procs = ctx.processes.procs();
    pids.contains_key(pid) && procs.contains_key(pids[pid]) && procs[pids[pid]].touched_files@.contains(
        fk,
    )
}

/// For each PID of `ps` in order, the process holding it when it touched the file `fk`.
pub open spec fn touching_processes<'a>(ctx: &'a SystemContext, fk: u64, ps: Seq<u32>) -> Seq<
    ProcessRef<'a>,
>
    decreases ps.len(),
{
    if ps.len() == 0 {
        Seq::empty()
    } else {
        let rest = touching_processes(ctx, fk, ps.drop_last());
        if touches(ctx, ps.last(), fk) {
            rest.push(ref_at(ctx, ctx.processes.pids()[ps.last()]))
        } else {
            rest
        }
    }
}

/// `v` holds, for the live PIDs taken once each in some order, the processes holding them
/// that touched the file `fk`.
pub open spec fn lists_touching<'a>(ctx: &'a SystemContext, fk: u64, v: Seq<ProcessRef<'a>>) -> bool {
    exists|ps: Seq<u32>|
        #![trigger touching_processes(ctx, fk, ps)]
        ps.no_duplicates() && ps.to_set() == ctx.processes.pids().dom() && v == touching_processes(
            ctx,
            fk,
            ps,
        )
}

/// The handle on the file tracked under raw key `k`.
pub open spec fn file_ref_at<'a>(ctx: &'a SystemContext, k: u64) -> FileRef<'a> {
    FileRef { ctx, inner: &ctx.files.files()[k] }
}

/// The tracked file a path leads to (after normalization), when there is one.
pub open spec fn file_at_path<'a>(ctx: &'a SystemContext, path: Seq<char>) -> Option<FileRef<'a>> {
    match key_for_path(ctx.files.paths(), normalized_path(path, ctx.files.device_table())) {
        Some(k) => if ctx.files.files().contains_key(k) {
            Some(file_ref_at(ctx, k))
        } else {
            None
        },
        None => None,
    }
}

/// For each raw key of `ks` in order, the tracked file under it (when `only_modified`, only
/// those written to).
pub open spec fn files_among<'a>(ctx: &'a SystemContext, ks: Seq<u64>, only_modified: bool) -> Seq<
    FileRef<'a>,
>
    decreases ks.len(),
{
    if ks.len() == 0 {
        Seq::empty()
    } else {
        let rest = files_among(ctx, ks.drop_last(), only_modified);
        let k = ks.last();
        if ctx.files.files().contains_key(k) && (!only_modified || ctx.files.files()[k].is_modified) {
            rest.push(file_ref_at(ctx, k))
        } else {
            rest
        }
    }
}

/// `v` holds, for the keys of `keys` taken once each in some order, the tracked files under
/// them (when `only_modified`, only those written to).
pub open spec fn lists_files<'a>(
    ctx: &'a SystemContext,
    keys: Set<u64>,
    only_modified: bool,
    v: Seq<FileRef<'a>>,
) -> bool {
    exists|ks: Seq<u64>|
        #![trigger files_among(ctx, ks, only_modified)]
        ks.no_duplicates() && ks.to_set() == keys && v == files_among(ctx, ks, only_modified)
}

/// The tracked files under the keys of `ks`, in order (when `only_modified`, only those
/// written to).
pub fn collect_files<'a>(ctx: &'a SystemContext, ks: &Vec<u64>, only_modified: bool) -> (v: Vec<
    FileRef<'a>,
>)
    ensures
        v@ == files_among(ctx, ks@, only_modified),
{
    let n = ks.len();
    let mut v: Vec<FileRef<'a>> = Vec::new();
    let mut i: usize = 0;
    while i < n
        invariant
            n == ks@.len(),
            i <= n,
            v@ == files_among(ctx, ks@.take(i as int), only_modified),
        decreases n - i,
    {
        let k = ks[i];
        proof {
            assert(ks@.take(i + 1).drop_last() =~= ks@.take(i as int));
            assert(ks@.take(i + 1).last() == k);
        }
        match ctx.files.get_by_key(FileKey(k)) {
            Some(f) => {
                if !only_modified || f.is_modified {
                    v.push(FileRef::new(ctx, f));
                }
            },
            None => {},
        }
        i = i + 1;
    }
    assert(ks@.take(n as int) =~= ks@);
    v
}

/// The exports of a PE image, when it has an export directory.
pub open spec fn exports_of(pe: PeInfo) -> Seq<PeExportView> {
    match pe@.exports {
        Some(d) => d.exports,
        None => Seq::empty(),
    }
}

/// A copy of an export.
fn copy_export(e: &PeExport) -> (r: PeExport)
    ensures
        r@ == e@,
{
    PeExport { name: e.name.clone(), ordinal: e.ordinal, rva: e.rva, forwarder: e.forwarder.clone() }
}

impl<'a> FileRef<'a> {
    /// A handle on `inner`, seen through `ctx`.
    pub fn new(ctx: &'a SystemContext, inner: &'a FileContext) -> (r: Self)
        ensures
            r.ctx == ctx,
            r.inner == inner,
    {
        FileRef { ctx, inner }
    }

    /// The file itself.
    pub fn context(&self) -> (f: &'a FileContext)
        ensures
            f == self.inner,
    {
        self.inner
    }

    /// Synthetic key.
    pub fn key(&self) -> (k: FileKey)
        ensures
            k == self.inner.key,
    {
        self.inner.key
    }

    /// Normalized path.
    pub fn path(&self) -> (s: &'a str)
        ensures
            s@ == self.inner.path@,
    {
        self.inner.path.as_str()
    }

    /// The last component of the path.
    pub fn file_name(&self) -> (s: String)
        ensures
            s@ == last_component(self.inner.path@),
    {
        let v = chars_of(self.inner.path.as_str());
        let c = last_path_component(&v);
        string_from_chars(&c)
    }

    /// Format metadata.
    pub fn format_info(&self) -> (f: &'a FileFormatInfo)
        ensures
            f == &self.inner.format_info,
    {
        &self.inner.format_info
    }

    /// The parsed PE metadata, when the file is a PE image.
    pub fn pe_info(&self) -> (p: Option<Arc<PeInfo>>)
        ensures
            p == (match self.inner.format_info {
                FileFormatInfo::Pe(pe) => Some(pe),
                FileFormatInfo::Unknown => None,
            }),
    {
        self.inner.pe_info()
    }

    /// The file is a parsed PE image.
    pub fn is_pe(&self) -> (b: bool)
        ensures
            b == self.inner.format_info is Pe,
    {
        self.inner.is_pe()
    }

    /// The file is executable (see [`FileContext::is_executable`]).
    pub fn is_executable(&self) -> (b: bool)
        ensures
            b == (match self.inner.format_info {
                FileFormatInfo::Pe(pe) => pe.characteristics
                    & crate::helpers::pe::file_flags::IMAGE_FILE_EXECUTABLE_IMAGE != 0
                    || pe.characteristics & crate::helpers::pe::file_flags::IMAGE_FILE_DLL != 0,
                FileFormatInfo::Unknown => crate::context::models::file::has_executable_extension(
                    self.inner.path@,
                ),
            }),
    {
        self.inner.is_executable()
    }

    /// The file has been written to.
    pub fn has_writes(&self) -> (b: bool)
        ensures
            b == self.inner.is_modified,
    {
        self.inner.has_writes()
    }

    /// The file has been modified on disk (it has been written to).
    pub fn is_modified(&self) -> (b: bool)
        ensures
            b == self.inner.is_modified,
    {
        self.inner.has_writes()
    }

    /// The content hash, when computed.
    pub fn sha256(&self) -> (h: Option<[u8; 32]>)
        ensures
            h == self.inner.sha256,
    {
        self.inner.sha256()
    }

    /// The content hash in lower-case hexadecimal, when computed.
    pub fn sha256_hex(&self) -> (s: Option<String>)
        ensures
            match self.inner.sha256 {
                Some(h) => s is Some && s->0@ == hex_lower_bytes(h@),
                None => s is None,
            },
    {
        match &self.inner.sha256 {
            Some(h) => Some(hex_lower(h.as_slice())),
            None => None,
        }
    }

    /// Name of the signer, when known.
    pub fn signer_name(&self) -> (n: Option<String>)
        ensures
            n == self.inner.signer_name,
    {
        self.inner.signer_name()
    }

    /// Issuer of the signing certificate, when known.
    pub fn issuer_name(&self) -> (n: Option<String>)
        ensures
            n == self.inner.signature.issuer_name,
    {
        self.inner.signature.issuer_name.clone()
    }

    /// The recorded signature verdict.
    pub fn signature(&self) -> (s: &'a DigitalSignature)
        ensures
            s == &self.inner.signature,
    {
        &self.inner.signature
    }

    /// Status of the recorded signature verdict.
    pub fn signature_status(&self) -> (s: SignatureStatus)
        ensures
            s == self.inner.signature.status,
    {
        self.inner.signature_status()
    }

    /// The recorded signature is verified and trusted.
    pub fn is_trusted(&self) -> (b: bool)
        ensures
            b == self.inner.signature.status is SignedVerified,
    {
        self.inner.signature.is_trusted()
    }

    /// The recorded signature is trusted and Microsoft's.
    pub fn is_microsoft(&self) -> (b: bool)
        ensures
            b == (self.inner.signature.is_microsoft && self.inner.signature.status is SignedVerified),
    {
        self.inner.signature.is_microsoft()
    }

    /// When the file was first seen.
    pub fn first_seen(&self) -> (t: i64)
        ensures
            t == self.inner.first_seen,
    {
        self.inner.first_seen
    }

    /// When the file was last accessed.
    pub fn last_accessed(&self) -> (t: i64)
        ensures
            t == self.inner.last_accessed,
    {
        self.inner.last_accessed
    }

    /// The recorded accesses, oldest first.
    pub fn access_history(&self) -> (v: Vec<FileAccessRecord>)
        ensures
            v@ == self.inner.history(),
    {
        self.inner.access_history()
    }

    /// The exports of the file when it is a PE image with an export directory; none
    /// otherwise.
    pub fn exports(&self) -> (v: Vec<PeExport>)
        ensures
            exports_view(v@) == (match self.inner.format_info {
                FileFormatInfo::Pe(pe) => exports_of(*pe),
                FileFormatInfo::Unknown => Seq::empty(),
            }),
    {
        let mut v: Vec<PeExport> = Vec::new();
        match &self.inner.format_info {
            FileFormatInfo::Pe(pe) => match &pe.exports {
                Some(d) => {
                    let es = &d.exports;
                    let n = es.len();
                    let mut i: usize = 0;
                    while i < n
                        invariant
                            es@ == d.exports@,
                            n == es@.len(),
                            i <= n,
                            v@.len() == i,
                            exports_view(v@) == exports_view(es@.take(i as int)),
                        decreases n - i,
                    {
                        let ghost prev = v@;
                        v.push(copy_export(&es[i]));
                        proof {
                            assert forall|j: int| 0 <= j < i + 1 implies exports_view(v@)[j]
                                == exports_view(es@.take(i + 1))[j] by {
                                if j < i {
                                    assert(exports_view(prev)[j] == exports_view(es@.take(i as int))[j]);
                                }
                            }
                            assert(exports_view(v@) =~= exports_view(es@.take(i + 1)));
                        }
                        i = i + 1;
                    }
                    assert(es@.take(n as int) =~= es@);
                },
                None => {
                    assert(exports_view(v@) =~= Seq::<PeExportView>::empty());
                },
            },
            FileFormatInfo::Unknown => {
                assert(exports_view(v@) =~= Seq::<PeExportView>::empty());
            },
        }
        v
    }

    /// Entry point RVA of the export named `name` (see [`PeInfo::find_export_by_name`]), when
    /// the file is a PE image.
    pub fn find_export_rva(&self, name: &str) -> (r: Option<u32>)
        ensures
            r == (match self.inner.format_info {
                FileFormatInfo::Pe(pe) => match pe@.exports {
                    Some(d) => crate::helpers::pe::models::last_rva_named(d.exports, name@),
                    None => None,
                },
                FileFormatInfo::Unknown => None,
            }),
    {
        match &self.inner.format_info {
            FileFormatInfo::Pe(pe) => pe.find_export_by_name(name),
            FileFormatInfo::Unknown => None,
        }
    }

    /// The live processes that touched this file, one for each live PID.
    pub fn accessing_processes(&self) -> (v: Vec<ProcessRef<'a>>)
        ensures
            lists_touching(self.ctx, self.inner.key.0, v@),
    {
        let pids = self.ctx.processes.all_active_pids();
        let target = self.inner.key.0;
        let n = pids.len();
        let mut v: Vec<ProcessRef<'a>> = Vec::new();
        let mut i: usize = 0;
        while i < n
            invariant
                n == pids@.len(),
                i <= n,
                target == self.inner.key.0,
                v@ == touching_processes(self.ctx, target, pids@.take(i as int)),
            decreases n - i,
        {
            let pid = pids[i];
            proof {
                assert(pids@.take(i + 1).drop_last() =~= pids@.take(i as int));
                assert(pids@.take(i + 1).last() == pid);
            }
            match self.ctx.processes.get_by_pid(pid) {
                Some(p) => {
                    if p.touched_files.contains(&target) {
                        v.push(ProcessRef::new(self.ctx, p));
                    }
                },
                None => {},
            }
            i = i + 1;
        }
        assert(pids@.take(n as int) =~= pids@);
        v
    }

    /// The live processes that touched this file, when it has been written to; none
    /// otherwise.
    pub fn modifying_processes(&self) -> (v: Vec<ProcessRef<'a>>)
        ensures
            self.inner.is_modified ==> lists_touching(self.ctx, self.inner.key.0, v@),
            !self.inner.is_modified ==> v@.len() == 0,
    {
        if self.has_writes() {
            self.accessing_processes()
        } else {
            Vec::new()
        }
    }
}

} // verus!
