//! Enrichment of tracked entities with metadata that is expensive to obtain (PE headers,
//! Authenticode verdicts, memory layout). Obtaining it is I/O and happens outside the
//! library, off the event path; the library names the jobs and records their results.
use std::sync::Arc;
use vstd::prelude::*;

use crate::context::identity::{FileKey, ProcessKey};
use crate::context::models::file::signature::DigitalSignature;
use crate::context::models::file::{FileContext, FileFormatInfo};
use crate::context::system::SystemContext;
use crate::helpers::pe::error::PeError;
use crate::helpers::pe::models::PeInfo;

verus! {

/// A job for the enrichment worker.
#[derive(Debug, Clone, Copy, PartialEq, Eq, Structural)]
pub enum EnrichmentTask {
    /// Inspect a newly seen file: PE headers and signature.
    NewFile(FileKey),
    /// Scan the virtual memory layout of a process.
    ScanMemoryVad(ProcessKey),
}

impl SystemContext {
    /// Records what the inspection of the file with this key found: its PE metadata when the
    /// headers parsed, and its signature verdict. Nothing changes when the file is untracked;
    /// a parse failure leaves the format metadata as it was.
    pub fn apply_file_enrichment(
        &mut self,
        key: FileKey,
        parsed: Result<PeInfo, PeError>,
        signature: DigitalSignature,
    )
        requires
            old(self).wf(),
        ensures
            final(self).wf(),
            final(self).files.files().dom() == old(self).files.files().dom(),
            forall|k: u64| #[trigger] final(self).files.files().contains_key(k) && k != key.0 ==> final(self).files.files()[k] == old(self).files.files()[k],
            old(self).files.files().contains_key(key.0) ==> {
                let before = old(self).files.files()[key.0];
                let after = final(self).files.files()[key.0];
                &&& after.signature == signature
                &&& after.format_info == (match parsed {
                    Ok(pe) => FileFormatInfo::Pe(Arc::new(pe)),
                    Err(_) => before.format_info,
                })
                &&& after == (FileContext {
                    signature: after.signature,
                    signer_name: signature.signer_name,
                    format_info: after.format_info,
                    ..before
                })
            },
            final(self).files.paths() == old(self).files.paths(),
            final(self).processes == old(self).processes,
            final(self).interactions == old(self).interactions,
            final(self).retention == old(self).retention,
    {
        match parsed {
            Ok(pe) => {
                self.set_file_format_info(key, FileFormatInfo::Pe(Arc::new(pe)));
            },
            Err(_) => {},
        }
        self.set_file_signature(key, signature);
    }
}

} // verus!
