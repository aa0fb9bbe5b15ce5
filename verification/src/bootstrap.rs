//! Decisions of the start-up sequence: how the registered driver binary path is resolved,
//! whether the driver package must be (re)installed, and which protection level is asked
//! for and accepted. Querying the service manager, the file system and the process token is
//! I/O and happens outside the library.
use vstd::prelude::*;

use crate::helpers::text::{
    chars_of, occurs_at, replace_all, replace_all_chars, seq_starts_with, starts_with,
    string_from_chars, trim_char, trim_end_char, trim_start_char, trim_str, unicode_trim,
};

verus! {

/// Protection level requested from the driver: signer Antimalware (3), type Protected Light (1).
pub const PPL_ANTIMALWARE_REQUEST_LEVEL: u8 = 0x31;

/// Protection level the system reports for a process running as PPL-Antimalware
/// (`PROTECTION_LEVEL_ANTIMALWARE_LIGHT`).
pub const PROTECTION_LEVEL_ANTIMALWARE_LIGHT: u32 = 3;

/// The path a service binary path stands for: trimmed, without the `\??\` prefix and the
/// surrounding quotes, with the system root spelled out.
pub open spec fn cleaned_driver_path(path: Seq<char>, system_root: Seq<char>) -> Seq<char> {
    let trimmed = unicode_trim(path);
    let unprefixed = if seq_starts_with(trimmed, "\\??\\"@) {
        trimmed.subrange(4, trimmed.len() as int)
    } else {
        trimmed
    };
    let unquoted = trim_end_char(trim_start_char(unprefixed, '"'), '"');
    let root_dir = system_root + "\\"@;
    let a = replace_all(unquoted, "\\SystemRoot\\"@, root_dir);
    let b = replace_all(a, "\\systemroot\\"@, root_dir);
    let c = replace_all(b, "%SystemRoot%"@, system_root);
    replace_all(c, "%systemroot%"@, system_root)
}

/// Resolves a service binary path (as the service manager records it) to a file system
/// path, given the system root directory (see [`cleaned_driver_path`]).
pub fn clean_driver_path(path: &str, system_root: &str) -> (r: String)
    ensures
        r@ == cleaned_driver_path(path@, system_root@),
{
    let trimmed = chars_of(trim_str(path));
    let prefix = chars_of("\\??\\");
    proof {
        reveal_strlit("\\??\\");
    }
    let unprefixed: Vec<char> = if starts_with(&trimmed, &prefix) {
        let mut v: Vec<char> = Vec::new();
        let n = trimmed.len();
        let mut i: usize = 4;
        while i < n
            invariant
                4 <= i <= n,
                n == trimmed@.len(),
                v@ == trimmed@.subrange(4, i as int),
            decreases n - i,
        {
            v.push(trimmed[i]);
            i = i + 1;
            assert(v@ =~= trimmed@.subrange(4, i as int));
        }
        v
    } else {
        trimmed
    };
    let unquoted = trim_char(&unprefixed, '"');
    let root = chars_of(system_root);
    let mut root_dir = root.clone();
    root_dir.push('\\');
    proof {
        reveal_strlit("\\");
        assert(root_dir@ =~= system_root@ + "\\"@);
        reveal_strlit("\\SystemRoot\\");
        reveal_strlit("\\systemroot\\");
        reveal_strlit("%SystemRoot%");
        reveal_strlit("%systemroot%");
    }
    let p1 = chars_of("\\SystemRoot\\");
    let p2 = chars_of("\\systemroot\\");
    let p3 = chars_of("%SystemRoot%");
    let p4 = chars_of("%systemroot%");
    let a = replace_all_chars(&unquoted, &p1, &root_dir);
    let b = replace_all_chars(&a, &p2, &root_dir);
    let c = replace_all_chars(&b, &p3, &root);
    let d = replace_all_chars(&c, &p4, &root);
    string_from_chars(&d)
}

/// What to do about the driver package at start-up.
#[derive(Debug, Clone, Copy, PartialEq, Eq, Structural)]
pub enum DriverSetupPlan {
    /// Install the package into the driver store and start the service; when
    /// `unload_existing`, first stop and delete the registered service.
    Install {
        /// A registered service must be removed first.
        unload_existing: bool,
    },
    /// The registered driver is current: start it unless it is already running.
    EnsureRunning,
}

/// The plan for the driver package. `installed_matches` says whether the registered
/// binary is byte-for-byte the packaged one, or is `None` when the registered binary path
/// could not be read (which forces a reinstall).
pub fn plan_driver_setup(is_registered: bool, installed_matches: Option<bool>) -> (p: DriverSetupPlan)
    ensures
        !is_registered ==> p == (DriverSetupPlan::Install { unload_existing: false }),
        is_registered && installed_matches != Some(true) ==> p == (DriverSetupPlan::Install {
            unload_existing: true,
        }),
        is_registered && installed_matches == Some(true) ==> p == DriverSetupPlan::EnsureRunning,
{
    if !is_registered {
        DriverSetupPlan::Install { unload_existing: false }
    } else {
        match installed_matches {
            Some(true) => DriverSetupPlan::EnsureRunning,
            _ => DriverSetupPlan::Install { unload_existing: true },
        }
    }
}

/// The reported protection level is PPL-Antimalware.
pub fn is_ppl_antimalware_level(level: u32) -> (b: bool)
    ensures
        b == (level == PROTECTION_LEVEL_ANTIMALWARE_LIGHT),
{
    level == PROTECTION_LEVEL_ANTIMALWARE_LIGHT
}

} // verus!
