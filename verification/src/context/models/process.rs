//! One process lifetime: identity, lifecycle, and the modules, handles, threads, files and
//! connections it holds.
//!
//! Loaded modules are kept in ascending order of base address, with at most one module per
//! base, so that an address resolves to its module by binary search.
use std::collections::{HashMap, HashSet};
use vstd::prelude::*;

use crate::context::identity::{ConnectionKey, FileKey, ProcessKey};
use crate::context::models::handle::HandleObject;
use crate::context::models::module::LoadedModule;
use crate::context::models::token::TokenContext;
use crate::helpers::text::{
    ascii_lower, ascii_lowercase, chars_of, ends_with, last_component, last_path_component,
    seq_ends_with, string_from_chars,
};

verus! {

broadcast use vstd::std_specs::hash::group_hash_axioms;

/// Exit code reported while a process is still running (`STILL_ACTIVE`).
pub const STILL_ACTIVE: u32 = 259;

/// Base addresses strictly ascend along `s`.
pub open spec fn strictly_ascending(s: Seq<LoadedModule>) -> bool {
    forall|i: int, j: int| 0 <= i < j < s.len() ==> s[i].base_address < s[j].base_address
}

/// `idx` is where `key` belongs in `s`: every base before it is smaller, every base from it on
/// is at least `key`.
pub open spec fn partition_at(s: Seq<LoadedModule>, key: u64, idx: int) -> bool {
    &&& 0 <= idx <= s.len()
    &&& forall|i: int| 0 <= i < idx ==> s[i].base_address < key
    &&& forall|i: int| idx <= i < s.len() ==> s[i].base_address >= key
}

/// `i` is the module to test for `addr`: the one with the greatest base at or below `addr`.
pub open spec fn is_candidate(s: Seq<LoadedModule>, addr: u64, i: int) -> bool {
    &&& 0 <= i < s.len()
    &&& s[i].base_address <= addr
    &&& (i + 1 == s.len() || addr < s[i + 1].base_address)
}

/// The module whose range holds `addr`, judged by the module with the greatest base at or
/// below `addr`.
pub open spec fn module_at_address(s: Seq<LoadedModule>, addr: u64) -> Option<LoadedModule> {
    if exists|i: int| is_candidate(s, addr, i) && s[i].covers(addr) {
        Some(s[choose|i: int| is_candidate(s, addr, i) && s[i].covers(addr)])
    } else {
        None
    }
}

/// `after` is `before` with `m` recorded: replacing the module at the same base, or
/// inserted in base order.
pub open spec fn module_loaded(before: Seq<LoadedModule>, m: LoadedModule, after: Seq<LoadedModule>) -> bool {
    exists|idx: int|
        #[trigger] partition_at(before, m.base_address, idx) && after == (if idx < before.len()
            && before[idx].base_address == m.base_address {
            before.update(idx, m)
        } else {
            before.insert(idx, m)
        })
}

/// `after` and `removed` are what unmapping the module at `base` leaves of `before`.
pub open spec fn module_unloaded(
    before: Seq<LoadedModule>,
    base: u64,
    after: Seq<LoadedModule>,
    removed: Option<LoadedModule>,
) -> bool {
    if exists|i: int| 0 <= i < before.len() && before[i].base_address == base {
        exists|i: int|
            0 <= i < before.len() && #[trigger] before[i].base_address == base && removed == Some(
                before[i],
            ) && after == before.remove(i)
    } else {
        removed is None && after == before
    }
}

/// Execution context of one process lifetime.
#[derive(Debug)]
pub struct ProcessContext {
    /// Synthetic key.
    pub key: ProcessKey,
    /// Key of the parent, when resolved at spawn.
    pub parent_key: Option<ProcessKey>,
    /// Raw keys of the direct children.
    pub child_keys: HashSet<u64>,
    /// Operating-system process id.
    pub pid: u32,
    /// Operating-system parent process id.
    pub parent_pid: u32,
    /// Session id.
    pub session_id: u32,
    /// Creation time.
    pub create_time: i64,
    /// Exit time (0 while alive).
    pub exit_time: i64,
    /// Exit code (`STILL_ACTIVE` while running).
    pub exit_status: u32,
    /// Exempt from garbage collection.
    pub is_pinned: bool,
    /// Reduced to its ancestry skeleton.
    pub is_tombstone: bool,
    /// Kernel `EPROCESS` address.
    pub unique_process_key: u64,
    /// Directory table base.
    pub page_directory_base: u64,
    /// Image file name, e.g. `cmd.exe`.
    pub image_file_name: String,
    /// Full image path.
    pub image_path: Option<String>,
    /// Command line.
    pub command_line: Option<String>,
    /// Package full name (packaged applications).
    pub package_full_name: Option<String>,
    /// Application id.
    pub application_id: Option<String>,
    /// Security token.
    pub token: TokenContext,
    /// Mapped images, ascending by base address, one per base.
    pub loaded_modules: Vec<LoadedModule>,
    /// Open handles by handle value.
    pub handles: HashMap<u64, HandleObject>,
    /// Live thread ids.
    pub threads: HashSet<u32>,
    /// Raw keys of the files touched.
    pub touched_files: HashSet<u64>,
    /// Connections made, in order.
    pub network_connections: Vec<ConnectionKey>,
}

/// The module list of `p` is ordered by base address.
pub open spec fn modules_wf(p: &ProcessContext) -> bool {
    strictly_ascending(p.loaded_modules@)
}

/// Index of the first module whose base is at least `key`.
fn lower_bound(v: &Vec<LoadedModule>, key: u64) -> (idx: usize)
    requires
        strictly_ascending(v@),
    ensures
        partition_at(v@, key, idx as int),
{
    let mut lo: usize = 0;
    let mut hi: usize = v.len();
    while lo < hi
        invariant
            strictly_ascending(v@),
            0 <= lo <= hi <= v@.len(),
            forall|i: int| 0 <= i < lo ==> v@[i].base_address < key,
            forall|i: int| hi <= i < v@.len() ==> v@[i].base_address >= key,
        decreases hi - lo,
    {
        let mid = lo + (hi - lo) / 2;
        if v[mid].base_address < key {
            lo = mid + 1;
        } else {
            hi = mid;
        }
    }
    lo
}

/// The candidate for `addr` is unique in an ordered module list.
proof fn lemma_candidate_unique(s: Seq<LoadedModule>, addr: u64, i: int, j: int)
    requires
        strictly_ascending(s),
        is_candidate(s, addr, i),
        is_candidate(s, addr, j),
    ensures
        i == j,
{
    if i < j {
        assert(s[i + 1].base_address <= s[j].base_address);
    }
    if j < i {
        assert(s[j + 1].base_address <= s[i].base_address);
    }
}

impl ProcessContext {
    /// A live, unpinned process with nothing recorded beyond its identity.
    pub fn new(
        key: ProcessKey,
        parent_key: Option<ProcessKey>,
        pid: u32,
        parent_pid: u32,
        create_time: i64,
    ) -> (p: Self)
        ensures
            modules_wf(&p),
            p.key == key,
            p.parent_key == parent_key,
            p.pid == pid,
            p.parent_pid == parent_pid,
            p.create_time == create_time,
            p.session_id == 0,
            p.exit_time == 0,
            p.exit_status == STILL_ACTIVE,
            !p.is_pinned,
            !p.is_tombstone,
            p.unique_process_key == 0,
            p.page_directory_base == 0,
            p.image_file_name@.len() == 0,
            p.image_path is None,
            p.command_line is None,
            p.package_full_name is None,
            p.application_id is None,
            p.child_keys@ == Set::<u64>::empty(),
            p.loaded_modules@.len() == 0,
            p.handles@ == Map::<u64, HandleObject>::empty(),
            p.threads@ == Set::<u32>::empty(),
            p.touched_files@ == Set::<u64>::empty(),
            p.network_connections@.len() == 0,
    {
        ProcessContext {
            key,
            parent_key,
            child_keys: HashSet::new(),
            pid,
            parent_pid,
            session_id: 0,
            create_time,
            exit_time: 0,
            exit_status: STILL_ACTIVE,
            is_pinned: false,
            is_tombstone: false,
            unique_process_key: 0,
            page_directory_base: 0,
            image_file_name: String::new(),
            image_path: None,
            command_line: None,
            package_full_name: None,
            application_id: None,
            token: TokenContext::new(),
            loaded_modules: Vec::new(),
            handles: HashMap::new(),
            threads: HashSet::new(),
            touched_files: HashSet::new(),
            network_connections: Vec::new(),
        }
    }

    /// The module whose mapped range holds `addr`: the module with the greatest base at or
    /// below `addr`, when its range reaches `addr`.
    pub fn find_module_by_address(&self, addr: u64) -> (r: Option<LoadedModule>)
        requires
            modules_wf(self),
        ensures
            r == module_at_address(self.loaded_modules@, addr),
    {
        let s = Ghost(self.loaded_modules@);
        let lb = lower_bound(&self.loaded_modules, addr);
        let n = self.loaded_modules.len();
        let candidate: usize;
        if lb < n && self.loaded_modules[lb].base_address == addr {
            candidate = lb;
        } else if lb == 0 {
            proof {
                assert forall|i: int| !is_candidate(s@, addr, i) by {
                    if is_candidate(s@, addr, i) {
                        assert(s@[i].base_address >= addr);
                    }
                }
            }
            return None;
        } else {
            candidate = lb - 1;
        }
        assert(is_candidate(s@, addr, candidate as int));
        let m = &self.loaded_modules[candidate];
        if m.contains_address(addr) {
            proof {
                let c = choose|i: int| is_candidate(s@, addr, i) && s@[i].covers(addr);
                lemma_candidate_unique(s@, addr, c, candidate as int);
            }
            Some(m.clone())
        } else {
            proof {
                assert forall|i: int| is_candidate(s@, addr, i) implies !s@[i].covers(addr) by {
                    lemma_candidate_unique(s@, addr, i, candidate as int);
                }
            }
            None
        }
    }

    /// The process has not exited (its exit time is 0).
    pub fn is_alive(&self) -> (b: bool)
        ensures
            b == (self.exit_time == 0),
    {
        self.exit_time == 0
    }

    /// The process is pinned against garbage collection.
    pub fn is_pinned(&self) -> (b: bool)
        ensures
            b == self.is_pinned,
    {
        self.is_pinned
    }

    /// The process has been reduced to a tombstone.
    pub fn is_tombstone(&self) -> (b: bool)
        ensures
            b == self.is_tombstone,
    {
        self.is_tombstone
    }

    /// Pins the process against garbage collection.
    pub fn pin(&mut self)
        ensures
            *final(self) == (ProcessContext { is_pinned: true, ..*old(self) }),
    {
        self.is_pinned = true;
    }

    /// Releases the pin.
    pub fn unpin(&mut self)
        ensures
            *final(self) == (ProcessContext { is_pinned: false, ..*old(self) }),
    {
        self.is_pinned = false;
    }

    /// Reduces the process to its ancestry skeleton: marks it a tombstone and drops its
    /// modules, handles, threads, touched files and connections.
    pub fn convert_to_tombstone(&mut self)
        ensures
            final(self).is_tombstone,
            final(self).loaded_modules@.len() == 0,
            final(self).handles@ == Map::<u64, HandleObject>::empty(),
            final(self).threads@ == Set::<u32>::empty(),
            final(self).touched_files@ == Set::<u64>::empty(),
            final(self).network_connections@.len() == 0,
            modules_wf(final(self)),
            final(self).key == old(self).key,
            final(self).parent_key == old(self).parent_key,
            final(self).child_keys == old(self).child_keys,
            final(self).pid == old(self).pid,
            final(self).parent_pid == old(self).parent_pid,
            final(self).create_time == old(self).create_time,
            final(self).exit_time == old(self).exit_time,
            final(self).exit_status == old(self).exit_status,
            final(self).is_pinned == old(self).is_pinned,
            final(self).image_file_name == old(self).image_file_name,
            final(self).image_path == old(self).image_path,
            final(self).command_line == old(self).command_line,
    {
        self.is_tombstone = true;
        self.loaded_modules.clear();
        self.handles.clear();
        self.threads.clear();
        self.touched_files.clear();
        self.network_connections.clear();
    }

    /// Sets the image file name.
    pub fn set_image_name(&mut self, name: String)
        ensures
            *final(self) == (ProcessContext { image_file_name: name, ..*old(self) }),
    {
        self.image_file_name = name;
    }

    /// Sets the image path.
    pub fn set_image_path(&mut self, path: String)
        ensures
            *final(self) == (ProcessContext { image_path: Some(path), ..*old(self) }),
    {
        self.image_path = Some(path);
    }

    /// The command line, when recorded.
    pub fn command_line(&self) -> (c: Option<String>)
        ensures
            c == self.command_line,
    {
        self.command_line.clone()
    }

    /// Sets the command line.
    pub fn set_command_line(&mut self, cmd: String)
        ensures
            *final(self) == (ProcessContext { command_line: Some(cmd), ..*old(self) }),
    {
        self.command_line = Some(cmd);
    }

    /// The package full name, when recorded.
    pub fn package_full_name(&self) -> (c: Option<String>)
        ensures
            c == self.package_full_name,
    {
        self.package_full_name.clone()
    }

    /// Sets the package full name.
    pub fn set_package_full_name(&mut self, pkg: String)
        ensures
            *final(self) == (ProcessContext { package_full_name: Some(pkg), ..*old(self) }),
    {
        self.package_full_name = Some(pkg);
    }

    /// The application id, when recorded.
    pub fn application_id(&self) -> (c: Option<String>)
        ensures
            c == self.application_id,
    {
        self.application_id.clone()
    }

    /// Sets the application id.
    pub fn set_application_id(&mut self, app_id: String)
        ensures
            *final(self) == (ProcessContext { application_id: Some(app_id), ..*old(self) }),
    {
        self.application_id = Some(app_id);
    }

    /// Records a mapped image. When the image is an `.exe` (ASCII case-insensitively), it
    /// also fills in an empty image name with the path's last component and a missing image
    /// path with the image name. The module replaces one at the same base or is inserted in
    /// base order.
    pub fn record_module_load(&mut self, module: LoadedModule)
        requires
            modules_wf(old(self)),
        ensures
            modules_wf(final(self)),
            module_loaded(old(self).loaded_modules@, module, final(self).loaded_modules@),
            ({
                let name = module.info.image_name@;
                let is_exe = seq_ends_with(ascii_lower(name), ".exe"@);
                &&& final(self).image_file_name@ == (if is_exe && old(self).image_file_name@.len()
                    == 0 {
                    last_component(name)
                } else {
                    old(self).image_file_name@
                })
                &&& final(self).image_path == (if is_exe && old(self).image_path is None {
                    Some(module.info.image_name)
                } else {
                    old(self).image_path
                })
            }),
            final(self).key == old(self).key,
            final(self).pid == old(self).pid,
            final(self).parent_key == old(self).parent_key,
            final(self).exit_time == old(self).exit_time,
            final(self).is_pinned == old(self).is_pinned,
            final(self).is_tombstone == old(self).is_tombstone,
            final(self).handles == old(self).handles,
            final(self).touched_files == old(self).touched_files,
    {
        let name_chars = chars_of(module.image_name());
        let lowered = ascii_lowercase(&name_chars);
        let exe = chars_of(".exe");
        if ends_with(&lowered, &exe) {
            if self.image_file_name.as_str().is_empty() {
                proof {
                    assert(self.image_file_name@.len() == 0);
                }
                let short = last_path_component(&name_chars);
                self.image_file_name = string_from_chars(&short);
            }
            if self.image_path.is_none() {
                self.image_path = Some(module.info.image_name.clone());
            }
        }
        let ghost before = self.loaded_modules@;
        let idx = lower_bound(&self.loaded_modules, module.base_address);
        let n = self.loaded_modules.len();
        if idx < n && self.loaded_modules[idx].base_address == module.base_address {
            self.loaded_modules.set(idx, module);
        } else {
            self.loaded_modules.insert(idx, module);
        }
        assert(partition_at(before, module.base_address, idx as int));
        proof {
            let after = self.loaded_modules@;
            assert forall|i: int, j: int| 0 <= i < j < after.len() implies after[i].base_address
                < after[j].base_address by {
                if !(idx < n && before[idx as int].base_address == module.base_address) {
                    if j < idx {
                    } else if j == idx {
                    } else if i < idx {
                        assert(after[j] == before[j - 1]);
                    } else if i == idx {
                        assert(after[j] == before[j - 1]);
                    } else {
                        assert(after[i] == before[i - 1]);
                        assert(after[j] == before[j - 1]);
                    }
                } else {
                    if i == idx {
                        assert(before[i].base_address < before[j].base_address);
                    }
                    if j == idx {
                        assert(before[i].base_address < before[j].base_address);
                    }
                }
            }
        }
    }

    /// Unmaps the module at `base_address`, returning it; nothing changes when no module
    /// starts there.
    pub fn record_module_unload(&mut self, base_address: u64) -> (r: Option<LoadedModule>)
        requires
            modules_wf(old(self)),
        ensures
            modules_wf(final(self)),
            module_unloaded(old(self).loaded_modules@, base_address, final(self).loaded_modules@, r),
            *final(self) == (ProcessContext { loaded_modules: final(self).loaded_modules, ..*old(self) }),
    {
        let ghost before = self.loaded_modules@;
        let idx = lower_bound(&self.loaded_modules, base_address);
        let n = self.loaded_modules.len();
        if idx < n && self.loaded_modules[idx].base_address == base_address {
            let m = self.loaded_modules.remove(idx);
            proof {
                let after = self.loaded_modules@;
                assert(before[idx as int].base_address == base_address);
                assert forall|i: int, j: int| 0 <= i < j < after.len() implies after[i].base_address
                    < after[j].base_address by {
                    if i < idx {
                        if j >= idx {
                            assert(after[j] == before[j + 1]);
                        }
                    } else {
                        assert(after[i] == before[i + 1]);
                        assert(after[j] == before[j + 1]);
                    }
                }
            }
            Some(m)
        } else {
            proof {
                assert forall|i: int| 0 <= i < before.len() implies before[i].base_address
                    != base_address by {
                    if i < idx {
                    } else if i > idx {
                        assert(before[idx as int].base_address < before[i].base_address);
                    }
                }
            }
            None
        }
    }

    /// Records an opened handle under its handle value.
    pub fn record_handle_open(&mut self, handle: HandleObject)
        ensures
            final(self).handles@ == old(self).handles@.insert(handle.handle_value, handle),
            *final(self) == (ProcessContext { handles: final(self).handles, ..*old(self) }),
    {
        let v = handle.handle_value;
        self.handles.insert(v, handle);
    }

    /// Forgets a closed handle.
    pub fn record_handle_close(&mut self, handle_value: u64)
        ensures
            final(self).handles@ == old(self).handles@.remove(handle_value),
            *final(self) == (ProcessContext { handles: final(self).handles, ..*old(self) }),
    {
        self.handles.remove(&handle_value);
    }

    /// Records a thread created in the process.
    pub fn record_thread_create(&mut self, tid: u32)
        ensures
            final(self).threads@ == old(self).threads@.insert(tid),
            *final(self) == (ProcessContext { threads: final(self).threads, ..*old(self) }),
    {
        self.threads.insert(tid);
    }

    /// Forgets an exited thread.
    pub fn record_thread_exit(&mut self, tid: u32)
        ensures
            final(self).threads@ == old(self).threads@.remove(tid),
            *final(self) == (ProcessContext { threads: final(self).threads, ..*old(self) }),
    {
        self.threads.remove(&tid);
    }

    /// Records that the process touched a file.
    pub fn record_file_access(&mut self, file_key: FileKey)
        ensures
            final(self).touched_files@ == old(self).touched_files@.insert(file_key.0),
            *final(self) == (ProcessContext { touched_files: final(self).touched_files, ..*old(self) }),
    {
        self.touched_files.insert(file_key.0);
    }

    /// Records a connection made by the process.
    pub fn record_network_connection(&mut self, conn_key: ConnectionKey)
        ensures
            final(self).network_connections@ == old(self).network_connections@.push(conn_key),
            *final(self) == (ProcessContext {
                network_connections: final(self).network_connections,
                ..*old(self)
            }),
    {
        self.network_connections.push(conn_key);
    }

    /// Records the process's exit.
    pub fn mark_terminated(&mut self, exit_status: u32, timestamp: i64)
        ensures
            *final(self) == (ProcessContext { exit_status, exit_time: timestamp, ..*old(self) }),
    {
        self.exit_status = exit_status;
        self.exit_time = timestamp;
    }

}

/// Recording a module and then resolving an address inside its range yields that module,
/// when the module's own base lies in its range (non-empty range).
pub proof fn lemma_load_then_find(before: Seq<LoadedModule>, m: LoadedModule, after: Seq<LoadedModule>)
    requires
        strictly_ascending(before),
        strictly_ascending(after),
        module_loaded(before, m, after),
        m.covers(m.base_address),
    ensures
        module_at_address(after, m.base_address) == Some(m),
{
    let idx = choose|idx: int|
        #[trigger] partition_at(before, m.base_address, idx) && after == (if idx < before.len()
            && before[idx].base_address == m.base_address {
            before.update(idx, m)
        } else {
            before.insert(idx, m)
        });
    assert(after[idx] == m);
    assert(is_candidate(after, m.base_address, idx));
    let c = choose|i: int| is_candidate(after, m.base_address, i) && after[i].covers(m.base_address);
    lemma_candidate_unique(after, m.base_address, c, idx);
}

/// Recording a module and then unmapping its base returns the module and leaves every
/// module at another base as it was before the load.
pub proof fn lemma_load_then_unload(
    before: Seq<LoadedModule>,
    m: LoadedModule,
    mid: Seq<LoadedModule>,
    after: Seq<LoadedModule>,
    removed: Option<LoadedModule>,
)
    requires
        strictly_ascending(before),
        strictly_ascending(mid),
        module_loaded(before, m, mid),
        module_unloaded(mid, m.base_address, after, removed),
    ensures
        removed == Some(m),
        after == before.filter(|x: LoadedModule| x.base_address != m.base_address),
{
    let idx = choose|idx: int|
        #[trigger] partition_at(before, m.base_address, idx) && mid == (if idx < before.len()
            && before[idx].base_address == m.base_address {
            before.update(idx, m)
        } else {
            before.insert(idx, m)
        });
    assert(mid[idx].base_address == m.base_address);
    let i = choose|i: int|
        0 <= i < mid.len() && #[trigger] mid[i].base_address == m.base_address && removed == Some(
            mid[i],
        ) && after == mid.remove(i);
    if i != idx {
        if i < idx {
            assert(mid[i].base_address < mid[idx].base_address);
        } else {
            assert(mid[idx].base_address < mid[i].base_address);
        }
    }
    assert(removed == Some(m));
    let f = before.filter(|x: LoadedModule| x.base_address != m.base_address);
    if idx < before.len() && before[idx].base_address == m.base_address {
        assert(after =~= before.remove(idx));
        lemma_filter_drops_one(before, idx, m.base_address);
    } else {
        assert(after =~= before);
        lemma_filter_drops_none(before, m.base_address);
    }
}

proof fn lemma_filter_drops_none(s: Seq<LoadedModule>, b: u64)
    requires
        forall|i: int| 0 <= i < s.len() ==> s[i].base_address != b,
    ensures
        s.filter(|x: LoadedModule| x.base_address != b) == s,
    decreases s.len(),
{
    let f = |x: LoadedModule| x.base_address != b;
    if s.len() == 0 {
        assert(s.filter(f) =~= s);
    } else {
        lemma_filter_drops_none(s.drop_last(), b);
        assert(s.drop_last().push(s.last()) =~= s);
        reveal(Seq::filter);
    }
}

proof fn lemma_filter_drops_one(s: Seq<LoadedModule>, k: int, b: u64)
    requires
        strictly_ascending(s),
        0 <= k < s.len(),
        s[k].base_address == b,
    ensures
        s.filter(|x: LoadedModule| x.base_address != b) == s.remove(k),
    decreases s.len(),
{
    let f = |x: LoadedModule| x.base_address != b;
    let last = s.len() - 1;
    assert(s.drop_last().push(s.last()) =~= s);
    reveal(Seq::filter);
    if k == last {
        assert forall|i: int| 0 <= i < s.drop_last().len() implies s.drop_last()[i].base_address != b by {
            assert(s[i].base_address < s[k].base_address);
        }
        lemma_filter_drops_none(s.drop_last(), b);
        assert(s.remove(k) =~= s.drop_last());
    } else {
        assert(s.last().base_address != b) by {
            assert(s[k].base_address < s[last].base_address);
        }
        lemma_filter_drops_one(s.drop_last(), k, b);
        assert(s.remove(k) =~= s.drop_last().remove(k).push(s.last()));
    }
}

} // verus!
