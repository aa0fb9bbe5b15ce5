//! Query handle over one tracked process, and the walk up its ancestry.
use std::collections::HashMap;
use vstd::prelude::*;

use crate::context::identity::{FileKey, ProcessKey};
use crate::context::models::handle::{HandleObject, HandleTarget};
use crate::context::models::interaction::InteractionRecord;
use crate::context::models::module::LoadedModule;
use crate::context::models::network::NetworkConnection;
use crate::context::models::process::ProcessContext;
use crate::context::models::token::{IntegrityLevel, TokenContext};
use crate::context::query::file_query::{collect_files, file_at_path, lists_files, FileRef};
use crate::context::registries::interaction_registry::injections_of;
use crate::context::registries::network_registry::resolve_connections;
use crate::context::system::SystemContext;
use crate::helpers::keyed::{map_keys, set_elems};
use crate::helpers::text::{
    chars_of, contains, last_component, last_path_component, seq_contains, string_from_chars,
    to_lowercase_str, unicode_lowercase,
};

verus! {

broadcast use vstd::std_specs::hash::group_hash_axioms;

/// A tracked process, seen through the context that holds it.
pub struct ProcessRef<'a> {
    /// The context the process belongs to.
    pub ctx: &'a SystemContext,
    /// The process.
    pub inner: &'a ProcessContext,
}

/// The handle on the process tracked under raw key `k`.
pub open spec fn ref_at<'a>(ctx: &'a SystemContext, k: u64) -> ProcessRef<'a> {
    ProcessRef { ctx, inner: &ctx.processes.procs()[k] }
}

/// The name a process is displayed by: the last component of its image path when known,
/// else its image file name, else `unknown`.
pub open spec fn display_name(p: ProcessContext) -> Seq<char> {
    match p.image_path {
        Some(path) => last_component(path@),
        None => if p.image_file_name@.len() > 0 {
            p.image_file_name@
        } else {
            "unknown"@
        },
    }
}

/// The module's lowercased name contains the lowercased `name`.
pub open spec fn module_matches(m: LoadedModule, name: Seq<char>) -> bool {
    seq_contains(unicode_lowercase(m.info.image_name@), unicode_lowercase(name))
}

/// Some module of the list has a lowercased name containing the lowercased `name`.
pub open spec fn has_module_named(mods: Seq<LoadedModule>, name: Seq<char>) -> bool {
    exists|i: int| 0 <= i < mods.len() && #[trigger] module_matches(mods[i], name)
}

/// `v` lists, each once, the tracked processes whose raw keys are in `keys`, all seen
/// through `ctx`.
pub open spec fn lists_tracked<'a>(ctx: &'a SystemContext, keys: Set<u64>, v: Seq<ProcessRef<'a>>) -> bool {
    &&& forall|i: int|
        0 <= i < v.len() ==> {
            &&& keys.contains((#[trigger] v[i]).inner.key.0)
            &&& ctx.processes.procs().contains_key(v[i].inner.key.0)
            &&& v[i] == ref_at(ctx, v[i].inner.key.0)
        }
    &&& forall|k: u64|
        keys.contains(k) && #[trigger] ctx.processes.procs().contains_key(k) ==> exists|i: int|
            0 <= i < v.len() && v[i].inner.key.0 == k
    &&& forall|i: int, j: int| 0 <= i < j < v.len() ==> v[i].inner.key.0 != v[j].inner.key.0
}

impl<'a> ProcessRef<'a> {
    /// A handle on `inner`, seen through `ctx`.
    pub fn new(ctx: &'a SystemContext, inner: &'a ProcessContext) -> (r: Self)
        ensures
            r.ctx == ctx,
            r.inner == inner,
    {
        ProcessRef { ctx, inner }
    }

    /// The process itself.
    pub fn context(&self) -> (p: &'a ProcessContext)
        ensures
            p == self.inner,
    {
        self.inner
    }

    /// Synthetic key.
    pub fn key(&self) -> (k: ProcessKey)
        ensures
            k == self.inner.key,
    {
        self.inner.key
    }

    /// Operating-system process id.
    pub fn pid(&self) -> (p: u32)
        ensures
            p == self.inner.pid,
    {
        self.inner.pid
    }

    /// Operating-system parent process id.
    pub fn parent_pid(&self) -> (p: u32)
        ensures
            p == self.inner.parent_pid,
    {
        self.inner.parent_pid
    }

    /// Image file name.
    pub fn image_file_name(&self) -> (s: &'a str)
        ensures
            s@ == self.inner.image_file_name@,
    {
        self.inner.image_file_name.as_str()
    }

    /// Full image path, when known.
    pub fn image_path(&self) -> (s: Option<&'a str>)
        ensures
            match self.inner.image_path {
                Some(p) => s is Some && s->0@ == p@,
                None => s is None,
            },
    {
        match &self.inner.image_path {
            Some(p) => Some(p.as_str()),
            None => None,
        }
    }

    /// The name the process is displayed by (see [`display_name`]).
    pub fn image_name(&self) -> (s: String)
        ensures
            s@ == display_name(*self.inner),
    {
        match &self.inner.image_path {
            Some(p) => {
                let v = chars_of(p.as_str());
                let c = last_path_component(&v);
                string_from_chars(&c)
            },
            None => {
                if !self.inner.image_file_name.as_str().is_empty() {
                    self.inner.image_file_name.clone()
                } else {
                    "unknown".to_owned()
                }
            },
        }
    }

    /// Command line, when known.
    pub fn command_line(&self) -> (s: Option<&'a str>)
        ensures
            match self.inner.command_line {
                Some(c) => s is Some && s->0@ == c@,
                None => s is None,
            },
    {
        match &self.inner.command_line {
            Some(c) => Some(c.as_str()),
            None => None,
        }
    }

    /// Creation time.
    pub fn create_time(&self) -> (t: i64)
        ensures
            t == self.inner.create_time,
    {
        self.inner.create_time
    }

    /// The process has not exited.
    pub fn is_alive(&self) -> (b: bool)
        ensures
            b == (self.inner.exit_time == 0),
    {
        self.inner.is_alive()
    }

    /// The process is pinned against garbage collection.
    pub fn is_pinned(&self) -> (b: bool)
        ensures
            b == self.inner.is_pinned,
    {
        self.inner.is_pinned()
    }

    /// The process has been reduced to a tombstone.
    pub fn is_tombstone(&self) -> (b: bool)
        ensures
            b == self.inner.is_tombstone,
    {
        self.inner.is_tombstone()
    }

    /// The security token.
    pub fn token(&self) -> (t: &'a TokenContext)
        ensures
            t == &self.inner.token,
    {
        &self.inner.token
    }

    /// The token is elevated.
    pub fn is_elevated(&self) -> (b: bool)
        ensures
            b == self.inner.token.is_elevated,
    {
        self.inner.token.is_elevated
    }

    /// Integrity level of the token.
    pub fn integrity(&self) -> (l: IntegrityLevel)
        ensures
            l == self.inner.token.integrity,
    {
        self.inner.token.integrity
    }

    /// The token holds the privilege enabled.
    pub fn has_privilege(&self, name: &str) -> (b: bool)
        ensures
            b == self.inner.token.privileges().contains(name@),
    {
        self.inner.token.has_privilege(name)
    }

    /// The parent, when the process has one that is still tracked.
    pub fn parent(&self) -> (r: Option<ProcessRef<'a>>)
        ensures
            r == (match self.inner.parent_key {
                Some(k) => if self.ctx.processes.procs().contains_key(k.0) {
                    Some(ref_at(self.ctx, k.0))
                } else {
                    None
                },
                None => None,
            }),
    {
        match self.inner.parent_key {
            Some(k) => match self.ctx.processes.get_by_key(k) {
                Some(p) => Some(ProcessRef::new(self.ctx, p)),
                None => None,
            },
            None => None,
        }
    }

    /// A walk up the ancestry, starting at the parent.
    pub fn ancestors(&self) -> (it: AncestorIterator<'a>)
        ensures
            it.ctx == self.ctx,
            it.current_key == self.inner.parent_key,
    {
        AncestorIterator { ctx: self.ctx, current_key: self.inner.parent_key }
    }

    /// The direct children that are still tracked, each once.
    pub fn children(&self) -> (v: Vec<ProcessRef<'a>>)
        requires
            self.ctx.wf(),
        ensures
            lists_tracked(self.ctx, self.inner.child_keys@, v@),
    {
        let keys = set_elems(&self.inner.child_keys);
        let n = keys.len();
        let mut v: Vec<ProcessRef<'a>> = Vec::new();
        let mut i: usize = 0;
        while i < n
            invariant
                self.ctx.wf(),
                n == keys@.len(),
                i <= n,
                keys@.to_set() == self.inner.child_keys@,
                keys@.no_duplicates(),
                forall|j: int|
                    0 <= j < v.len() ==> {
                        &&& self.inner.child_keys@.contains((#[trigger] v@[j]).inner.key.0)
                        &&& self.ctx.processes.procs().contains_key(v@[j].inner.key.0)
                        &&& v@[j] == ref_at(self.ctx, v@[j].inner.key.0)
                        &&& exists|m: int| 0 <= m < i && keys@[m] == v@[j].inner.key.0
                    },
                forall|m: int|
                    0 <= m < i && #[trigger] self.ctx.processes.procs().contains_key(keys@[m])
                        ==> exists|j: int| 0 <= j < v.len() && v@[j].inner.key.0 == keys@[m],
                forall|j1: int, j2: int|
                    0 <= j1 < j2 < v.len() ==> v@[j1].inner.key.0 != v@[j2].inner.key.0,
            decreases n - i,
        {
            let k = keys[i];
            assert(keys@.to_set().contains(k));
            let ghost before = v@;
            match self.ctx.processes.get_by_key(ProcessKey(k)) {
                Some(p) => {
                    proof {
                        assert(p.key.0 == k);
                        assert forall|j: int| 0 <= j < v.len() implies v@[j].inner.key.0 != k by {
                            let m = choose|m: int| 0 <= m < i && keys@[m] == v@[j].inner.key.0;
                            assert(keys@[m] != keys@[i as int]);
                        }
                    }
                    v.push(ProcessRef::new(self.ctx, p));
                    proof {
                        assert(v@[v.len() - 1].inner.key.0 == keys@[i as int]);
                    }
                },
                None => {},
            }
            proof {
                assert forall|m: int|
                    0 <= m < i + 1 && #[trigger] self.ctx.processes.procs().contains_key(keys@[m])
                        implies exists|j: int| 0 <= j < v.len() && v@[j].inner.key.0 == keys@[m] by {
                    if m < i {
                        let j = choose|j: int| 0 <= j < before.len() && before[j].inner.key.0 == keys@[m];
                        assert(v@[j] == before[j]);
                    } else {
                        assert(v@[v.len() - 1].inner.key.0 == keys@[m]);
                    }
                }
            }
            i = i + 1;
        }
        proof {
            assert forall|k: u64|
                self.inner.child_keys@.contains(k) && #[trigger] self.ctx.processes.procs().contains_key(
                    k,
                ) implies exists|j: int| 0 <= j < v.len() && v@[j].inner.key.0 == k by {
                assert(keys@.to_set().contains(k));
                let m = choose|m: int| 0 <= m < keys@.len() && keys@[m] == k;
                assert(self.ctx.processes.procs().contains_key(keys@[m]));
            }
        }
        v
    }

    /// Some loaded module's name contains `module_name`, compared in lowercase.
    pub fn has_module(&self, module_name: &str) -> (b: bool)
        ensures
            b == has_module_named(self.inner.loaded_modules@, module_name@),
    {
        let lower = to_lowercase_str(module_name);
        let needle = chars_of(lower.as_str());
        let mods = &self.inner.loaded_modules;
        let n = mods.len();
        let mut i: usize = 0;
        while i < n
            invariant
                mods == &self.inner.loaded_modules,
                n == mods@.len(),
                i <= n,
                needle@ == unicode_lowercase(module_name@),
                forall|j: int| 0 <= j < i ==> !#[trigger] module_matches(mods@[j], module_name@),
            decreases n - i,
        {
            let name = to_lowercase_str(mods[i].image_name());
            let hay = chars_of(name.as_str());
            if contains(&hay, &needle) {
                assert(module_matches(mods@[i as int], module_name@));
                return true;
            }
            i = i + 1;
        }
        false
    }

    /// The module mapped at `addr` (see [`ProcessContext::find_module_by_address`]).
    pub fn find_module_by_address(&self, addr: u64) -> (r: Option<LoadedModule>)
        requires
            crate::context::models::process::modules_wf(self.inner),
        ensures
            r == crate::context::models::process::module_at_address(self.inner.loaded_modules@, addr),
    {
        self.inner.find_module_by_address(addr)
    }

    /// The loaded modules, ascending by base address.
    pub fn loaded_modules(&self) -> (v: Vec<LoadedModule>)
        ensures
            v@ == self.inner.loaded_modules@,
    {
        let mods = &self.inner.loaded_modules;
        let n = mods.len();
        let mut v: Vec<LoadedModule> = Vec::new();
        let mut i: usize = 0;
        while i < n
            invariant
                n == mods@.len(),
                i <= n,
                v@ == mods@.take(i as int),
            decreases n - i,
        {
            v.push(mods[i].clone());
            assert(v@ =~= mods@.take(i + 1));
            i = i + 1;
        }
        assert(mods@.take(n as int) =~= mods@);
        v
    }
}

/// Which handles a handle query selects.
#[derive(Debug, Clone, Copy, PartialEq, Eq, Structural)]
pub enum HandleScope {
    /// Every handle.
    All,
    /// Handles to this process.
    Process(ProcessKey),
    /// Handles to this file.
    File(FileKey),
}

/// The handle falls within the scope.
pub open spec fn in_scope(scope: HandleScope, h: HandleObject) -> bool {
    match scope {
        HandleScope::All => true,
        HandleScope::Process(k) => h.target == HandleTarget::Process(k),
        HandleScope::File(k) => h.target == HandleTarget::File(k),
    }
}

/// For each handle value of `ks` in order, the handle held under it when in scope.
pub open spec fn handles_among(m: Map<u64, HandleObject>, ks: Seq<u64>, scope: HandleScope) -> Seq<
    HandleObject,
>
    decreases ks.len(),
{
    if ks.len() == 0 {
        Seq::empty()
    } else {
        let rest = handles_among(m, ks.drop_last(), scope);
        let k = ks.last();
        if m.contains_key(k) && in_scope(scope, m[k]) {
            rest.push(m[k])
        } else {
            rest
        }
    }
}

/// `v` holds, for the handle values of `m` taken once each in some order, the handles in
/// scope.
pub open spec fn lists_handles(m: Map<u64, HandleObject>, scope: HandleScope, v: Seq<HandleObject>) -> bool {
    exists|ks: Seq<u64>|
        #![trigger handles_among(m, ks, scope)]
        ks.no_duplicates() && ks.to_set() == m.dom() && v == handles_among(m, ks, scope)
}

/// The handles of `m` in scope, by reference.
fn select_handles<'a>(m: &'a HashMap<u64, HandleObject>, scope: HandleScope) -> (v: Vec<&'a HandleObject>)
    ensures
        lists_handles(m@, scope, v@.unref()),
{
    let ks = map_keys(m);
    let n = ks.len();
    let mut v: Vec<&'a HandleObject> = Vec::new();
    let mut i: usize = 0;
    while i < n
        invariant
            n == ks@.len(),
            i <= n,
            v@.unref() == handles_among(m@, ks@.take(i as int), scope),
        decreases n - i,
    {
        let k = ks[i];
        proof {
            assert(ks@.take(i + 1).drop_last() =~= ks@.take(i as int));
            assert(ks@.take(i + 1).last() == k);
        }
        match m.get(&k) {
            Some(h) => {
                let keep = match scope {
                    HandleScope::All => true,
                    HandleScope::Process(p) => match h.target_process() {
                        Some(t) => t == p,
                        None => false,
                    },
                    HandleScope::File(f) => match h.target_file() {
                        Some(t) => t == f,
                        None => false,
                    },
                };
                assert(keep == in_scope(scope, *h));
                if keep {
                    let ghost prev = v@;
                    v.push(h);
                    assert(v@.unref() =~= prev.unref().push(*h));
                }
            },
            None => {},
        }
        i = i + 1;
    }
    assert(ks@.take(n as int) =~= ks@);
    v
}

impl<'a> ProcessRef<'a> {
    /// The open handles, by reference.
    pub fn handles(&self) -> (v: Vec<&'a HandleObject>)
        ensures
            lists_handles(self.inner.handles@, HandleScope::All, v@.unref()),
    {
        select_handles(&self.inner.handles, HandleScope::All)
    }

    /// The open handles to the process with this key.
    pub fn handles_to_process(&self, target: ProcessKey) -> (v: Vec<&'a HandleObject>)
        ensures
            lists_handles(self.inner.handles@, HandleScope::Process(target), v@.unref()),
    {
        select_handles(&self.inner.handles, HandleScope::Process(target))
    }

    /// The open handles to the file with this key.
    pub fn handles_to_file(&self, target: FileKey) -> (v: Vec<&'a HandleObject>)
        ensures
            lists_handles(self.inner.handles@, HandleScope::File(target), v@.unref()),
    {
        select_handles(&self.inner.handles, HandleScope::File(target))
    }

    /// Keys of the files the process touched, each once.
    pub fn touched_file_keys(&self) -> (v: Vec<FileKey>)
        ensures
            forall|k: FileKey| v@.contains(k) <==> self.inner.touched_files@.contains(k.0),
            v@.no_duplicates(),
    {
        let raw = set_elems(&self.inner.touched_files);
        let n = raw.len();
        let mut v: Vec<FileKey> = Vec::new();
        let mut i: usize = 0;
        while i < n
            invariant
                n == raw@.len(),
                i <= n,
                raw@.to_set() == self.inner.touched_files@,
                raw@.no_duplicates(),
                v@.len() == i,
                forall|j: int| 0 <= j < i ==> #[trigger] v@[j] == FileKey(raw@[j]),
            decreases n - i,
        {
            v.push(FileKey(raw[i]));
            i = i + 1;
        }
        proof {
            assert forall|k: FileKey| v@.contains(k) <==> self.inner.touched_files@.contains(k.0) by {
                if v@.contains(k) {
                    let j = choose|j: int| 0 <= j < v@.len() && v@[j] == k;
                    assert(raw@.to_set().contains(raw@[j]));
                }
                if self.inner.touched_files@.contains(k.0) {
                    assert(raw@.to_set().contains(k.0));
                    let j = choose|j: int| 0 <= j < raw@.len() && raw@[j] == k.0;
                    assert(v@[j] == k);
                }
            }
            assert forall|a: int, b: int| 0 <= a < b < v@.len() implies v@[a] != v@[b] by {
                assert(raw@[a] != raw@[b]);
            }
        }
        v
    }

    /// The tracked files the process touched, each once.
    pub fn touched_files(&self) -> (v: Vec<FileRef<'a>>)
        ensures
            lists_files(self.ctx, self.inner.touched_files@, false, v@),
    {
        let ks = set_elems(&self.inner.touched_files);
        collect_files(self.ctx, &ks, false)
    }

    /// The tracked files the process touched that have been written to, each once.
    pub fn modified_files(&self) -> (v: Vec<FileRef<'a>>)
        ensures
            lists_files(self.ctx, self.inner.touched_files@, true, v@),
    {
        let ks = set_elems(&self.inner.touched_files);
        collect_files(self.ctx, &ks, true)
    }

    /// The tracked connections registered for the process, in registration order.
    pub fn network_connections(&self) -> (v: Vec<&'a NetworkConnection>)
        ensures
            v@.unref() == (if self.ctx.network.owned().contains_key(self.inner.key.0) {
                resolve_connections(self.ctx.network.owned()[self.inner.key.0], self.ctx.network.conns())
            } else {
                Seq::empty()
            }),
    {
        self.ctx.network.process_connections(self.inner.key)
    }

    /// Logged injections into the process, oldest first.
    pub fn inbound_injections(&self) -> (v: Vec<&'a InteractionRecord>)
        ensures
            v@.unref() == injections_of(self.ctx.interactions.log(), self.inner.key),
    {
        self.ctx.interactions.injections_into(self.inner.key)
    }

    /// The tracked file of the process image, found by its image path when known, else by
    /// its image file name.
    pub fn image_file(&self) -> (r: Option<FileRef<'a>>)
        ensures
            r == file_at_path(self.ctx, image_lookup_path(*self.inner)),
    {
        let path = match &self.inner.image_path {
            Some(p) => p.as_str(),
            None => self.inner.image_file_name.as_str(),
        };
        match self.ctx.files.get_by_path(path) {
            Some(f) => Some(FileRef::new(self.ctx, f)),
            None => None,
        }
    }

    /// The image file is tracked and carries a present, intact signature (see
    /// [`DigitalSignature::is_signed`]).
    pub fn is_image_signed(&self) -> (b: bool)
        ensures
            b == (match file_at_path(self.ctx, image_lookup_path(*self.inner)) {
                Some(f) => f.inner.signature.status is SignedVerified
                    || f.inner.signature.status is SignedUntrustedRoot
                    || f.inner.signature.status is SignedExpired,
                None => false,
            }),
    {
        match self.image_file() {
            Some(f) => f.inner.signature.is_signed(),
            None => false,
        }
    }

    /// The image file is tracked and trusted as Microsoft's (see
    /// [`DigitalSignature::is_microsoft`]).
    pub fn is_image_microsoft(&self) -> (b: bool)
        ensures
            b == (match file_at_path(self.ctx, image_lookup_path(*self.inner)) {
                Some(f) => f.inner.signature.is_microsoft && f.inner.signature.status is SignedVerified,
                None => false,
            }),
    {
        match self.image_file() {
            Some(f) => f.inner.signature.is_microsoft(),
            None => false,
        }
    }
}

/// The path a process's image file is looked up by: its image path when known, else its
/// image file name.
pub open spec fn image_lookup_path(p: ProcessContext) -> Seq<char> {
    match p.image_path {
        Some(path) => path@,
        None => p.image_file_name@,
    }
}

/// A walk up a process's ancestry: each step yields the process under the current key and
/// moves to its parent.
pub struct AncestorIterator<'a> {
    /// The context the processes belong to.
    pub ctx: &'a SystemContext,
    /// Key of the next process to yield.
    pub current_key: Option<ProcessKey>,
}

impl<'a> AncestorIterator<'a> {
    /// The next ancestor, when the current key names a tracked process; the walk then moves
    /// to that process's parent. Otherwise nothing is yielded and the walk stays put.
    pub fn next(&mut self) -> (r: Option<ProcessRef<'a>>)
        ensures
            final(self).ctx == old(self).ctx,
            match old(self).current_key {
                Some(k) => if old(self).ctx.processes.procs().contains_key(k.0) {
                    &&& r == Some(ref_at(old(self).ctx, k.0))
                    &&& final(self).current_key == old(self).ctx.processes.procs()[k.0].parent_key
                } else {
                    r is None && final(self).current_key == old(self).current_key
                },
                None => r is None && final(self).current_key is None,
            },
    {
        match self.current_key {
            Some(k) => match self.ctx.processes.get_by_key(k) {
                Some(p) => {
                    self.current_key = p.parent_key;
                    Some(ProcessRef::new(self.ctx, p))
                },
                None => None,
            },
            None => None,
        }
    }
}

} // verus!
