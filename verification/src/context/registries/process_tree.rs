//! Registry of process lifetimes, with the mapping from live PIDs to them.
//!
//! PIDs are recycled by the operating system; process keys are not. A live PID maps to the
//! key of the process currently holding it, while every tracked lifetime (live or exited,
//! until evicted) stays reachable by key.
use std::collections::HashMap;
use vstd::std_specs::iter::IteratorSpec;
use vstd::prelude::*;

use crate::context::identity::{IdCounter, ProcessKey};
use crate::context::models::process::{modules_wf, ProcessContext};
use crate::helpers::keyed::{keys_of, set_elems};

verus! {

broadcast use vstd::std_specs::hash::group_hash_axioms;

/// Registry of process lifetimes.
pub struct ProcessTree {
    active_pids: HashMap<u32, u64>,
    processes: HashMap<u64, ProcessContext>,
}

/// Every tracked process sits under its own key, with an ordered module list.
pub open spec fn procs_wf(m: Map<u64, ProcessContext>) -> bool {
    forall|k: u64| #[trigger] m.contains_key(k) ==> m[k].key.0 == k && modules_wf(&m[k])
}

/// The parent a new process with this parent PID resolves to among the live PIDs.
pub open spec fn resolve_parent(pids: Map<u32, u64>, parent_pid: u32) -> Option<ProcessKey> {
    if parent_pid != 0 && pids.contains_key(parent_pid) {
        Some(ProcessKey(pids[parent_pid]))
    } else {
        None
    }
}

/// `after` is `before` with `child` added to the children of the process under `parent`,
/// when that process is tracked.
pub open spec fn child_linked(
    before: Map<u64, ProcessContext>,
    parent: u64,
    child: u64,
    after: Map<u64, ProcessContext>,
) -> bool {
    &&& before.contains_key(parent) ==> {
        &&& after.dom() == before.dom()
        &&& forall|k: u64| #[trigger] after.contains_key(k) && k != parent ==> after[k] == before[k]
        &&& after[parent].child_keys@ == before[parent].child_keys@.insert(child)
        &&& after[parent] == (ProcessContext { child_keys: after[parent].child_keys, ..before[parent] })
    }
    &&& !before.contains_key(parent) ==> after == before
}

/// A live process holds one of the children of `p` in `m`.
pub open spec fn has_live_child(m: Map<u64, ProcessContext>, p: u64) -> bool {
    m.contains_key(p) && exists|c: u64|
        #[trigger] m[p].child_keys@.contains(c) && m.contains_key(c) && m[c].exit_time == 0
}

/// `(pids1, procs1)` is what recording the exit of the process holding `pid` (with
/// `exit_status` at `timestamp`) leaves of `(pids0, procs0)`: the PID is freed, and the
/// process holding it, when tracked, is marked terminated.
pub open spec fn exit_outcome(
    pids0: Map<u32, u64>,
    procs0: Map<u64, ProcessContext>,
    pid: u32,
    exit_status: u32,
    timestamp: i64,
    pids1: Map<u32, u64>,
    procs1: Map<u64, ProcessContext>,
) -> bool {
    &&& pids1 == pids0.remove(pid)
    &&& if pids0.contains_key(pid) && procs0.contains_key(pids0[pid]) {
        procs1 == procs0.insert(
            pids0[pid],
            ProcessContext { exit_status, exit_time: timestamp, ..procs0[pids0[pid]] },
        )
    } else {
        procs1 == procs0
    }
}

/// `(pids1, procs1)` is what adding `context` leaves of `(pids0, procs0)`: the process sits
/// under its key with its parent resolved from the live PIDs, is linked as a child of that
/// parent, and holds its PID.
pub open spec fn insert_outcome(
    pids0: Map<u32, u64>,
    procs0: Map<u64, ProcessContext>,
    context: ProcessContext,
    pids1: Map<u32, u64>,
    procs1: Map<u64, ProcessContext>,
) -> bool {
    let parent = resolve_parent(pids0, context.parent_pid);
    let m1 = procs0.insert(context.key.0, ProcessContext { parent_key: parent, ..context });
    &&& pids1 == pids0.insert(context.pid, context.key.0)
    &&& match parent {
        Some(p) => child_linked(m1, p.0, context.key.0, procs1),
        None => procs1 == m1,
    }
}

/// PID recycling: once the process holding `pid` has exited and a new process, under a key
/// not tracked before, takes the same PID, the PID resolves to the new process while the
/// earlier lifetime stays reachable by its own key, with its identity and its exit kept.
pub proof fn lemma_pid_recycling(
    pids0: Map<u32, u64>,
    procs0: Map<u64, ProcessContext>,
    pid: u32,
    exit_status: u32,
    timestamp: i64,
    pids1: Map<u32, u64>,
    procs1: Map<u64, ProcessContext>,
    context: ProcessContext,
    pids2: Map<u32, u64>,
    procs2: Map<u64, ProcessContext>,
)
    requires
        pids0.contains_key(pid),
        procs0.contains_key(pids0[pid]),
        exit_outcome(pids0, procs0, pid, exit_status, timestamp, pids1, procs1),
        context.pid == pid,
        !procs1.contains_key(context.key.0),
        insert_outcome(pids1, procs1, context, pids2, procs2),
    ensures
        pids2.contains_key(pid),
        pids2[pid] == context.key.0,
        context.key.0 != pids0[pid],
        procs2.contains_key(pids0[pid]),
        procs2[pids0[pid]].key == procs0[pids0[pid]].key,
        procs2[pids0[pid]].pid == procs0[pids0[pid]].pid,
        procs2[pids0[pid]].image_file_name == procs0[pids0[pid]].image_file_name,
        procs2[pids0[pid]].create_time == procs0[pids0[pid]].create_time,
        procs2[pids0[pid]].exit_time == timestamp,
        procs2[pids0[pid]].exit_status == exit_status,
{
    let old_key = pids0[pid];
    assert(procs1.contains_key(old_key));
    let parent = resolve_parent(pids1, context.parent_pid);
    let m1 = procs1.insert(context.key.0, ProcessContext { parent_key: parent, ..context });
    assert(m1.contains_key(old_key) && m1[old_key] == procs1[old_key]);
    match parent {
        Some(p) => {
            if m1.contains_key(p.0) {
                assert(procs2.dom() == m1.dom());
                if old_key != p.0 {
                    assert(procs2[old_key] == m1[old_key]);
                }
            }
        },
        None => {},
    }
}

impl ProcessTree {
    /// Live PIDs and the keys of the processes holding them.
    pub closed spec fn pids(&self) -> Map<u32, u64> {
        self.active_pids@
    }

    /// Tracked processes by raw key.
    pub closed spec fn procs(&self) -> Map<u64, ProcessContext> {
        self.processes@
    }

    /// The registry's invariant.
    pub open spec fn wf(&self) -> bool {
        procs_wf(self.procs())
    }

    /// An empty registry.
    pub fn new() -> (t: Self)
        ensures
            t.wf(),
            t.pids() == Map::<u32, u64>::empty(),
            t.procs() == Map::<u64, ProcessContext>::empty(),
    {
        ProcessTree { active_pids: HashMap::new(), processes: HashMap::new() }
    }

    /// Adds a process: resolves its parent from the live PIDs, links it as a child of that
    /// parent, and makes it the holder of its PID. Returns the resolved parent key.
    pub fn insert_process(&mut self, context: ProcessContext) -> (parent: Option<ProcessKey>)
        requires
            old(self).wf(),
            modules_wf(&context),
        ensures
            final(self).wf(),
            parent == resolve_parent(old(self).pids(), context.parent_pid),
            ({
                let m1 = old(self).procs().insert(
                    context.key.0,
                    ProcessContext { parent_key: parent, ..context },
                );
                match parent {
                    Some(p) => child_linked(m1, p.0, context.key.0, final(self).procs()),
                    None => final(self).procs() == m1,
                }
            }),
            final(self).pids() == old(self).pids().insert(context.pid, context.key.0),
            insert_outcome(old(self).pids(), old(self).procs(), context, final(self).pids(), final(self).procs()),
            final(self).procs().contains_key(context.key.0),
            final(self).procs()[context.key.0] == (ProcessContext {
                parent_key: parent,
                child_keys: final(self).procs()[context.key.0].child_keys,
                ..context
            }),
    {
        let ghost old_context = context;
        let mut context = context;
        let pid = context.pid;
        let key = context.key;
        let resolved: Option<ProcessKey> = if context.parent_pid != 0 {
            match self.active_pids.get(&context.parent_pid) {
                Some(k) => Some(ProcessKey(*k)),
                None => None,
            }
        } else {
            None
        };
        context.parent_key = resolved;
        let ghost inserted = context;
        assert(inserted == ProcessContext { parent_key: resolved, ..old_context });
        self.processes.insert(key.0, context);
        let ghost m1 = self.processes@;
        if let Some(pk) = resolved {
            if let Some(mut parent_ctx) = self.processes.remove(&pk.0) {
                let ghost before_parent = parent_ctx;
                parent_ctx.child_keys.insert(key.0);
                assert(parent_ctx == ProcessContext { child_keys: parent_ctx.child_keys, ..before_parent });
                self.processes.insert(pk.0, parent_ctx);
                assert(self.processes@.dom() =~= m1.dom());
                assert(before_parent == m1[pk.0]);
            } else {
                assert(self.processes@ =~= m1);
            }
        }
        self.active_pids.insert(pid, key.0);
        resolved
    }

    /// Records the exit of the process holding `pid`: frees the PID and marks the process
    /// terminated. Returns its key, or `None` when no live process holds `pid`.
    pub fn exit_process(&mut self, pid: u32, exit_status: u32, timestamp: i64) -> (r: Option<ProcessKey>)
        requires
            old(self).wf(),
        ensures
            final(self).wf(),
            final(self).pids() == old(self).pids().remove(pid),
            exit_outcome(old(self).pids(), old(self).procs(), pid, exit_status, timestamp, final(self).pids(), final(self).procs()),
            !old(self).pids().contains_key(pid) ==> r is None && final(self).procs() == old(self).procs(),
            old(self).pids().contains_key(pid) ==> {
                let k = old(self).pids()[pid];
                if old(self).procs().contains_key(k) {
                    &&& r == Some(ProcessKey(k))
                    &&& final(self).procs() == old(self).procs().insert(
                        k,
                        ProcessContext { exit_status, exit_time: timestamp, ..old(self).procs()[k] },
                    )
                } else {
                    r is None && final(self).procs() == old(self).procs()
                }
            },
    {
        let r = match self.active_pids.remove(&pid) {
            Some(key) => match self.processes.remove(&key) {
                Some(mut ctx) => {
                    ctx.mark_terminated(exit_status, timestamp);
                    self.processes.insert(key, ctx);
                    Some(ProcessKey(key))
                },
                None => None,
            },
            None => None,
        };
        proof {
            if old(self).pids().contains_key(pid) && old(self).procs().contains_key(old(self).pids()[pid]) {
                assert(self.procs() == old(self).procs().insert(
                    old(self).pids()[pid],
                    ProcessContext { exit_status, exit_time: timestamp, ..old(self).procs()[old(self).pids()[pid]] },
                ));
            } else {
                assert(self.procs() =~= old(self).procs());
            }
        }
        r
    }

    /// The process holding `pid`, when one does and it is still tracked.
    pub fn get_by_pid(&self, pid: u32) -> (r: Option<&ProcessContext>)
        ensures
            r == (if self.pids().contains_key(pid) && self.procs().contains_key(self.pids()[pid]) {
                Some(&self.procs()[self.pids()[pid]])
            } else {
                None
            }),
    {
        match self.active_pids.get(&pid) {
            Some(k) => self.processes.get(k),
            None => None,
        }
    }

    /// The tracked process with this key.
    pub fn get_by_key(&self, key: ProcessKey) -> (r: Option<&ProcessContext>)
        ensures
            r == (if self.procs().contains_key(key.0) {
                Some(&self.procs()[key.0])
            } else {
                None
            }),
    {
        self.processes.get(&key.0)
    }

    /// The key of the process holding `pid`; when none does (or it is no longer tracked),
    /// a fresh process with that PID is created first.
    pub fn get_or_create_by_pid(&mut self, pid: u32, timestamp: i64, ids: &mut IdCounter) -> (k: ProcessKey)
        requires
            old(self).wf(),
        ensures
            final(self).wf(),
            final(self).pids().contains_key(pid),
            final(self).pids()[pid] == k.0,
            final(self).procs().contains_key(k.0),
            old(self).pids().contains_key(pid) && old(self).procs().contains_key(old(self).pids()[pid]) ==> {
                &&& k.0 == old(self).pids()[pid]
                &&& final(self).pids() == old(self).pids()
                &&& final(self).procs() == old(self).procs()
                &&& final(ids).peek() == old(ids).peek()
            },
            !(old(self).pids().contains_key(pid) && old(self).procs().contains_key(old(self).pids()[pid])) ==> {
                &&& k.0 == old(ids).peek()
                &&& final(ids).peek() == vstd::wrapping::u64_specs::wrapping_add(old(ids).peek(), 1)
                &&& final(self).pids() == old(self).pids().insert(pid, k.0)
                &&& final(self).procs().dom() == old(self).procs().dom().insert(k.0)
                &&& forall|x: u64| #[trigger] final(self).procs().contains_key(x) && x != k.0
                    ==> final(self).procs()[x] == old(self).procs()[x]
                &&& final(self).procs()[k.0].pid == pid
                &&& final(self).procs()[k.0].parent_pid == 0
                &&& final(self).procs()[k.0].parent_key is None
                &&& final(self).procs()[k.0].create_time == timestamp
                &&& final(self).procs()[k.0].exit_time == 0
                &&& final(self).procs()[k.0].loaded_modules@.len() == 0
            },
    {
        if let Some(k) = self.active_pids.get(&pid) {
            let k = *k;
            if self.processes.contains_key(&k) {
                return ProcessKey(k);
            }
        }
        let key = ProcessKey::new(ids);
        let ctx = ProcessContext::new(key, None, pid, 0, timestamp);
        self.processes.insert(key.0, ctx);
        self.active_pids.insert(pid, key.0);
        assert(self.processes@.dom() =~= old(self).processes@.dom().insert(key.0));
        key
    }

    /// Some child of the process with this key is still alive.
    pub fn has_active_children(&self, parent_key: ProcessKey) -> (b: bool)
        ensures
            b == has_live_child(self.procs(), parent_key.0),
    {
        let parent = match self.processes.get(&parent_key.0) {
            Some(p) => p,
            None => {
                return false;
            },
        };
        let children = set_elems(&parent.child_keys);
        let n = children.len();
        let mut i: usize = 0;
        while i < n
            invariant
                self.procs().contains_key(parent_key.0),
                *parent == self.procs()[parent_key.0],
                children@.to_set() == parent.child_keys@,
                n == children@.len(),
                i <= n,
                forall|j: int|
                    0 <= j < i ==> !(self.procs().contains_key(#[trigger] children@[j])
                        && self.procs()[children@[j]].exit_time == 0),
            decreases n - i,
        {
            let c = children[i];
            match self.processes.get(&c) {
                Some(child) => {
                    if child.exit_time == 0 {
                        assert(children@.to_set().contains(c));
                        return true;
                    }
                },
                None => {},
            }
            i = i + 1;
        }
        proof {
            assert forall|c: u64| #[trigger] parent.child_keys@.contains(c) implies !(
            self.procs().contains_key(c) && self.procs()[c].exit_time == 0) by {
                assert(children@.to_set().contains(c));
                let j = choose|j: int| 0 <= j < children@.len() && children@[j] == c;
                assert(!(self.procs().contains_key(children@[j]) && self.procs()[children@[j]].exit_time == 0));
            }
        }
        false
    }

    /// Stops tracking the process with this key, returning it.
    pub fn evict(&mut self, key: ProcessKey) -> (r: Option<ProcessContext>)
        requires
            old(self).wf(),
        ensures
            final(self).wf(),
            final(self).procs() == old(self).procs().remove(key.0),
            final(self).pids() == old(self).pids(),
            r == (if old(self).procs().contains_key(key.0) {
                Some(old(self).procs()[key.0])
            } else {
                None
            }),
            r matches Some(p) ==> modules_wf(&p) && p.key == key,
    {
        self.processes.remove(&key.0)
    }

    /// Puts a process taken out by [`ProcessTree::evict`] (or a new one) under its key,
    /// replacing whatever was there. The live-PID mapping is unchanged.
    pub fn restore(&mut self, context: ProcessContext)
        requires
            old(self).wf(),
            modules_wf(&context),
        ensures
            final(self).wf(),
            final(self).procs() == old(self).procs().insert(context.key.0, context),
            final(self).pids() == old(self).pids(),
    {
        let k = context.key.0;
        self.processes.insert(k, context);
    }

    /// Sets the pin of the tracked process with this key (nothing when untracked).
    pub fn set_pinned(&mut self, key: ProcessKey, pinned: bool)
        requires
            old(self).wf(),
        ensures
            final(self).wf(),
            final(self).pids() == old(self).pids(),
            final(self).procs().dom() == old(self).procs().dom(),
            forall|p: u64| #[trigger]
                final(self).procs().contains_key(p) ==> if p == key.0 {
                    final(self).procs()[p] == (ProcessContext {
                        is_pinned: pinned,
                        ..old(self).procs()[p]
                    })
                } else {
                    final(self).procs()[p] == old(self).procs()[p]
                },
    {
        match self.processes.remove(&key.0) {
            Some(mut p) => {
                if pinned {
                    p.pin();
                } else {
                    p.unpin();
                }
                self.processes.insert(key.0, p);
                assert(self.processes@.dom() =~= old(self).processes@.dom());
            },
            None => {
                assert(self.processes@ =~= old(self).processes@);
            },
        }
    }

    /// Number of tracked processes.
    pub fn len(&self) -> (n: usize)
        ensures
            n == self.procs().len(),
    {
        self.processes.len()
    }

    /// No process is tracked.
    pub fn is_empty(&self) -> (b: bool)
        ensures
            b == (self.procs().len() == 0),
    {
        self.processes.len() == 0
    }

    /// Number of tracked processes, live or exited.
    pub fn total_process_count(&self) -> (n: usize)
        ensures
            n == self.procs().len(),
    {
        self.processes.len()
    }

    /// Number of live PIDs.
    pub fn active_process_count(&self) -> (n: usize)
        ensures
            n == self.pids().len(),
    {
        self.active_pids.len()
    }

    /// The live PIDs, each once.
    pub fn all_active_pids(&self) -> (v: Vec<u32>)
        ensures
            v@.to_set() == self.pids().dom(),
            v@.no_duplicates(),
    {
        let mut v: Vec<u32> = Vec::new();
        let ghost ks = vstd::std_specs::hash::spec_keys_iter(&self.active_pids).remaining();
        for k in it: self.active_pids.keys()
            invariant
                it.seq() == ks,
                v@ == ks.take(it.index() as int).unref(),
                ks.unref().to_set() == self.active_pids@.dom(),
                ks.no_duplicates(),
        {
            v.push(*k);
            assert(v@ =~= ks.take(it.index() as int + 1).unref());
        }
        assert(ks.take(ks.len() as int) =~= ks);
        assert(v@ =~= ks.unref());
        v
    }

    /// The keys of all tracked processes, each once.
    pub fn all_keys(&self) -> (v: Vec<ProcessKey>)
        ensures
            forall|k: ProcessKey| v@.contains(k) <==> self.procs().contains_key(k.0),
            v@.len() == self.procs().len(),
    {
        let raw = keys_of(&self.processes);
        let n = raw.len();
        let mut v: Vec<ProcessKey> = Vec::new();
        let mut i: usize = 0;
        while i < n
            invariant
                n == raw@.len(),
                i <= n,
                v@.len() == i,
                forall|j: int| 0 <= j < i ==> #[trigger] v@[j] == ProcessKey(raw@[j]),
            decreases n - i,
        {
            v.push(ProcessKey(raw[i]));
            i = i + 1;
        }
        proof {
            assert forall|k: ProcessKey| v@.contains(k) <==> self.procs().contains_key(k.0) by {
                if v@.contains(k) {
                    let j = choose|j: int| 0 <= j < v@.len() && v@[j] == k;
                    assert(raw@.to_set().contains(raw@[j]));
                }
                if self.procs().contains_key(k.0) {
                    assert(raw@.to_set().contains(k.0));
                    let j = choose|j: int| 0 <= j < raw@.len() && raw@[j] == k.0;
                    assert(v@[j] == k);
                }
            }
        }
        v
    }
}

} // verus!
