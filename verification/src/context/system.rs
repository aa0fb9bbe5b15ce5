//! The system context: every registry of the agent's knowledge graph, together.
use std::sync::Arc;
use vstd::prelude::*;

use crate::context::config::ContextConfig;
use crate::context::correlation::InjectionCorrelator;
use crate::context::identity::{FileKey, IdCounter, InteractionId, ProcessKey};
use crate::context::models::file::signature::DigitalSignature;
use crate::context::models::file::{FileAccessRecord, FileContext, FileFormatInfo};
use crate::context::models::interaction::InteractionRecord;
use crate::context::models::process::{modules_wf, ProcessContext};
use crate::context::query::file_query::{file_at_path, FileRef};
use crate::context::query::interaction_query::InteractionQuery;
use crate::context::query::network_query::NetworkQuery;
use crate::context::query::process_query::{ref_at, ProcessRef};
use crate::helpers::pe::models::PeInfo;
use crate::context::registries::file_registry::{key_for_path, normalized_path, path_registered, FileRegistry};
use crate::context::registries::interaction_registry::{ring_push, InteractionRegistry};
use crate::context::registries::network_registry::NetworkRegistry;
use crate::context::registries::process_tree::{exit_outcome, insert_outcome, resolve_parent, ProcessTree};
use crate::context::retention::{gc_pass, RetentionManager};

verus! {

/// The knowledge graph of the system: processes, files, connections and interactions,
/// with retention of exited processes.
pub struct SystemContext {
    /// Process lifetimes.
    pub processes: ProcessTree,
    /// Files.
    pub files: FileRegistry,
    /// Network connections.
    pub network: NetworkRegistry,
    /// Interactions log.
    pub interactions: InteractionRegistry,
    /// In-flight injection sequences.
    pub injection_correlator: InjectionCorrelator,
    /// Retention of exited processes.
    pub retention: RetentionManager,
    /// Source of process keys.
    pub process_ids: IdCounter,
    /// Source of file keys.
    pub file_ids: IdCounter,
    /// Source of connection keys.
    pub connection_ids: IdCounter,
    /// Source of interaction ids.
    pub interaction_ids: IdCounter,
}

impl SystemContext {
    /// The registries' invariants.
    pub open spec fn wf(&self) -> bool {
        &&& self.processes.wf()
        &&& self.files.wf()
        &&& self.interactions.wf()
        &&& forall|k: u64| #[trigger] self.files.files().contains_key(k) ==> k < self.file_ids.peek()
    }

    /// An empty context with the production settings.
    pub fn new() -> (c: Self)
        ensures
            c.wf(),
            c.processes.procs().len() == 0,
            c.retention.settings().retention_ttl_ms == 600_000,
            c.files.files() == Map::<u64, FileContext>::empty(),
            c.process_ids.peek() == 1,
            c.file_ids.peek() == 1,
            c.connection_ids.peek() == 1,
            c.interaction_ids.peek() == 1,
            c.interactions.capacity() == 100_000,
    {
        Self::new_with_config(ContextConfig::default())
    }

    /// An empty context with the given settings. Periodic collection is driven by the
    /// caller through [`SystemContext::run_gc_pass`].
    pub fn new_with_config(config: ContextConfig) -> (c: Self)
        ensures
            c.wf(),
            c.processes.pids() == Map::<u32, u64>::empty(),
            c.processes.procs() == Map::<u64, ProcessContext>::empty(),
            c.files.files() == Map::<u64, FileContext>::empty(),
            c.interactions.log().len() == 0,
            c.interactions.capacity() == config.max_interaction_capacity,
            c.retention.settings() == config,
            c.retention.queue().len() == 0,
            c.process_ids.peek() == 1,
            c.file_ids.peek() == 1,
            c.connection_ids.peek() == 1,
            c.interaction_ids.peek() == 1,
    {
        let max_interactions = config.max_interaction_capacity;
        SystemContext {
            processes: ProcessTree::new(),
            files: FileRegistry::new(),
            network: NetworkRegistry::new(),
            interactions: InteractionRegistry::new(max_interactions),
            injection_correlator: InjectionCorrelator::new(),
            retention: RetentionManager::new(config),
            process_ids: IdCounter::new(),
            file_ids: IdCounter::new(),
            connection_ids: IdCounter::new(),
            interaction_ids: IdCounter::new(),
        }
    }

    /// An empty context with the given settings, for tests.
    pub fn new_for_test(config: ContextConfig) -> (c: Self)
        ensures
            c.wf(),
            c.processes.pids() == Map::<u32, u64>::empty(),
            c.processes.procs() == Map::<u64, ProcessContext>::empty(),
            c.files.files() == Map::<u64, FileContext>::empty(),
            c.interactions.log().len() == 0,
            c.interactions.capacity() == config.max_interaction_capacity,
            c.retention.settings() == config,
            c.retention.queue().len() == 0,
            c.process_ids.peek() == 1,
            c.file_ids.peek() == 1,
            c.connection_ids.peek() == 1,
            c.interaction_ids.peek() == 1,
    {
        Self::new_with_config(config)
    }

    /// A fresh process key.
    pub fn next_process_key(&mut self) -> (k: ProcessKey)
        ensures
            k.0 == old(self).process_ids.peek(),
            final(self).process_ids.peek() == vstd::wrapping::u64_specs::wrapping_add(old(self).process_ids.peek(), 1),
            final(self).processes == old(self).processes,
            final(self).files == old(self).files,
            final(self).interactions == old(self).interactions,
            final(self).retention == old(self).retention,
            final(self).file_ids == old(self).file_ids,
    {
        ProcessKey::new(&mut self.process_ids)
    }

    /// Adds a process (see [`ProcessTree::insert_process`]). Returns the resolved parent.
    pub fn insert_process(&mut self, context: ProcessContext) -> (parent: Option<ProcessKey>)
        requires
            old(self).wf(),
            modules_wf(&context),
        ensures
            final(self).wf(),
            parent == resolve_parent(old(self).processes.pids(), context.parent_pid),
            final(self).processes.pids() == old(self).processes.pids().insert(context.pid, context.key.0),
            insert_outcome(
                old(self).processes.pids(),
                old(self).processes.procs(),
                context,
                final(self).processes.pids(),
                final(self).processes.procs(),
            ),
            final(self).processes.procs().contains_key(context.key.0),
            final(self).processes.procs()[context.key.0] == (ProcessContext {
                parent_key: parent,
                child_keys: final(self).processes.procs()[context.key.0].child_keys,
                ..context
            }),
            final(self).files == old(self).files,
            final(self).interactions == old(self).interactions,
            final(self).retention == old(self).retention,
            final(self).process_ids == old(self).process_ids,
            final(self).file_ids == old(self).file_ids,
    {
        let p = self.processes.insert_process(context);
        p
    }

    /// Records the exit of the process holding `pid` and queues it for retention.
    pub fn exit_process(&mut self, pid: u32, exit_status: u32, timestamp: i64) -> (r: Option<ProcessKey>)
        requires
            old(self).wf(),
        ensures
            final(self).wf(),
            final(self).processes.pids() == old(self).processes.pids().remove(pid),
            exit_outcome(
                old(self).processes.pids(),
                old(self).processes.procs(),
                pid,
                exit_status,
                timestamp,
                final(self).processes.pids(),
                final(self).processes.procs(),
            ),
            r == (if old(self).processes.pids().contains_key(pid) && old(self).processes.procs().contains_key(
                old(self).processes.pids()[pid],
            ) {
                Some(ProcessKey(old(self).processes.pids()[pid]))
            } else {
                None
            }),
            final(self).retention.queue() == (match r {
                Some(k) => old(self).retention.queue().push((k, timestamp)),
                None => old(self).retention.queue(),
            }),
            final(self).processes.procs() == (match r {
                Some(k) => old(self).processes.procs().insert(
                    k.0,
                    ProcessContext { exit_status, exit_time: timestamp, ..old(self).processes.procs()[k.0] },
                ),
                None => old(self).processes.procs(),
            }),
            final(self).retention.settings() == old(self).retention.settings(),
            final(self).files == old(self).files,
            final(self).interactions == old(self).interactions,
    {
        let r = self.processes.exit_process(pid, exit_status, timestamp);
        match r {
            Some(k) => {
                self.retention.enqueue_exit(k, timestamp);
            },
            None => {},
        }
        r
    }

    /// The process holding `pid`.
    pub fn get_process(&self, pid: u32) -> (r: Option<&ProcessContext>)
        ensures
            r == (if self.processes.pids().contains_key(pid) && self.processes.procs().contains_key(
                self.processes.pids()[pid],
            ) {
                Some(&self.processes.procs()[self.processes.pids()[pid]])
            } else {
                None
            }),
    {
        self.processes.get_by_pid(pid)
    }

    /// The tracked process with this key.
    pub fn get_process_by_key(&self, key: ProcessKey) -> (r: Option<&ProcessContext>)
        ensures
            r == (if self.processes.procs().contains_key(key.0) {
                Some(&self.processes.procs()[key.0])
            } else {
                None
            }),
    {
        self.processes.get_by_key(key)
    }

    /// A query handle on the process holding `pid`.
    pub fn process(&self, pid: u32) -> (r: Option<ProcessRef<'_>>)
        ensures
            r == (if self.processes.pids().contains_key(pid) && self.processes.procs().contains_key(
                self.processes.pids()[pid],
            ) {
                Some(ref_at(self, self.processes.pids()[pid]))
            } else {
                None
            }),
    {
        match self.processes.get_by_pid(pid) {
            Some(p) => Some(ProcessRef::new(self, p)),
            None => None,
        }
    }

    /// A query handle on the tracked process with this key.
    pub fn process_by_key(&self, key: ProcessKey) -> (r: Option<ProcessRef<'_>>)
        ensures
            r == (if self.processes.procs().contains_key(key.0) {
                Some(ref_at(self, key.0))
            } else {
                None
            }),
    {
        match self.processes.get_by_key(key) {
            Some(p) => Some(ProcessRef::new(self, p)),
            None => None,
        }
    }

    /// Pins the tracked process with this key against garbage collection (nothing when
    /// untracked).
    pub fn pin_process(&mut self, key: ProcessKey)
        requires
            old(self).wf(),
        ensures
            final(self).wf(),
            final(self).processes.pids() == old(self).processes.pids(),
            final(self).processes.procs() == (if old(self).processes.procs().contains_key(key.0) {
                old(self).processes.procs().insert(
                    key.0,
                    ProcessContext { is_pinned: true, ..old(self).processes.procs()[key.0] },
                )
            } else {
                old(self).processes.procs()
            }),
            final(self).files == old(self).files,
            final(self).interactions == old(self).interactions,
            final(self).retention == old(self).retention,
    {
        self.processes.set_pinned(key, true);
        assert(self.processes.procs() =~= (if old(self).processes.procs().contains_key(key.0) {
            old(self).processes.procs().insert(
                key.0,
                ProcessContext { is_pinned: true, ..old(self).processes.procs()[key.0] },
            )
        } else {
            old(self).processes.procs()
        }));
    }

    /// Releases the pin of the tracked process with this key (nothing when untracked).
    pub fn unpin_process(&mut self, key: ProcessKey)
        requires
            old(self).wf(),
        ensures
            final(self).wf(),
            final(self).processes.pids() == old(self).processes.pids(),
            final(self).processes.procs() == (if old(self).processes.procs().contains_key(key.0) {
                old(self).processes.procs().insert(
                    key.0,
                    ProcessContext { is_pinned: false, ..old(self).processes.procs()[key.0] },
                )
            } else {
                old(self).processes.procs()
            }),
            final(self).files == old(self).files,
            final(self).interactions == old(self).interactions,
            final(self).retention == old(self).retention,
    {
        self.processes.set_pinned(key, false);
        assert(self.processes.procs() =~= (if old(self).processes.procs().contains_key(key.0) {
            old(self).processes.procs().insert(
                key.0,
                ProcessContext { is_pinned: false, ..old(self).processes.procs()[key.0] },
            )
        } else {
            old(self).processes.procs()
        }));
    }

    /// Filters over the interaction log.
    pub fn query_interactions(&self) -> (q: InteractionQuery<'_>)
        ensures
            q.ctx == self,
    {
        InteractionQuery::new(self)
    }

    /// Filters over the tracked connections.
    pub fn network_query(&self) -> (q: NetworkQuery<'_>)
        ensures
            q.ctx == self,
    {
        NetworkQuery::new(self)
    }

    /// Keys of the files touched by the process holding `pid` (none when no tracked process
    /// holds it), each once.
    pub fn touched_files(&self, pid: u32) -> (v: Vec<FileKey>)
        ensures
            forall|k: FileKey| #[trigger] v@.contains(k) <==> {
                &&& self.processes.pids().contains_key(pid)
                &&& self.processes.procs().contains_key(self.processes.pids()[pid])
                &&& self.processes.procs()[self.processes.pids()[pid]].touched_files@.contains(k.0)
            },
            v@.no_duplicates(),
    {
        match self.process(pid) {
            Some(p) => p.touched_file_keys(),
            None => Vec::new(),
        }
    }

    /// Keys of the files touched by the tracked process with this key (none when untracked),
    /// each once.
    pub fn touched_files_by_key(&self, key: ProcessKey) -> (v: Vec<FileKey>)
        ensures
            forall|k: FileKey| #[trigger] v@.contains(k) <==> {
                &&& self.processes.procs().contains_key(key.0)
                &&& self.processes.procs()[key.0].touched_files@.contains(k.0)
            },
            v@.no_duplicates(),
    {
        match self.process_by_key(key) {
            Some(p) => p.touched_file_keys(),
            None => Vec::new(),
        }
    }

    /// The recorded accesses to the tracked file with this key, oldest first (none when
    /// untracked).
    pub fn file_access_history(&self, key: FileKey) -> (v: Vec<FileAccessRecord>)
        ensures
            v@ == (if self.files.files().contains_key(key.0) {
                self.files.files()[key.0].history()
            } else {
                Seq::empty()
            }),
    {
        match self.files.get_by_key(key) {
            Some(f) => f.access_history(),
            None => Vec::new(),
        }
    }

    /// Attaches format metadata to the tracked file with this key (nothing when untracked).
    pub fn set_file_format_info(&mut self, key: FileKey, info: FileFormatInfo)
        requires
            old(self).wf(),
        ensures
            final(self).wf(),
            final(self).files.files().dom() == old(self).files.files().dom(),
            forall|k: u64| #[trigger] final(self).files.files().contains_key(k) && k != key.0 ==> final(self).files.files()[k] == old(self).files.files()[k],
            old(self).files.files().contains_key(key.0) ==> {
                let before = old(self).files.files()[key.0];
                let after = final(self).files.files()[key.0];
                &&& after.format_info == info
                &&& after == (FileContext { format_info: after.format_info, ..before })
            },
            final(self).files.paths() == old(self).files.paths(),
            final(self).processes == old(self).processes,
            final(self).interactions == old(self).interactions,
            final(self).retention == old(self).retention,
    {
        self.files.set_format_info(key, info)
    }

    /// Records a signature verdict on the tracked file with this key (nothing when
    /// untracked); the file's signer name becomes the verdict's signer.
    pub fn set_file_signature(&mut self, key: FileKey, sig: DigitalSignature)
        requires
            old(self).wf(),
        ensures
            final(self).wf(),
            final(self).files.files().dom() == old(self).files.files().dom(),
            forall|k: u64| #[trigger] final(self).files.files().contains_key(k) && k != key.0 ==> final(self).files.files()[k] == old(self).files.files()[k],
            old(self).files.files().contains_key(key.0) ==> {
                let before = old(self).files.files()[key.0];
                let after = final(self).files.files()[key.0];
                &&& after.signature == sig
                &&& after == (FileContext { signature: after.signature, signer_name: sig.signer_name, ..before })
            },
            final(self).files.paths() == old(self).files.paths(),
            final(self).processes == old(self).processes,
            final(self).interactions == old(self).interactions,
            final(self).retention == old(self).retention,
    {
        self.files.set_signature(key, sig)
    }

    /// The parsed PE metadata of the tracked file with this key, when it is a PE image.
    pub fn file_pe_info(&self, key: FileKey) -> (p: Option<Arc<PeInfo>>)
        ensures
            p == (if self.files.files().contains_key(key.0) {
                match self.files.files()[key.0].format_info {
                    FileFormatInfo::Pe(pe) => Some(pe),
                    FileFormatInfo::Unknown => None,
                }
            } else {
                None
            }),
    {
        match self.files.get_by_key(key) {
            Some(f) => f.pe_info(),
            None => None,
        }
    }

    /// The key of the process holding `pid`, creating one when none does.
    pub fn get_or_create_process(&mut self, pid: u32, timestamp: i64) -> (k: ProcessKey)
        requires
            old(self).wf(),
        ensures
            final(self).wf(),
            final(self).processes.pids().contains_key(pid),
            final(self).processes.pids()[pid] == k.0,
            final(self).processes.procs().contains_key(k.0),
            old(self).processes.pids().contains_key(pid) && old(self).processes.procs().contains_key(
                old(self).processes.pids()[pid],
            ) ==> {
                &&& k.0 == old(self).processes.pids()[pid]
                &&& final(self).processes.procs() == old(self).processes.procs()
            },
            !(old(self).processes.pids().contains_key(pid) && old(self).processes.procs().contains_key(
                old(self).processes.pids()[pid],
            )) ==> {
                &&& final(self).processes.procs()[k.0].pid == pid
                &&& final(self).processes.procs()[k.0].create_time == timestamp
                &&& final(self).processes.procs()[k.0].exit_time == 0
                &&& final(self).processes.procs()[k.0].loaded_modules@.len() == 0
            },
            final(self).files == old(self).files,
            final(self).interactions == old(self).interactions,
            final(self).retention == old(self).retention,
    {
        self.processes.get_or_create_by_pid(pid, timestamp, &mut self.process_ids)
    }

    /// The file at this path, creating it when new (see [`FileRegistry::get_or_create`]).
    /// File keys are never reused: one is left for a new file while the key counter is below
    /// `u64::MAX`.
    pub fn get_or_create_file(&mut self, path: &str, timestamp: i64) -> (k: FileKey)
        requires
            old(self).wf(),
            old(self).file_ids.peek() < u64::MAX,
        ensures
            final(self).wf(),
            final(self).files.files().contains_key(k.0),
            path_registered(
                old(self).files.paths(),
                normalized_path(path@, old(self).files.device_table()),
                k.0,
                final(self).files.paths(),
            ),
            final(self).files.device_table() == old(self).files.device_table(),
            final(self).files.objects() == old(self).files.objects(),
            final(self).file_ids.peek() as int == (if key_for_path(
                old(self).files.paths(),
                normalized_path(path@, old(self).files.device_table()),
            ) is Some {
                old(self).file_ids.peek() as int
            } else {
                old(self).file_ids.peek() + 1
            }),
            final(self).processes == old(self).processes,
            final(self).interactions == old(self).interactions,
            final(self).retention == old(self).retention,
    {
        proof {
            self.files.lemma_path_lookup(normalized_path(path@, self.files.device_table()));
        }
        let (k, _) = self.files.get_or_create(path, timestamp, &mut self.file_ids);
        k
    }

    /// A query handle on the tracked file at this path.
    pub fn file(&self, path: &str) -> (r: Option<FileRef<'_>>)
        ensures
            r == file_at_path(self, path@),
    {
        match self.files.get_by_path(path) {
            Some(f) => Some(FileRef::new(self, f)),
            None => None,
        }
    }

    /// The tracked file at this path.
    pub fn get_file(&self, path: &str) -> (r: Option<&FileContext>)
        ensures
            r == (match crate::context::registries::file_registry::key_for_path(
                self.files.paths(),
                normalized_path(path@, self.files.device_table()),
            ) {
                Some(k) => if self.files.files().contains_key(k) {
                    Some(&self.files.files()[k])
                } else {
                    None
                },
                None => None,
            }),
    {
        self.files.get_by_path(path)
    }

    /// The tracked file with this key.
    pub fn file_by_key(&self, key: FileKey) -> (r: Option<&FileContext>)
        ensures
            r == (if self.files.files().contains_key(key.0) {
                Some(&self.files.files()[key.0])
            } else {
                None
            }),
    {
        self.files.get_by_key(key)
    }

    /// The tracked file with this key.
    pub fn get_file_by_key(&self, key: FileKey) -> (r: Option<&FileContext>)
        ensures
            r == (if self.files.files().contains_key(key.0) {
                Some(&self.files.files()[key.0])
            } else {
                None
            }),
    {
        self.file_by_key(key)
    }

    /// Logs an interaction.
    pub fn record_interaction(&mut self, record: InteractionRecord) -> (id: InteractionId)
        requires
            old(self).wf(),
        ensures
            final(self).wf(),
            id == record.id,
            final(self).interactions.log() == ring_push(
                old(self).interactions.log(),
                record,
                old(self).interactions.capacity(),
            ),
            final(self).processes == old(self).processes,
            final(self).files == old(self).files,
            final(self).retention == old(self).retention,
    {
        self.interactions.record(record)
    }

    /// The injection correlator.
    pub fn injection_correlator(&self) -> (c: &InjectionCorrelator)
        ensures
            *c == self.injection_correlator,
    {
        &self.injection_correlator
    }

    /// Runs a retention pass at `now` (milliseconds). Returns the numbers of processes evicted
    /// and converted to tombstones.
    pub fn run_gc_pass(&mut self, now: i64) -> (r: (usize, usize))
        requires
            old(self).wf(),
            i64::MIN <= now - old(self).retention.settings().retention_ttl_ms <= i64::MAX,
        ensures
            final(self).wf(),
            final(self).processes.pids() == old(self).processes.pids(),
            final(self).retention.settings() == old(self).retention.settings(),
            gc_pass(
                old(self).processes.procs(),
                old(self).retention.queue(),
                (now - old(self).retention.settings().retention_ttl_ms) as i64,
                old(self).processes.procs().len() > old(self).retention.settings().max_process_capacity,
                old(self).retention.settings().enable_tombstones,
                final(self).processes.procs(),
                final(self).retention.queue(),
                r.0 as nat,
                r.1 as nat,
            ),
            final(self).files == old(self).files,
            final(self).interactions == old(self).interactions,
    {
        self.retention.run_gc_pass(&mut self.processes, now)
    }
}

impl Default for SystemContext {
    fn default() -> (c: Self)
        ensures
            c.wf(),
            c.processes.procs().len() == 0,
    {
        Self::new()
    }
}

} // verus!
