//! Retention of exited processes: time-bounded, capacity-bounded, with ancestry tombstones.
//!
//! Exited processes queue up in exit order. A collection pass looks at each queued process
//! that has outlived the retention window (or every queued process while the registry is
//! over capacity): pinned processes stay; a process with a live child becomes a tombstone,
//! so the child's ancestry stays walkable; any other process is evicted.
use std::collections::VecDeque;
use vstd::prelude::*;

use crate::context::config::ContextConfig;
use crate::context::identity::ProcessKey;
use crate::context::models::process::{modules_wf, ProcessContext};
use crate::context::registries::process_tree::{has_live_child, ProcessTree};

verus! {

/// What a collection pass did with one queued process.
pub enum GcOutcome {
    /// Left alone and kept in the queue.
    Kept,
    /// No longer tracked; dropped from the queue.
    Dropped,
    /// Converted to a tombstone and kept in the queue.
    Tombstoned,
    /// Evicted from the registry and dropped from the queue.
    Evicted,
}

/// `after` is `before` reduced to a tombstone: flagged, its modules, handles, threads,
/// touched files and connections dropped, everything else kept.
pub open spec fn tombstone_of(before: ProcessContext, after: ProcessContext) -> bool {
    &&& after.is_tombstone
    &&& after.loaded_modules@.len() == 0
    &&& after.handles@ == Map::<u64, crate::context::models::handle::HandleObject>::empty()
    &&& after.threads@ == Set::<u32>::empty()
    &&& after.touched_files@ == Set::<u64>::empty()
    &&& after.network_connections@.len() == 0
    &&& after.key == before.key
    &&& after.parent_key == before.parent_key
    &&& after.child_keys == before.child_keys
    &&& after.pid == before.pid
    &&& after.parent_pid == before.parent_pid
    &&& after.create_time == before.create_time
    &&& after.exit_time == before.exit_time
    &&& after.exit_status == before.exit_status
    &&& after.is_pinned == before.is_pinned
    &&& after.image_file_name == before.image_file_name
    &&& after.image_path == before.image_path
    &&& after.command_line == before.command_line
}

/// One step of a collection pass on the queued process `key` that exited at `exit_time`.
pub open spec fn gc_step(
    before: Map<u64, ProcessContext>,
    key: ProcessKey,
    exit_time: i64,
    cutoff: i64,
    over_capacity: bool,
    tombstones: bool,
    after: Map<u64, ProcessContext>,
    outcome: GcOutcome,
) -> bool {
    if !(exit_time < cutoff) && !over_capacity {
        outcome is Kept && after == before
    } else if !before.contains_key(key.0) {
        outcome is Dropped && after == before
    } else if before[key.0].is_pinned {
        outcome is Kept && after == before
    } else if tombstones && has_live_child(before, key.0) {
        if before[key.0].is_tombstone {
            outcome is Kept && after == before
        } else {
            &&& outcome is Tombstoned
            &&& after.dom() == before.dom()
            &&& forall|k: u64| #[trigger] after.contains_key(k) && k != key.0 ==> after[k] == before[k]
            &&& tombstone_of(before[key.0], after[key.0])
        }
    } else {
        outcome is Evicted && after == before.remove(key.0)
    }
}

/// The queue entry stays queued after this outcome.
pub open spec fn stays_queued(outcome: GcOutcome) -> bool {
    outcome is Kept || outcome is Tombstoned
}

/// `states` and `outs` trace a collection pass over `queue` from `start`: `states[i]` is the
/// registry before the step on `queue[i]`, `outs[i]` that step's outcome.
pub open spec fn gc_trace(
    start: Map<u64, ProcessContext>,
    queue: Seq<(ProcessKey, i64)>,
    cutoff: i64,
    over_capacity: bool,
    tombstones: bool,
    states: Seq<Map<u64, ProcessContext>>,
    outs: Seq<GcOutcome>,
) -> bool {
    &&& states.len() == queue.len() + 1
    &&& outs.len() == queue.len()
    &&& states[0] == start
    &&& forall|i: int|
        0 <= i < queue.len() ==> #[trigger] gc_step(
            states[i],
            queue[i].0,
            queue[i].1,
            cutoff,
            over_capacity,
            tombstones,
            states[i + 1],
            outs[i],
        )
}

/// The queue entries that stay queued, in order.
pub open spec fn kept_entries(queue: Seq<(ProcessKey, i64)>, outs: Seq<GcOutcome>) -> Seq<(ProcessKey, i64)>
    decreases queue.len(),
{
    if queue.len() == 0 {
        Seq::empty()
    } else {
        let r = kept_entries(queue.drop_last(), outs.drop_last());
        if stays_queued(outs.last()) {
            r.push(queue.last())
        } else {
            r
        }
    }
}

/// Number of evictions among the outcomes.
pub open spec fn count_evicted(outs: Seq<GcOutcome>) -> nat
    decreases outs.len(),
{
    if outs.len() == 0 {
        0
    } else {
        count_evicted(outs.drop_last()) + if outs.last() is Evicted {
            1nat
        } else {
            0nat
        }
    }
}

/// Number of tombstone conversions among the outcomes.
pub open spec fn count_tombstoned(outs: Seq<GcOutcome>) -> nat
    decreases outs.len(),
{
    if outs.len() == 0 {
        0
    } else {
        count_tombstoned(outs.drop_last()) + if outs.last() is Tombstoned {
            1nat
        } else {
            0nat
        }
    }
}

/// Running the steps of a collection pass over `queue`, in order, starting from the
/// registry `start`, leaves the registry `end`, keeps `retained` queued, and evicts and
/// tombstones the given numbers of processes.
pub open spec fn gc_pass(
    start: Map<u64, ProcessContext>,
    queue: Seq<(ProcessKey, i64)>,
    cutoff: i64,
    over_capacity: bool,
    tombstones: bool,
    end: Map<u64, ProcessContext>,
    retained: Seq<(ProcessKey, i64)>,
    evicted: nat,
    tombstoned: nat,
) -> bool {
    exists|states: Seq<Map<u64, ProcessContext>>, outs: Seq<GcOutcome>|
        #[trigger] gc_trace(start, queue, cutoff, over_capacity, tombstones, states, outs)
            && states.last() == end && retained == kept_entries(queue, outs) && evicted
            == count_evicted(outs) && tombstoned == count_tombstoned(outs)
}

/// Tracks exited processes and collects them.
pub struct RetentionManager {
    exit_queue: VecDeque<(ProcessKey, i64)>,
    config: ContextConfig,
}

impl RetentionManager {
    /// Exited processes awaiting collection, in exit order.
    pub closed spec fn queue(&self) -> Seq<(ProcessKey, i64)> {
        self.exit_queue@
    }

    /// The settings in force.
    pub closed spec fn settings(&self) -> ContextConfig {
        self.config
    }

    /// A manager with an empty queue.
    pub fn new(config: ContextConfig) -> (r: Self)
        ensures
            r.queue().len() == 0,
            r.settings() == config,
    {
        RetentionManager { exit_queue: VecDeque::new(), config }
    }

    /// The settings in force.
    pub fn config(&self) -> (c: &ContextConfig)
        ensures
            *c == self.settings(),
    {
        &self.config
    }

    /// Queues an exited process for collection.
    pub fn enqueue_exit(&mut self, key: ProcessKey, timestamp: i64)
        ensures
            final(self).queue() == old(self).queue().push((key, timestamp)),
            final(self).settings() == old(self).settings(),
    {
        self.exit_queue.push_back((key, timestamp));
    }

    /// Runs one collection pass at `current_time` (milliseconds). Returns the numbers of
    /// processes evicted and converted to tombstones.
    pub fn run_gc_pass(&mut self, processes: &mut ProcessTree, current_time: i64) -> (r: (usize, usize))
        requires
            old(processes).wf(),
            i64::MIN <= current_time - old(self).settings().retention_ttl_ms <= i64::MAX,
        ensures
            final(processes).wf(),
            final(processes).pids() == old(processes).pids(),
            final(self).settings() == old(self).settings(),
            gc_pass(
                old(processes).procs(),
                old(self).queue(),
                (current_time - old(self).settings().retention_ttl_ms) as i64,
                old(processes).procs().len() > old(self).settings().max_process_capacity,
                old(self).settings().enable_tombstones,
                final(processes).procs(),
                final(self).queue(),
                r.0 as nat,
                r.1 as nat,
            ),
    {
        let cutoff = current_time - self.config.retention_ttl_ms;
        let over = processes.total_process_count() > self.config.max_process_capacity;
        let tombstones = self.config.enable_tombstones;
        let ghost start = processes.procs();
        let ghost queue = self.exit_queue@;
        let mut retained: VecDeque<(ProcessKey, i64)> = VecDeque::new();
        let mut evicted: usize = 0;
        let mut tombstoned: usize = 0;
        let n = self.exit_queue.len();
        let mut i: usize = 0;
        let ghost mut states: Seq<Map<u64, ProcessContext>> = seq![start];
        let ghost mut outs: Seq<GcOutcome> = Seq::empty();
        while i < n
            invariant
                n == queue.len(),
                queue == self.exit_queue@,
                i <= n,
                processes.wf(),
                processes.pids() == old(processes).pids(),
                evicted <= i,
                tombstoned <= i,
                gc_trace(start, queue.take(i as int), cutoff, over, tombstones, states, outs),
                states.last() == processes.procs(),
                retained@ == kept_entries(queue.take(i as int), outs),
                evicted as nat == count_evicted(outs),
                tombstoned as nat == count_tombstoned(outs),
            decreases n - i,
        {
            let (key, exit_time) = self.exit_queue[i];
            let ghost mid = processes.procs();
            let ghost r0 = retained@;
            let is_expired = exit_time < cutoff;
            let ghost out: GcOutcome;
            if !is_expired && !over {
                retained.push_back((key, exit_time));
                proof {
                    out = GcOutcome::Kept;
                }
            } else {
                let (pinned, tomb) = match processes.get_by_key(key) {
                    Some(p) => (Some(p.is_pinned()), p.is_tombstone()),
                    None => (None, false),
                };
                match pinned {
                    None => {
                        proof {
                            out = GcOutcome::Dropped;
                        }
                    },
                    Some(true) => {
                        retained.push_back((key, exit_time));
                        proof {
                            out = GcOutcome::Kept;
                        }
                    },
                    Some(false) => {
                        if tombstones && processes.has_active_children(key) {
                            if !tomb {
                                match processes.evict(key) {
                                    Some(mut p) => {
                                        p.convert_to_tombstone();
                                        processes.restore(p);
                                        assert(processes.procs().dom() =~= mid.dom());
                                    },
                                    None => {},
                                }
                                tombstoned = tombstoned + 1;
                                proof {
                                    out = GcOutcome::Tombstoned;
                                }
                            } else {
                                proof {
                                    out = GcOutcome::Kept;
                                }
                            }
                            retained.push_back((key, exit_time));
                        } else {
                            processes.evict(key);
                            evicted = evicted + 1;
                            proof {
                                out = GcOutcome::Evicted;
                            }
                        }
                    },
                }
            }
            proof {
                let q0 = queue.take(i as int);
                let q1 = queue.take(i + 1);
                assert(q1.drop_last() =~= q0);
                assert(q1.last() == (key, exit_time));
                assert(gc_step(mid, key, exit_time, cutoff, over, tombstones, processes.procs(), out));
                let states1 = states.push(processes.procs());
                let outs1 = outs.push(out);
                assert(outs1.drop_last() =~= outs);
                assert forall|j: int| 0 <= j < q1.len() implies #[trigger] gc_step(
                    states1[j],
                    q1[j].0,
                    q1[j].1,
                    cutoff,
                    over,
                    tombstones,
                    states1[j + 1],
                    outs1[j],
                ) by {
                    if j < i {
                        assert(q1[j] == q0[j]);
                        assert(gc_step(states[j], q0[j].0, q0[j].1, cutoff, over, tombstones, states[j + 1], outs[j]));
                    }
                }
                assert(retained@ =~= kept_entries(q1, outs1));
                states = states1;
                outs = outs1;
            }
            i = i + 1;
        }
        assert(queue.take(n as int) =~= queue);
        assert(gc_trace(start, queue, cutoff, over, tombstones, states, outs));
        self.exit_queue = retained;
        (evicted, tombstoned)
    }
}

proof fn lemma_trace_keeps(
    start: Map<u64, ProcessContext>,
    queue: Seq<(ProcessKey, i64)>,
    cutoff: i64,
    over_capacity: bool,
    tombstones: bool,
    states: Seq<Map<u64, ProcessContext>>,
    outs: Seq<GcOutcome>,
    k: u64,
    j: int,
)
    requires
        gc_trace(start, queue, cutoff, over_capacity, tombstones, states, outs),
        0 <= j <= queue.len(),
        start.contains_key(k),
        start[k].is_pinned || forall|i: int| 0 <= i < queue.len() ==> (#[trigger] queue[i]).0.0 != k,
    ensures
        states[j].contains_key(k),
        states[j][k] == start[k],
    decreases j,
{
    if j > 0 {
        lemma_trace_keeps(start, queue, cutoff, over_capacity, tombstones, states, outs, k, j - 1);
        assert(gc_step(
            states[j - 1],
            queue[j - 1].0,
            queue[j - 1].1,
            cutoff,
            over_capacity,
            tombstones,
            states[j - 1 + 1],
            outs[j - 1],
        ));
    }
}

/// A collection pass never touches a pinned process, nor one that was not queued.
pub proof fn lemma_gc_spares_pinned_and_unqueued(
    start: Map<u64, ProcessContext>,
    queue: Seq<(ProcessKey, i64)>,
    cutoff: i64,
    over_capacity: bool,
    tombstones: bool,
    end: Map<u64, ProcessContext>,
    retained: Seq<(ProcessKey, i64)>,
    evicted: nat,
    tombstoned: nat,
    k: u64,
)
    requires
        gc_pass(start, queue, cutoff, over_capacity, tombstones, end, retained, evicted, tombstoned),
        start.contains_key(k),
        start[k].is_pinned || forall|i: int| 0 <= i < queue.len() ==> (#[trigger] queue[i]).0.0 != k,
    ensures
        end.contains_key(k),
        end[k] == start[k],
{
    let (states, outs) = choose|states: Seq<Map<u64, ProcessContext>>, outs: Seq<GcOutcome>|
        #[trigger] gc_trace(start, queue, cutoff, over_capacity, tombstones, states, outs)
            && states.last() == end && retained == kept_entries(queue, outs) && evicted
            == count_evicted(outs) && tombstoned == count_tombstoned(outs);
    lemma_trace_keeps(start, queue, cutoff, over_capacity, tombstones, states, outs, k, queue.len() as int);
}

} // verus!
