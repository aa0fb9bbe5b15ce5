//! Pairs asynchronous `Stack_Walk` payloads with the syscall trigger events they belong to.
//!
//! Both halves of a pair carry the same timestamp, which is the pairing key. Whichever half
//! arrives first waits in a pending table until its partner shows up; stale halves are swept
//! out by a sliding time window and a hard capacity bound.
use std::collections::HashMap;
use vstd::prelude::*;

use crate::helpers::bytes::{le32, le64, read_u32, read_u64};
use crate::helpers::keyed::{keep_newest, keeps_newest, prune_below, ttl_pruned};
use crate::pipeline::event::CorrelatedSyscallEvent;

verus! {

broadcast use vstd::std_specs::hash::group_hash_axioms;

/// Maximum number of in-flight correlation items retained in each pending table.
pub const DEFAULT_MAX_PENDING_CORRELATION_ITEMS: usize = 50_000;

/// Age in timestamp ticks (100 ns units) after which an unpaired half is an orphan: 2 s.
pub const DEFAULT_ORPHAN_TTL_TICKS: u64 = 20_000_000;

/// Maintenance runs on every operation whose counter has these low bits clear (every 1024).
pub const MAINTENANCE_INTERVAL_MASK: u64 = 0x3FF;

/// Payload of a `Stack_Walk` event.
#[derive(Clone, Debug)]
pub struct StackWalkPayload {
    /// Timestamp of the event that triggered the stack walk; the pairing key.
    pub event_timestamp: u64,
    /// Process in which the stack was captured.
    pub stack_process: u32,
    /// Thread in which the stack was captured.
    pub stack_thread: u32,
    /// Number of frames in the stack.
    pub frame_count: usize,
    /// Return addresses of the captured frames.
    pub frames: Vec<u64>,
}

/// The frames stored after the 16-byte header: `count` consecutive 64-bit values.
pub open spec fn frames_at(data: Seq<u8>, count: int) -> Seq<u64> {
    Seq::new(count as nat, |i: int| le64(data, 16 + 8 * i) as u64)
}

impl StackWalkPayload {
    /// Parses the raw payload of a `Stack_Walk` event: a 64-bit timestamp, the 32-bit process
    /// and thread ids, then as many whole 64-bit frames as the remaining bytes hold.
    pub fn parse(user_data: &[u8]) -> (res: Option<Self>)
        ensures
            user_data@.len() < 16 <==> res is None,
            res matches Some(p) ==> {
                &&& p.event_timestamp as int == le64(user_data@, 0)
                &&& p.stack_process as int == le32(user_data@, 8)
                &&& p.stack_thread as int == le32(user_data@, 12)
                &&& p.frame_count as int == (user_data@.len() - 16) / 8
                &&& p.frames@ == frames_at(user_data@, p.frame_count as int)
            },
    {
        if user_data.len() < 16 {
            return None;
        }
        let event_timestamp = read_u64(user_data, 0);
        let stack_process = read_u32(user_data, 8);
        let stack_thread = read_u32(user_data, 12);
        let frame_count = (user_data.len() - 16) / 8;
        let mut frames: Vec<u64> = Vec::with_capacity(frame_count);
        let mut i: usize = 0;
        let mut start: usize = 16;
        while i < frame_count
            invariant
                frame_count as int == (user_data@.len() - 16) / 8,
                16 <= user_data@.len(),
                i <= frame_count,
                start == 16 + 8 * i,
                frames@ == frames_at(user_data@, i as int),
            decreases frame_count - i,
        {
            assert(8 * i + 8 <= user_data@.len() - 16) by (nonlinear_arith)
                requires
                    i < frame_count,
                    frame_count as int == (user_data@.len() - 16) / 8,
                    16 <= user_data@.len(),
            ;
            assert(start + 8 <= user_data.len());
            let ptr = read_u64(user_data, start);
            frames.push(ptr);
            assert(frames@ =~= frames_at(user_data@, i + 1));
            i = i + 1;
            start = start + 8;
        }
        Some(StackWalkPayload { event_timestamp, stack_process, stack_thread, frame_count, frames })
    }
}

/// A trigger event waiting for its stack walk.
#[derive(Debug, Clone)]
pub struct PendingTrigger {
    /// Process ID reported by the trigger.
    pub pid: u32,
    /// Thread ID reported by the trigger.
    pub tid: u32,
    /// Timestamp of the trigger.
    pub timestamp: i64,
    /// Address of the syscall instruction, when known.
    pub syscall_address: Option<u64>,
}

/// Correlates trigger events with their `Stack_Walk` events.
///
/// Keeps a sliding time window and a capacity bound over both pending tables so that a
/// burst of unpaired halves cannot grow memory without limit.
pub struct StackCorrelator {
    pending_events: HashMap<u64, PendingTrigger>,
    pending_stacks: HashMap<u64, StackWalkPayload>,
    max_pending_items: usize,
    orphan_ttl_ticks: u64,
    latest_timestamp: u64,
    op_counter: u64,
}

/// The abstract state of a [`StackCorrelator`].
pub struct CorrelatorState {
    /// Triggers waiting for a stack, by timestamp.
    pub events: Map<u64, PendingTrigger>,
    /// Stacks waiting for a trigger, by the timestamp of their trigger.
    pub stacks: Map<u64, StackWalkPayload>,
    /// Capacity bound of each table.
    pub max_pending_items: usize,
    /// Width of the time window.
    pub orphan_ttl_ticks: u64,
    /// Largest timestamp seen so far.
    pub latest_timestamp: u64,
    /// Number of operations so far, wrapping.
    pub op_counter: u64,
}

impl View for StackCorrelator {
    type V = CorrelatorState;

    closed spec fn view(&self) -> CorrelatorState {
        CorrelatorState {
            events: self.pending_events@,
            stacks: self.pending_stacks@,
            max_pending_items: self.max_pending_items,
            orphan_ttl_ticks: self.orphan_ttl_ticks,
            latest_timestamp: self.latest_timestamp,
            op_counter: self.op_counter,
        }
    }
}

/// `latest - ttl`, or zero when that would be negative.
pub open spec fn window_start(latest: u64, ttl: u64) -> u64 {
    if latest >= ttl {
        (latest - ttl) as u64
    } else {
        0
    }
}

/// `ev` and `st` are what maintenance leaves of the tables of `s`: entries older than the
/// window removed, then only the newest `max_pending_items` of each table kept.
pub open spec fn swept(s: CorrelatorState, ev: Map<u64, PendingTrigger>, st: Map<u64, StackWalkPayload>) -> bool {
    let cutoff = window_start(s.latest_timestamp, s.orphan_ttl_ticks);
    &&& keeps_newest(ttl_pruned(s.events, cutoff), ev, s.max_pending_items as nat)
    &&& keeps_newest(ttl_pruned(s.stacks, cutoff), st, s.max_pending_items as nat)
}

/// The state after an operation with pairing key `key` is counted, before maintenance.
pub open spec fn observed(s: CorrelatorState, key: u64) -> CorrelatorState {
    CorrelatorState {
        latest_timestamp: if key > s.latest_timestamp { key } else { s.latest_timestamp },
        op_counter: vstd::wrapping::u64_specs::wrapping_add(s.op_counter, 1),
        ..s
    }
}

/// Maintenance is due at this operation count.
pub open spec fn maintenance_due(s: CorrelatorState) -> bool {
    s.op_counter & MAINTENANCE_INTERVAL_MASK == 0
}

/// `ev` and `st` are the tables once an operation with key `key` has been counted and the
/// maintenance due at it, if any, has run.
pub open spec fn settled(
    pre: CorrelatorState,
    key: u64,
    ev: Map<u64, PendingTrigger>,
    st: Map<u64, StackWalkPayload>,
) -> bool {
    let s = observed(pre, key);
    if maintenance_due(s) {
        swept(s, ev, st)
    } else {
        ev == s.events && st == s.stacks
    }
}

/// A usable process or thread id: neither zero nor the all-ones placeholder.
pub open spec fn known_id(id: u32) -> bool {
    id != 0 && id != u32::MAX
}

/// The event produced when a trigger meets a stack that was already waiting.
pub open spec fn pair_with_waiting_stack(
    pid: u32,
    tid: u32,
    timestamp: i64,
    syscall_address: Option<u64>,
    stack: StackWalkPayload,
) -> CorrelatedSyscallEvent {
    CorrelatedSyscallEvent {
        pid: if known_id(pid) { pid } else { stack.stack_process },
        tid: if known_id(tid) { tid } else { stack.stack_thread },
        timestamp,
        syscall_address,
        frames: stack.frames,
    }
}

/// The event produced when a stack meets a trigger that was already waiting.
pub open spec fn pair_with_waiting_trigger(
    trigger: PendingTrigger,
    payload: StackWalkPayload,
) -> CorrelatedSyscallEvent {
    CorrelatedSyscallEvent {
        pid: if known_id(payload.stack_process) { payload.stack_process } else { trigger.pid },
        tid: if known_id(payload.stack_thread) { payload.stack_thread } else { trigger.tid },
        timestamp: trigger.timestamp,
        syscall_address: trigger.syscall_address,
        frames: payload.frames,
    }
}

/// The state `post` and result `res` are what ingesting a trigger yields from `pre`.
pub open spec fn trigger_step(
    pre: CorrelatorState,
    pid: u32,
    tid: u32,
    timestamp: i64,
    syscall_address: Option<u64>,
    post: CorrelatorState,
    res: Option<CorrelatedSyscallEvent>,
) -> bool {
    let key = timestamp as u64;
    let s = observed(pre, key);
    exists|ev: Map<u64, PendingTrigger>, st: Map<u64, StackWalkPayload>|
        #[trigger] settled(pre, key, ev, st) && {
            &&& post.max_pending_items == s.max_pending_items
            &&& post.orphan_ttl_ticks == s.orphan_ttl_ticks
            &&& post.latest_timestamp == s.latest_timestamp
            &&& post.op_counter == s.op_counter
            &&& if st.contains_key(key) {
                &&& res == Some(pair_with_waiting_stack(pid, tid, timestamp, syscall_address, st[key]))
                &&& post.events == ev
                &&& post.stacks == st.remove(key)
            } else {
                &&& res is None
                &&& post.events == ev.insert(
                    key,
                    PendingTrigger { pid, tid, timestamp, syscall_address },
                )
                &&& post.stacks == st
            }
        }
}

/// The state `post` and result `res` are what ingesting a stack payload yields from `pre`.
pub open spec fn stack_step(
    pre: CorrelatorState,
    payload: StackWalkPayload,
    post: CorrelatorState,
    res: Option<CorrelatedSyscallEvent>,
) -> bool {
    let key = payload.event_timestamp;
    let s = observed(pre, key);
    exists|ev: Map<u64, PendingTrigger>, st: Map<u64, StackWalkPayload>|
        #[trigger] settled(pre, key, ev, st) && {
            &&& post.max_pending_items == s.max_pending_items
            &&& post.orphan_ttl_ticks == s.orphan_ttl_ticks
            &&& post.latest_timestamp == s.latest_timestamp
            &&& post.op_counter == s.op_counter
            &&& if ev.contains_key(key) {
                &&& res == Some(pair_with_waiting_trigger(ev[key], payload))
                &&& post.events == ev.remove(key)
                &&& post.stacks == st
            } else {
                &&& res is None
                &&& post.events == ev
                &&& post.stacks == st.insert(key, payload)
            }
        }
}

impl StackCorrelator {
    /// An empty correlator bounding each pending table to `max_pending_items` entries.
    pub fn new(max_pending_items: usize) -> (c: Self)
        ensures
            c@ == (CorrelatorState {
                events: Map::empty(),
                stacks: Map::empty(),
                max_pending_items,
                orphan_ttl_ticks: DEFAULT_ORPHAN_TTL_TICKS,
                latest_timestamp: 0,
                op_counter: 0,
            }),
    {
        StackCorrelator {
            pending_events: HashMap::new(),
            pending_stacks: HashMap::new(),
            max_pending_items,
            orphan_ttl_ticks: DEFAULT_ORPHAN_TTL_TICKS,
            latest_timestamp: 0,
            op_counter: 0,
        }
    }

    /// The same correlator with a time window of `ttl_ticks`.
    pub fn with_ttl(self, ttl_ticks: u64) -> (c: Self)
        ensures
            c@ == (CorrelatorState { orphan_ttl_ticks: ttl_ticks, ..self@ }),
    {
        let mut c = self;
        c.orphan_ttl_ticks = ttl_ticks;
        c
    }

    /// Number of triggers waiting for a stack.
    pub fn pending_trigger_count(&self) -> (n: usize)
        ensures
            n == self@.events.len(),
    {
        self.pending_events.len()
    }

    /// Number of stacks waiting for a trigger.
    pub fn pending_stack_count(&self) -> (n: usize)
        ensures
            n == self@.stacks.len(),
    {
        self.pending_stacks.len()
    }

    /// A trigger with this timestamp is waiting for its stack.
    pub fn has_pending_trigger(&self, timestamp: u64) -> (b: bool)
        ensures
            b == self@.events.contains_key(timestamp),
    {
        self.pending_events.contains_key(&timestamp)
    }

    /// A stack for a trigger with this timestamp is waiting.
    pub fn has_pending_stack(&self, timestamp: u64) -> (b: bool)
        ensures
            b == self@.stacks.contains_key(timestamp),
    {
        self.pending_stacks.contains_key(&timestamp)
    }

    /// Counts an operation with pairing key `key` and runs maintenance when it is due.
    fn observe(&mut self, key: u64)
        ensures
            settled(old(self)@, key, final(self)@.events, final(self)@.stacks),
            final(self)@.max_pending_items == observed(old(self)@, key).max_pending_items,
            final(self)@.orphan_ttl_ticks == observed(old(self)@, key).orphan_ttl_ticks,
            final(self)@.latest_timestamp == observed(old(self)@, key).latest_timestamp,
            final(self)@.op_counter == observed(old(self)@, key).op_counter,
    {
        if key > self.latest_timestamp {
            self.latest_timestamp = key;
        }
        self.op_counter = self.op_counter.wrapping_add(1);
        if (self.op_counter & MAINTENANCE_INTERVAL_MASK) == 0 {
            self.maintenance();
        }
    }

    /// Ingests a syscall trigger event. Returns the correlated event when the stack for this
    /// timestamp was already waiting; otherwise the trigger waits for it.
    pub fn process_syscall_trigger(
        &mut self,
        pid: u32,
        tid: u32,
        timestamp: i64,
        syscall_address: Option<u64>,
    ) -> (res: Option<CorrelatedSyscallEvent>)
        ensures
            trigger_step(old(self)@, pid, tid, timestamp, syscall_address, final(self)@, res),
    {
        let ts_key = timestamp as u64;
        self.observe(ts_key);
        let ghost ev = self.pending_events@;
        let ghost st = self.pending_stacks@;
        let res = match self.pending_stacks.remove(&ts_key) {
            Some(stack) => {
                let resolved_pid = if pid != u32::MAX && pid != 0 {
                    pid
                } else {
                    stack.stack_process
                };
                let resolved_tid = if tid != u32::MAX && tid != 0 {
                    tid
                } else {
                    stack.stack_thread
                };
                Some(
                    CorrelatedSyscallEvent {
                        pid: resolved_pid,
                        tid: resolved_tid,
                        timestamp,
                        syscall_address,
                        frames: stack.frames,
                    },
                )
            },
            None => {
                self.pending_events.insert(
                    ts_key,
                    PendingTrigger { pid, tid, timestamp, syscall_address },
                );
                None
            },
        };
        assert(settled(old(self)@, ts_key, ev, st));
        proof {
            let s = observed(old(self)@, ts_key);
            assert(self@.max_pending_items == s.max_pending_items);
            assert(self@.latest_timestamp == s.latest_timestamp);
            assert(self@.op_counter == s.op_counter);
            if st.contains_key(ts_key) {
                assert(res == Some(pair_with_waiting_stack(pid, tid, timestamp, syscall_address, st[ts_key])));
                assert(self@.events == ev);
                assert(self@.stacks == st.remove(ts_key));
            } else {
                assert(self@.events == ev.insert(ts_key, PendingTrigger { pid, tid, timestamp, syscall_address }));
                assert(self@.stacks == st);
            }
        }
        res
    }

    /// Ingests a `Stack_Walk` payload. Returns the correlated event when the trigger with the
    /// payload's timestamp was already waiting; otherwise the payload waits for it.
    pub fn process_stack_walk(&mut self, payload: StackWalkPayload) -> (res: Option<
        CorrelatedSyscallEvent,
    >)
        ensures
            stack_step(old(self)@, payload, final(self)@, res),
    {
        let key = payload.event_timestamp;
        self.observe(key);
        let ghost ev = self.pending_events@;
        let ghost st = self.pending_stacks@;
        let res = match self.pending_events.remove(&key) {
            Some(trigger) => {
                let resolved_pid = if payload.stack_process != 0 && payload.stack_process
                    != u32::MAX {
                    payload.stack_process
                } else {
                    trigger.pid
                };
                let resolved_tid = if payload.stack_thread != 0 && payload.stack_thread
                    != u32::MAX {
                    payload.stack_thread
                } else {
                    trigger.tid
                };
                Some(
                    CorrelatedSyscallEvent {
                        pid: resolved_pid,
                        tid: resolved_tid,
                        timestamp: trigger.timestamp,
                        syscall_address: trigger.syscall_address,
                        frames: payload.frames,
                    },
                )
            },
            None => {
                self.pending_stacks.insert(key, payload);
                None
            },
        };
        assert(settled(old(self)@, key, ev, st));
        proof {
            let s = observed(old(self)@, key);
            assert(self@.max_pending_items == s.max_pending_items);
            assert(self@.latest_timestamp == s.latest_timestamp);
            assert(self@.op_counter == s.op_counter);
            if ev.contains_key(key) {
                assert(res == Some(pair_with_waiting_trigger(ev[key], payload)));
                assert(self@.events == ev.remove(key));
                assert(self@.stacks == st);
            } else {
                assert(self@.events == ev);
                assert(self@.stacks == st.insert(key, payload));
            }
        }
        res
    }

    /// Sweeps orphans: drops every pending item older than the time window, then, in each
    /// table still over capacity, the oldest items until it is back at capacity.
    pub fn maintenance(&mut self)
        ensures
            swept(old(self)@, final(self)@.events, final(self)@.stacks),
            final(self)@.max_pending_items == old(self)@.max_pending_items,
            final(self)@.orphan_ttl_ticks == old(self)@.orphan_ttl_ticks,
            final(self)@.latest_timestamp == old(self)@.latest_timestamp,
            final(self)@.op_counter == old(self)@.op_counter,
    {
        let cutoff = self.latest_timestamp.saturating_sub(self.orphan_ttl_ticks);
        prune_below(&mut self.pending_events, cutoff);
        prune_below(&mut self.pending_stacks, cutoff);
        keep_newest(&mut self.pending_events, self.max_pending_items);
        keep_newest(&mut self.pending_stacks, self.max_pending_items);
    }
}

impl Default for StackCorrelator {
    fn default() -> (c: Self)
        ensures
            c@ == (CorrelatorState {
                events: Map::empty(),
                stacks: Map::empty(),
                max_pending_items: DEFAULT_MAX_PENDING_CORRELATION_ITEMS,
                orphan_ttl_ticks: DEFAULT_ORPHAN_TTL_TICKS,
                latest_timestamp: 0,
                op_counter: 0,
            }),
    {
        Self::new(DEFAULT_MAX_PENDING_CORRELATION_ITEMS)
    }
}

/// What a sweep keeps of a table it came from, with its value.
proof fn lemma_kept_entries<V>(m: Map<u64, V>, cutoff: u64, after: Map<u64, V>, cap: nat)
    requires
        keeps_newest(ttl_pruned(m, cutoff), after, cap),
    ensures
        forall|k: u64| #[trigger]
            after.contains_key(k) ==> m.contains_key(k) && after[k] == m[k] && (cutoff > 0
                ==> k >= cutoff),
        after.len() <= cap || after == m,
{
    let b = ttl_pruned(m, cutoff);
    if b.dom().len() <= cap {
        assert(after == b);
    }
    if cutoff == 0 {
        assert(b == m);
    }
}

/// Maintenance bounds both pending tables: afterwards each holds at most
/// `max_pending_items` entries (or is left as it was when already within the bound and the
/// window), and every entry left lies inside the time window.
pub proof fn lemma_sweep_bounds(
    s: CorrelatorState,
    ev: Map<u64, PendingTrigger>,
    st: Map<u64, StackWalkPayload>,
)
    requires
        swept(s, ev, st),
    ensures
        ev.len() <= s.max_pending_items,
        st.len() <= s.max_pending_items || st == s.stacks,
        ev.len() <= s.max_pending_items || ev == s.events,
        forall|k: u64| #[trigger]
            ev.contains_key(k) ==> s.events.contains_key(k) && ev[k] == s.events[k] && (window_start(
                s.latest_timestamp,
                s.orphan_ttl_ticks,
            ) > 0 ==> k >= window_start(s.latest_timestamp, s.orphan_ttl_ticks)),
        forall|k: u64| #[trigger]
            st.contains_key(k) ==> s.stacks.contains_key(k) && st[k] == s.stacks[k] && (window_start(
                s.latest_timestamp,
                s.orphan_ttl_ticks,
            ) > 0 ==> k >= window_start(s.latest_timestamp, s.orphan_ttl_ticks)),
{
    let cutoff = window_start(s.latest_timestamp, s.orphan_ttl_ticks);
    lemma_kept_entries(s.events, cutoff, ev, s.max_pending_items as nat);
    lemma_kept_entries(s.stacks, cutoff, st, s.max_pending_items as nat);
}

/// Settling only ever removes entries, and never changes the ones it keeps.
proof fn lemma_settled_shrinks(
    pre: CorrelatorState,
    key: u64,
    ev: Map<u64, PendingTrigger>,
    st: Map<u64, StackWalkPayload>,
)
    requires
        settled(pre, key, ev, st),
    ensures
        forall|k: u64| #[trigger]
            ev.contains_key(k) ==> pre.events.contains_key(k) && ev[k] == pre.events[k],
        forall|k: u64| #[trigger]
            st.contains_key(k) ==> pre.stacks.contains_key(k) && st[k] == pre.stacks[k],
        !maintenance_due(observed(pre, key)) ==> ev == pre.events && st == pre.stacks,
{
    let s = observed(pre, key);
    if maintenance_due(s) {
        lemma_sweep_bounds(s, ev, st);
    }
}

/// A trigger's correlated event, whenever one comes back, carries the trigger's own
/// timestamp and syscall address, and its process and thread ids where those are known.
pub proof fn lemma_trigger_result_keeps_trigger(
    pre: CorrelatorState,
    pid: u32,
    tid: u32,
    timestamp: i64,
    syscall_address: Option<u64>,
    post: CorrelatorState,
    res: Option<CorrelatedSyscallEvent>,
)
    requires
        trigger_step(pre, pid, tid, timestamp, syscall_address, post, res),
    ensures
        res matches Some(e) ==> {
            &&& e.timestamp == timestamp
            &&& e.syscall_address == syscall_address
            &&& known_id(pid) ==> e.pid == pid
            &&& known_id(tid) ==> e.tid == tid
        },
{
}

/// A stack walk's correlated event, whenever one comes back, carries the walk's frames, and
/// its process and thread ids where those are known.
pub proof fn lemma_stack_result_keeps_frames(
    pre: CorrelatorState,
    payload: StackWalkPayload,
    post: CorrelatorState,
    res: Option<CorrelatedSyscallEvent>,
)
    requires
        stack_step(pre, payload, post, res),
    ensures
        res matches Some(e) ==> {
            &&& e.frames == payload.frames
            &&& known_id(payload.stack_process) ==> e.pid == payload.stack_process
            &&& known_id(payload.stack_thread) ==> e.tid == payload.stack_thread
        },
{
}

/// A trigger followed by the stack walk with the same timestamp pairs: the trigger waits
/// (when no stack for it was waiting), and the stack walk returns the correlated event built
/// from both halves. The only way the pair can be missed is the sweep due at the stack walk's
/// operation count evicting the waiting trigger; without a sweep due the pair always forms.
pub proof fn lemma_trigger_then_stack_pairs(
    s0: CorrelatorState,
    pid: u32,
    tid: u32,
    timestamp: i64,
    syscall_address: Option<u64>,
    s1: CorrelatorState,
    r1: Option<CorrelatedSyscallEvent>,
    payload: StackWalkPayload,
    s2: CorrelatorState,
    r2: Option<CorrelatedSyscallEvent>,
)
    requires
        !s0.stacks.contains_key(timestamp as u64),
        payload.event_timestamp == timestamp as u64,
        trigger_step(s0, pid, tid, timestamp, syscall_address, s1, r1),
        stack_step(s1, payload, s2, r2),
    ensures
        r1 is None,
        s1.events.contains_key(timestamp as u64),
        r2 is Some ==> r2 == Some(
            pair_with_waiting_trigger(
                PendingTrigger { pid, tid, timestamp, syscall_address },
                payload,
            ),
        ),
        !maintenance_due(observed(s1, timestamp as u64)) ==> r2 is Some,
        r2 matches Some(e) ==> {
            &&& e.timestamp == timestamp
            &&& e.syscall_address == syscall_address
            &&& e.frames == payload.frames
            &&& e.pid == (if known_id(payload.stack_process) { payload.stack_process } else { pid })
            &&& e.tid == (if known_id(payload.stack_thread) { payload.stack_thread } else { tid })
        },
{
    let key = timestamp as u64;
    let (ev, st) = choose|ev: Map<u64, PendingTrigger>, st: Map<u64, StackWalkPayload>|
        #[trigger] settled(s0, key, ev, st) && {
            &&& if st.contains_key(key) {
                &&& r1 == Some(pair_with_waiting_stack(pid, tid, timestamp, syscall_address, st[key]))
                &&& s1.events == ev
                &&& s1.stacks == st.remove(key)
            } else {
                &&& r1 is None
                &&& s1.events == ev.insert(
                    key,
                    PendingTrigger { pid, tid, timestamp, syscall_address },
                )
                &&& s1.stacks == st
            }
        };
    lemma_settled_shrinks(s0, key, ev, st);
    assert(!st.contains_key(key));
    let (ev2, st2) = choose|ev2: Map<u64, PendingTrigger>, st2: Map<u64, StackWalkPayload>|
        #[trigger] settled(s1, key, ev2, st2) && {
            &&& if ev2.contains_key(key) {
                &&& r2 == Some(pair_with_waiting_trigger(ev2[key], payload))
                &&& s2.events == ev2.remove(key)
                &&& s2.stacks == st2
            } else {
                &&& r2 is None
                &&& s2.events == ev2
                &&& s2.stacks == st2.insert(key, payload)
            }
        };
    lemma_settled_shrinks(s1, key, ev2, st2);
}

/// A stack walk followed by the trigger with the same timestamp pairs: the stack waits (when
/// no trigger for it was waiting), and the trigger returns the correlated event built from
/// both halves. As above, only a sweep due at the trigger's operation count can evict the
/// waiting stack; without one the pair always forms.
pub proof fn lemma_stack_then_trigger_pairs(
    s0: CorrelatorState,
    payload: StackWalkPayload,
    s1: CorrelatorState,
    r1: Option<CorrelatedSyscallEvent>,
    pid: u32,
    tid: u32,
    timestamp: i64,
    syscall_address: Option<u64>,
    s2: CorrelatorState,
    r2: Option<CorrelatedSyscallEvent>,
)
    requires
        !s0.events.contains_key(payload.event_timestamp),
        payload.event_timestamp == timestamp as u64,
        stack_step(s0, payload, s1, r1),
        trigger_step(s1, pid, tid, timestamp, syscall_address, s2, r2),
    ensures
        r1 is None,
        s1.stacks.contains_key(payload.event_timestamp),
        r2 is Some ==> r2 == Some(
            pair_with_waiting_stack(pid, tid, timestamp, syscall_address, payload),
        ),
        !maintenance_due(observed(s1, payload.event_timestamp)) ==> r2 is Some,
        r2 matches Some(e) ==> {
            &&& e.timestamp == timestamp
            &&& e.syscall_address == syscall_address
            &&& e.frames == payload.frames
            &&& e.pid == (if known_id(pid) { pid } else { payload.stack_process })
            &&& e.tid == (if known_id(tid) { tid } else { payload.stack_thread })
        },
{
    let key = payload.event_timestamp;
    let (ev, st) = choose|ev: Map<u64, PendingTrigger>, st: Map<u64, StackWalkPayload>|
        #[trigger] settled(s0, key, ev, st) && {
            &&& if ev.contains_key(key) {
                &&& r1 == Some(pair_with_waiting_trigger(ev[key], payload))
                &&& s1.events == ev.remove(key)
                &&& s1.stacks == st
            } else {
                &&& r1 is None
                &&& s1.events == ev
                &&& s1.stacks == st.insert(key, payload)
            }
        };
    lemma_settled_shrinks(s0, key, ev, st);
    assert(!ev.contains_key(key));
    let (ev2, st2) = choose|ev2: Map<u64, PendingTrigger>, st2: Map<u64, StackWalkPayload>|
        #[trigger] settled(s1, key, ev2, st2) && {
            &&& if st2.contains_key(key) {
                &&& r2 == Some(pair_with_waiting_stack(pid, tid, timestamp, syscall_address, st2[key]))
                &&& s2.events == ev2
                &&& s2.stacks == st2.remove(key)
            } else {
                &&& r2 is None
                &&& s2.events == ev2.insert(
                    key,
                    PendingTrigger { pid, tid, timestamp, syscall_address },
                )
                &&& s2.stacks == st2
            }
        };
    lemma_settled_shrinks(s1, key, ev2, st2);
}

} // verus!
