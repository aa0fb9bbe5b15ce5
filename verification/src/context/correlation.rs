//! Stateful correlation of cross-process injection sequences.
//!
//! An injection is a sequence of steps by an actor process against a target process: a
//! handle is opened on the target, memory is allocated in it, written, and finally executed.
//! Each pair (actor, target) has at most one session collecting these steps; the execution
//! step closes the session, records the interaction, and pins both processes.
use std::collections::HashMap;
use vstd::prelude::*;

use crate::context::identity::{EntityId, IdCounter, InteractionId, ProcessKey};
use crate::context::models::interaction::{
    ConfidenceLevel, ExecutionTrigger, InjectionDetails, InjectionTechnique, InteractionKind,
    InteractionRecord,
};
use crate::context::models::process::{modules_wf, ProcessContext};
use crate::context::registries::interaction_registry::{ring_push, InteractionRegistry};
use crate::context::registries::process_tree::ProcessTree;
use crate::helpers::format::{decimal, push_decimal, push_str, to_string};
use crate::helpers::keyed::map_keys;

verus! {

broadcast use vstd::std_specs::hash::group_hash_axioms;

/// Sessions idle for longer than this (milliseconds) are stale.
pub const SESSION_TIMEOUT_MS: i64 = 30_000;

/// An injection sequence in progress.
#[derive(Debug, Clone, Copy)]
pub struct InFlightInjection {
    /// The acting process.
    pub actor_key: ProcessKey,
    /// The target process.
    pub target_key: ProcessKey,
    /// When the session began.
    pub session_start: i64,
    /// When it last advanced.
    pub last_updated: i64,
    /// A handle to the target was opened.
    pub has_target_handle: bool,
    /// Base of the memory allocated in the target, when seen.
    pub allocated_base: Option<u64>,
    /// Size of that allocation, when seen.
    pub allocated_size: Option<usize>,
    /// Memory in the target was written.
    pub memory_written: bool,
    /// Number of steps observed.
    pub stages: u8,
}

/// The single map key of the pair (actor, target).
pub open spec fn pair_key(actor: ProcessKey, target: ProcessKey) -> u128 {
    (actor.0 as int * 0x1_0000_0000_0000_0000 + target.0 as int) as u128
}

/// `a + 1`, saturating at `u8::MAX`.
pub open spec fn bump(a: u8) -> u8 {
    if a == u8::MAX {
        a
    } else {
        (a + 1) as u8
    }
}

/// The name of an injection technique.
pub open spec fn technique_label(t: InjectionTechnique) -> Seq<char> {
    match t {
        InjectionTechnique::ClassicRemoteThread => "ClassicRemoteThread"@,
        InjectionTechnique::QueueUserApc => "QueueUserApc"@,
        InjectionTechnique::SetThreadContext => "SetThreadContext"@,
        InjectionTechnique::ProcessHollowing => "ProcessHollowing"@,
        InjectionTechnique::ProcessGhosting => "ProcessGhosting"@,
        InjectionTechnique::ModuleStomping => "ModuleStomping"@,
        InjectionTechnique::EarlyCascadeInjection => "EarlyCascadeInjection"@,
        InjectionTechnique::UnknownCrossProcessWrite => "UnknownCrossProcessWrite"@,
    }
}

/// The name of an execution trigger.
pub open spec fn trigger_label(t: ExecutionTrigger) -> Seq<char> {
    match t {
        ExecutionTrigger::NtCreateThreadEx => "NtCreateThreadEx"@,
        ExecutionTrigger::QueueUserApc => "QueueUserApc"@,
        ExecutionTrigger::SetWindowHook => "SetWindowHook"@,
        ExecutionTrigger::ThreadResume => "ThreadResume"@,
        ExecutionTrigger::DirectExecution => "DirectExecution"@,
    }
}

/// Summary of a completed injection.
pub open spec fn injection_description(t: InjectionTechnique, tr: ExecutionTrigger, stages: u8) -> Seq<char> {
    "Process injection ("@ + technique_label(t) + ") via "@ + trigger_label(tr)
        + " observed across "@ + decimal(stages as nat) + " stages"@
}

/// Confidence of an injection observed across `stages` steps.
pub open spec fn confidence_for(stages: u8) -> ConfidenceLevel {
    if stages >= 3 {
        ConfidenceLevel::Confirmed
    } else if stages >= 2 {
        ConfidenceLevel::High
    } else {
        ConfidenceLevel::Medium
    }
}

/// Confidence follows the evidence: an injection observed across three or more steps is
/// confirmed, across exactly two it is high, and from its execution alone it is medium. So
/// an execution that closes a session which had already seen two steps (say a handle open
/// and a memory write) records a confirmed injection, one that closes a session of one
/// step records a high-confidence one.
pub proof fn lemma_confidence_by_stages(stages: u8)
    ensures
        stages >= 3 ==> confidence_for(stages) == ConfidenceLevel::Confirmed,
        stages == 2 ==> confidence_for(stages) == ConfidenceLevel::High,
        stages <= 1 ==> confidence_for(stages) == ConfidenceLevel::Medium,
        stages >= 2 ==> confidence_for(bump(stages)) == ConfidenceLevel::Confirmed,
        stages == 1 ==> confidence_for(bump(stages)) == ConfidenceLevel::High,
{
}

fn technique_name(t: InjectionTechnique) -> (s: &'static str)
    ensures
        s@ == technique_label(t),
{
    match t {
        InjectionTechnique::ClassicRemoteThread => "ClassicRemoteThread",
        InjectionTechnique::QueueUserApc => "QueueUserApc",
        InjectionTechnique::SetThreadContext => "SetThreadContext",
        InjectionTechnique::ProcessHollowing => "ProcessHollowing",
        InjectionTechnique::ProcessGhosting => "ProcessGhosting",
        InjectionTechnique::ModuleStomping => "ModuleStomping",
        InjectionTechnique::EarlyCascadeInjection => "EarlyCascadeInjection",
        InjectionTechnique::UnknownCrossProcessWrite => "UnknownCrossProcessWrite",
    }
}

fn trigger_name(t: ExecutionTrigger) -> (s: &'static str)
    ensures
        s@ == trigger_label(t),
{
    match t {
        ExecutionTrigger::NtCreateThreadEx => "NtCreateThreadEx",
        ExecutionTrigger::QueueUserApc => "QueueUserApc",
        ExecutionTrigger::SetWindowHook => "SetWindowHook",
        ExecutionTrigger::ThreadResume => "ThreadResume",
        ExecutionTrigger::DirectExecution => "DirectExecution",
    }
}

fn session_key(actor: ProcessKey, target: ProcessKey) -> (k: u128)
    ensures
        k == pair_key(actor, target),
{
    let a = actor.0 as u128;
    let t = target.0 as u128;
    assert(a * 0x1_0000_0000_0000_0000 + t <= u128::MAX) by (nonlinear_arith)
        requires
            a <= u64::MAX,
            t <= u64::MAX,
    ;
    a * 0x1_0000_0000_0000_0000u128 + t
}

/// Builds the description of a completed injection.
pub fn describe_injection(t: InjectionTechnique, tr: ExecutionTrigger, stages: u8) -> (s: String)
    ensures
        s@ == injection_description(t, tr, stages),
{
    let mut v: Vec<char> = Vec::new();
    push_str(&mut v, "Process injection (");
    push_str(&mut v, technique_name(t));
    push_str(&mut v, ") via ");
    push_str(&mut v, trigger_name(tr));
    push_str(&mut v, " observed across ");
    push_decimal(&mut v, stages as u64);
    push_str(&mut v, " stages");
    assert(v@ =~= injection_description(t, tr, stages));
    to_string(&v)
}

/// Correlates injection steps per (actor, target) pair.
pub struct InjectionCorrelator {
    sessions: HashMap<u128, InFlightInjection>,
    session_timeout_ms: i64,
}

impl InjectionCorrelator {
    /// Open sessions by pair key.
    pub closed spec fn open_sessions(&self) -> Map<u128, InFlightInjection> {
        self.sessions@
    }

    /// The idle timeout.
    pub closed spec fn timeout(&self) -> i64 {
        self.session_timeout_ms
    }

    /// A correlator with no sessions and a 30-second idle timeout.
    pub fn new() -> (c: Self)
        ensures
            c.open_sessions() == Map::<u128, InFlightInjection>::empty(),
            c.timeout() == SESSION_TIMEOUT_MS,
    {
        InjectionCorrelator { sessions: HashMap::new(), session_timeout_ms: SESSION_TIMEOUT_MS }
    }

    /// The open session of the pair, if any.
    pub fn session(&self, actor_key: ProcessKey, target_key: ProcessKey) -> (s: Option<InFlightInjection>)
        ensures
            s == (if self.open_sessions().contains_key(pair_key(actor_key, target_key)) {
                Some(self.open_sessions()[pair_key(actor_key, target_key)])
            } else {
                None
            }),
    {
        match self.sessions.get(&session_key(actor_key, target_key)) {
            Some(s) => Some(*s),
            None => None,
        }
    }

    /// Number of open sessions.
    pub fn session_count(&self) -> (n: usize)
        ensures
            n == self.open_sessions().len(),
    {
        self.sessions.len()
    }

    /// The actor opened a handle on the target: starts a session, or marks the open
    /// session as holding a handle. Self-opens are ignored.
    pub fn on_target_handle_opened(&mut self, actor_key: ProcessKey, target_key: ProcessKey, timestamp: i64)
        ensures
            final(self).timeout() == old(self).timeout(),
            actor_key == target_key ==> final(self).open_sessions() == old(self).open_sessions(),
            actor_key != target_key ==> {
                let k = pair_key(actor_key, target_key);
                final(self).open_sessions() == old(self).open_sessions().insert(
                    k,
                    if old(self).open_sessions().contains_key(k) {
                        InFlightInjection {
                            has_target_handle: true,
                            last_updated: timestamp,
                            ..old(self).open_sessions()[k]
                        }
                    } else {
                        InFlightInjection {
                            actor_key,
                            target_key,
                            session_start: timestamp,
                            last_updated: timestamp,
                            has_target_handle: true,
                            allocated_base: None,
                            allocated_size: None,
                            memory_written: false,
                            stages: 1,
                        }
                    },
                )
            },
    {
        if actor_key == target_key {
            return;
        }
        let k = session_key(actor_key, target_key);
        let mut s = match self.sessions.remove(&k) {
            Some(s) => s,
            None => InFlightInjection {
                actor_key,
                target_key,
                session_start: timestamp,
                last_updated: timestamp,
                has_target_handle: true,
                allocated_base: None,
                allocated_size: None,
                memory_written: false,
                stages: 1,
            },
        };
        s.has_target_handle = true;
        s.last_updated = timestamp;
        self.sessions.insert(k, s);
        assert(self.sessions@ =~= old(self).sessions@.insert(k, s));
    }

    /// The actor allocated memory in the target: records the allocation and advances the
    /// session, starting one if needed. Self-allocations are ignored.
    pub fn on_remote_memory_alloc(
        &mut self,
        actor_key: ProcessKey,
        target_key: ProcessKey,
        base_address: u64,
        size: usize,
        timestamp: i64,
    )
        ensures
            final(self).timeout() == old(self).timeout(),
            actor_key == target_key ==> final(self).open_sessions() == old(self).open_sessions(),
            actor_key != target_key ==> {
                let k = pair_key(actor_key, target_key);
                let s0 = if old(self).open_sessions().contains_key(k) {
                    old(self).open_sessions()[k]
                } else {
                    InFlightInjection {
                        actor_key,
                        target_key,
                        session_start: timestamp,
                        last_updated: timestamp,
                        has_target_handle: false,
                        allocated_base: Some(base_address),
                        allocated_size: Some(size),
                        memory_written: false,
                        stages: 1,
                    }
                };
                final(self).open_sessions() == old(self).open_sessions().insert(
                    k,
                    InFlightInjection {
                        allocated_base: Some(base_address),
                        allocated_size: Some(size),
                        stages: bump(s0.stages),
                        last_updated: timestamp,
                        ..s0
                    },
                )
            },
    {
        if actor_key == target_key {
            return;
        }
        let k = session_key(actor_key, target_key);
        let mut s = match self.sessions.remove(&k) {
            Some(s) => s,
            None => InFlightInjection {
                actor_key,
                target_key,
                session_start: timestamp,
                last_updated: timestamp,
                has_target_handle: false,
                allocated_base: Some(base_address),
                allocated_size: Some(size),
                memory_written: false,
                stages: 1,
            },
        };
        s.allocated_base = Some(base_address);
        s.allocated_size = Some(size);
        s.stages = s.stages.saturating_add(1);
        s.last_updated = timestamp;
        self.sessions.insert(k, s);
        assert(self.sessions@ =~= old(self).sessions@.insert(k, s));
    }

    /// The actor wrote memory in the target: advances the open session (none is started).
    /// Self-writes are ignored.
    pub fn on_remote_memory_write(
        &mut self,
        actor_key: ProcessKey,
        target_key: ProcessKey,
        base_address: u64,
        timestamp: i64,
    )
        ensures
            final(self).timeout() == old(self).timeout(),
            ({
                let k = pair_key(actor_key, target_key);
                if actor_key != target_key && old(self).open_sessions().contains_key(k) {
                    let s0 = old(self).open_sessions()[k];
                    final(self).open_sessions() == old(self).open_sessions().insert(
                        k,
                        InFlightInjection {
                            memory_written: true,
                            stages: bump(s0.stages),
                            last_updated: timestamp,
                            allocated_base: if s0.allocated_base is None {
                                Some(base_address)
                            } else {
                                s0.allocated_base
                            },
                            ..s0
                        },
                    )
                } else {
                    final(self).open_sessions() == old(self).open_sessions()
                }
            }),
    {
        if actor_key == target_key {
            return;
        }
        let k = session_key(actor_key, target_key);
        if let Some(mut s) = self.sessions.remove(&k) {
            s.memory_written = true;
            s.stages = s.stages.saturating_add(1);
            s.last_updated = timestamp;
            if s.allocated_base.is_none() {
                s.allocated_base = Some(base_address);
            }
            self.sessions.insert(k, s);
            assert(self.sessions@ =~= old(self).sessions@.insert(k, s));
        } else {
            assert(self.sessions@ =~= old(self).sessions@);
        }
    }

    /// The actor triggered execution in the target: closes the pair's session, records the
    /// injection (confidence by the number of steps observed, this one included), and pins
    /// both processes. Self-execution is ignored. Returns the recorded interaction's id.
    pub fn on_remote_execution(
        &mut self,
        actor_key: ProcessKey,
        target_key: ProcessKey,
        trigger: ExecutionTrigger,
        technique: InjectionTechnique,
        timestamp: i64,
        interactions: &mut InteractionRegistry,
        processes: &mut ProcessTree,
        ids: &mut IdCounter,
    ) -> (r: Option<InteractionId>)
        requires
            old(interactions).wf(),
            old(processes).wf(),
        ensures
            final(self).timeout() == old(self).timeout(),
            final(interactions).wf(),
            final(processes).wf(),
            final(interactions).capacity() == old(interactions).capacity(),
            final(processes).pids() == old(processes).pids(),
            actor_key == target_key ==> {
                &&& r is None
                &&& final(self).open_sessions() == old(self).open_sessions()
                &&& final(interactions).log() == old(interactions).log()
                &&& final(processes).procs() == old(processes).procs()
                &&& final(ids).peek() == old(ids).peek()
            },
            actor_key != target_key ==> {
                let k = pair_key(actor_key, target_key);
                let session = if old(self).open_sessions().contains_key(k) {
                    Some(old(self).open_sessions()[k])
                } else {
                    None
                };
                let stages = match session {
                    Some(s) => bump(s.stages),
                    None => 1u8,
                };
                let record = InteractionRecord {
                    id: InteractionId(old(ids).peek()),
                    timestamp,
                    kind: InteractionKind::ProcessInjection(
                        InjectionDetails {
                            technique,
                            target_base_address: match session {
                                Some(s) => s.allocated_base,
                                None => None,
                            },
                            allocated_size: match session {
                                Some(s) => s.allocated_size,
                                None => None,
                            },
                            execution_trigger: Some(trigger),
                            stages_observed: stages,
                        },
                    ),
                    source: EntityId::Process(actor_key),
                    target: EntityId::Process(target_key),
                    confidence: confidence_for(stages),
                    description: final(interactions).log().last().description,
                };
                &&& r == Some(InteractionId(old(ids).peek()))
                &&& final(ids).peek() == vstd::wrapping::u64_specs::wrapping_add(old(ids).peek(), 1)
                &&& final(self).open_sessions() == old(self).open_sessions().remove(k)
                &&& final(interactions).log() == ring_push(
                    old(interactions).log(),
                    record,
                    old(interactions).capacity(),
                )
                &&& record.description@ == injection_description(technique, trigger, stages)
                &&& final(processes).procs().dom() == old(processes).procs().dom()
                &&& forall|p: u64| #[trigger]
                    final(processes).procs().contains_key(p) ==> if p == actor_key.0 || p
                        == target_key.0 {
                        final(processes).procs()[p] == (ProcessContext {
                            is_pinned: true,
                            ..old(processes).procs()[p]
                        })
                    } else {
                        final(processes).procs()[p] == old(processes).procs()[p]
                    }
            },
    {
        if actor_key == target_key {
            return None;
        }
        let k = session_key(actor_key, target_key);
        let session = self.sessions.remove(&k);
        let (stages, allocated_base, allocated_size) = match session {
            Some(s) => (s.stages.saturating_add(1), s.allocated_base, s.allocated_size),
            None => (1u8, None, None),
        };
        let confidence = if stages >= 3 {
            ConfidenceLevel::Confirmed
        } else if stages >= 2 {
            ConfidenceLevel::High
        } else {
            ConfidenceLevel::Medium
        };
        let details = InjectionDetails {
            technique,
            target_base_address: allocated_base,
            allocated_size,
            execution_trigger: Some(trigger),
            stages_observed: stages,
        };
        let description = describe_injection(technique, trigger, stages);
        let record = InteractionRecord::new(
            ids,
            InteractionKind::ProcessInjection(details),
            EntityId::Process(actor_key),
            EntityId::Process(target_key),
            timestamp,
            confidence,
            description,
        );
        processes.set_pinned(actor_key, true);
        processes.set_pinned(target_key, true);
        let id = interactions.record(record);
        Some(id)
    }

    /// Drops the sessions idle for longer than the timeout at `now`. Returns how many.
    pub fn prune_stale_sessions(&mut self, now: i64) -> (n: usize)
        ensures
            final(self).timeout() == old(self).timeout(),
            final(self).open_sessions() == old(self).open_sessions().restrict(
                old(self).open_sessions().dom().filter(
                    |k: u128| !(now - old(self).open_sessions()[k].last_updated > old(self).timeout()),
                ),
            ),
            n == old(self).open_sessions().len() - final(self).open_sessions().len(),
    {
        let ghost start = self.sessions@;
        let keys = map_keys(&self.sessions);
        let count = keys.len();
        let mut removed: usize = 0;
        let mut i: usize = 0;
        let timeout = self.session_timeout_ms;
        assert(keys@.subrange(0, count as int) =~= keys@);
        assert forall|k: u128| start.contains_key(k) implies keys@.contains(k) by {
            assert(keys@.to_set().contains(k));
        }
        while i < count
            invariant
                count == keys@.len(),
                keys@.to_set() == start.dom(),
                keys@.no_duplicates(),
                i <= count,
                timeout == self.session_timeout_ms,
                removed <= i,
                forall|k: u128| #[trigger]
                    self.sessions@.contains_key(k) <==> start.contains_key(k) && (!(now
                        - start[k].last_updated > timeout) || keys@.subrange(i as int, count as int).contains(k)),
                forall|k: u128| #[trigger] self.sessions@.contains_key(k) ==> self.sessions@[k] == start[k],
                self.sessions@.dom().finite(),
                removed + self.sessions@.len() == start.len(),
            decreases count - i,
        {
            let k = keys[i];
            let stale = match self.sessions.get(&k) {
                Some(s) => (now as i128) - (s.last_updated as i128) > (timeout as i128),
                None => false,
            };
            if stale {
                self.sessions.remove(&k);
                removed = removed + 1;
            }
            proof {
                let cur = keys@.subrange(i as int, count as int);
                let rest = keys@.subrange(i + 1, count as int);
                assert forall|x: u128| cur.contains(x) && x != k implies rest.contains(x) by {
                    let j = choose|j: int| 0 <= j < cur.len() && #[trigger] cur[j] == x;
                    assert(j != 0);
                    assert(rest[j - 1] == x);
                }
                assert forall|x: u128| rest.contains(x) implies cur.contains(x) && x != k by {
                    let j = choose|j: int| 0 <= j < rest.len() && #[trigger] rest[j] == x;
                    assert(cur[j + 1] == x);
                    assert(keys@[i + 1 + j] == x);
                    assert(keys@[i as int] == k);
                }
                assert(cur.contains(k)) by {
                    assert(cur[0] == k);
                }
            }
            i = i + 1;
        }
        proof {
            assert(keys@.subrange(count as int, count as int).len() == 0);
            assert(self.sessions@ =~= start.restrict(
                start.dom().filter(|k: u128| !(now - start[k].last_updated > timeout)),
            ));
        }
        removed
    }
}

impl Default for InjectionCorrelator {
    fn default() -> (c: Self)
        ensures
            c.open_sessions() == Map::<u128, InFlightInjection>::empty(),
            c.timeout() == SESSION_TIMEOUT_MS,
    {
        InjectionCorrelator::new()
    }
}

} // verus!
