//! Bounded log of cross-entity interactions, queried by source and target.
use std::collections::VecDeque;
use vstd::prelude::*;

use crate::context::identity::{EntityId, InteractionId, ProcessKey};
use crate::context::models::interaction::InteractionRecord;

verus! {

/// `s` after appending `x` to a log holding at most `cap` entries (at least one): the oldest
/// entry is dropped first when the log is full.
pub open spec fn ring_push<T>(s: Seq<T>, x: T, cap: nat) -> Seq<T> {
    if s.len() >= cap && s.len() > 0 {
        s.drop_first().push(x)
    } else {
        s.push(x)
    }
}

/// The records of `s` landing on `t`, oldest first.
pub open spec fn inbound_of(s: Seq<InteractionRecord>, t: EntityId) -> Seq<InteractionRecord> {
    s.filter(|r: InteractionRecord| r.target == t)
}

/// The records of `s` starting from `t`, oldest first.
pub open spec fn outbound_of(s: Seq<InteractionRecord>, t: EntityId) -> Seq<InteractionRecord> {
    s.filter(|r: InteractionRecord| r.source == t)
}

/// The injections of `s` into the process `p`, oldest first.
pub open spec fn injections_of(s: Seq<InteractionRecord>, p: ProcessKey) -> Seq<InteractionRecord> {
    inbound_of(s, EntityId::Process(p)).filter(|r: InteractionRecord| r.kind is ProcessInjection)
}

/// The newest `count` records of `s` (all of them when fewer), newest first.
pub open spec fn newest_first(s: Seq<InteractionRecord>, count: nat) -> Seq<InteractionRecord> {
    let n = if count < s.len() {
        count
    } else {
        s.len()
    };
    Seq::new(n, |i: int| s[s.len() - 1 - i])
}

/// Bounded log of interactions.
pub struct InteractionRegistry {
    records: VecDeque<InteractionRecord>,
    max_capacity: usize,
}

/// The record is selected by target (optionally only injections) or by source.
pub open spec fn selects(r: InteractionRecord, t: EntityId, by_target: bool, injections_only: bool) -> bool {
    if by_target {
        r.target == t && (!injections_only || r.kind is ProcessInjection)
    } else {
        r.source == t
    }
}

/// The records of `s` selected by target or source, collected by reference in order.
fn select_refs<'a>(
    s: &'a VecDeque<InteractionRecord>,
    t: EntityId,
    by_target: bool,
    injections_only: bool,
) -> (v: Vec<&'a InteractionRecord>)
    ensures
        v@.unref() == (if by_target {
            if injections_only {
                inbound_of(s@, t).filter(|r: InteractionRecord| r.kind is ProcessInjection)
            } else {
                inbound_of(s@, t)
            }
        } else {
            outbound_of(s@, t)
        }),
{
    let mut v: Vec<&'a InteractionRecord> = Vec::new();
    let n = s.len();
    let mut i: usize = 0;
    while i < n
        invariant
            n == s@.len(),
            i <= n,
            v@.unref() == s@.take(i as int).filter(|r: InteractionRecord| selects(r, t, by_target, injections_only)),
        decreases n - i,
    {
        let r = &s[i];
        let hit = if by_target {
            r.target == t && (!injections_only || r.is_injection())
        } else {
            r.source == t
        };
        let ghost prev = v@;
        proof {
            assert(*r == s@[i as int]);
            if by_target {
                assert(hit == (s@[i as int].target == t && (!injections_only || s@[i as int].kind is ProcessInjection)));
            } else {
                assert(hit == (s@[i as int].source == t));
            }
            assert(hit == selects(s@[i as int], t, by_target, injections_only));
            assert(s@.take(i + 1).drop_last() =~= s@.take(i as int));
            assert(s@.take(i + 1).last() == s@[i as int]);
            reveal(Seq::filter);
        }
        if hit {
            v.push(r);
            assert(v@.unref() =~= prev.unref().push(s@[i as int]));
        }
        i = i + 1;
    }
    proof {
        assert(s@.take(n as int) =~= s@);
        lemma_filter_split(s@, t, by_target, injections_only);
    }
    v
}

proof fn lemma_filter_split(s: Seq<InteractionRecord>, t: EntityId, by_target: bool, injections_only: bool)
    ensures
        s.filter(|r: InteractionRecord| selects(r, t, by_target, injections_only)) == (if by_target {
            if injections_only {
                inbound_of(s, t).filter(|r: InteractionRecord| r.kind is ProcessInjection)
            } else {
                inbound_of(s, t)
            }
        } else {
            outbound_of(s, t)
        }),
    decreases s.len(),
{
    reveal(Seq::filter);
    if s.len() > 0 {
        lemma_filter_split(s.drop_last(), t, by_target, injections_only);
        if by_target && injections_only {
            let inner = s.drop_last().filter(|r: InteractionRecord| r.target == t);
            if s.last().target == t {
                assert(inbound_of(s, t) == inner.push(s.last()));
                assert(inner.push(s.last()).drop_last() =~= inner);
            }
        }
    }
}

impl InteractionRegistry {
    /// The logged records, oldest first.
    pub closed spec fn log(&self) -> Seq<InteractionRecord> {
        self.records@
    }

    /// The capacity of the log.
    pub closed spec fn capacity(&self) -> nat {
        self.max_capacity as nat
    }

    /// The log never holds more than its capacity (and never more than one record when the
    /// capacity is zero).
    pub open spec fn wf(&self) -> bool {
        self.log().len() <= if self.capacity() > 0 { self.capacity() } else { 1 }
    }

    /// An empty log holding at most `max_capacity` records.
    pub fn new(max_capacity: usize) -> (r: Self)
        ensures
            r.wf(),
            r.log().len() == 0,
            r.capacity() == max_capacity,
    {
        InteractionRegistry { records: VecDeque::new(), max_capacity }
    }

    /// Logs a record, dropping the oldest one when the log is full. Returns the record's id.
    pub fn record(&mut self, record: InteractionRecord) -> (id: InteractionId)
        requires
            old(self).wf(),
        ensures
            final(self).wf(),
            id == record.id,
            final(self).log() == ring_push(old(self).log(), record, old(self).capacity()),
            final(self).capacity() == old(self).capacity(),
    {
        let id = record.id;
        if self.records.len() >= self.max_capacity && self.records.len() > 0 {
            self.records.pop_front();
        }
        self.records.push_back(record);
        id
    }

    /// Records landing on `target`, oldest first.
    pub fn inbound(&self, target: EntityId) -> (v: Vec<&InteractionRecord>)
        ensures
            v@.unref() == inbound_of(self.log(), target),
    {
        select_refs(&self.records, target, true, false)
    }

    /// Records landing on `target`, oldest first.
    pub fn get_inbound(&self, target: EntityId) -> (v: Vec<&InteractionRecord>)
        ensures
            v@.unref() == inbound_of(self.log(), target),
    {
        self.inbound(target)
    }

    /// Records starting from `source`, oldest first.
    pub fn outbound(&self, source: EntityId) -> (v: Vec<&InteractionRecord>)
        ensures
            v@.unref() == outbound_of(self.log(), source),
    {
        select_refs(&self.records, source, false, false)
    }

    /// Records starting from `source`, oldest first.
    pub fn get_outbound(&self, source: EntityId) -> (v: Vec<&InteractionRecord>)
        ensures
            v@.unref() == outbound_of(self.log(), source),
    {
        self.outbound(source)
    }

    /// Injections into the process, oldest first.
    pub fn injections_into(&self, target_process: ProcessKey) -> (v: Vec<&InteractionRecord>)
        ensures
            v@.unref() == injections_of(self.log(), target_process),
    {
        select_refs(&self.records, EntityId::Process(target_process), true, true)
    }

    /// Injections into the process, oldest first.
    pub fn get_injections_into(&self, target_process: ProcessKey) -> (v: Vec<&InteractionRecord>)
        ensures
            v@.unref() == injections_of(self.log(), target_process),
    {
        self.injections_into(target_process)
    }

    /// The newest `count` records, newest first.
    pub fn recent_interactions(&self, count: usize) -> (v: Vec<&InteractionRecord>)
        ensures
            v@.unref() == newest_first(self.log(), count as nat),
    {
        let n = self.records.len();
        let take = if count < n {
            count
        } else {
            n
        };
        let mut v: Vec<&InteractionRecord> = Vec::new();
        let mut i: usize = 0;
        while i < take
            invariant
                n == self.records@.len(),
                take <= n,
                take == (if count < n { count } else { n }),
                i <= take,
                v@.unref() == newest_first(self.records@, count as nat).take(i as int),
            decreases take - i,
        {
            let ghost prev = v@;
            let r = &self.records[n - 1 - i];
            v.push(r);
            assert(v@.unref() =~= prev.unref().push(self.records@[n - 1 - i]));
            assert(v@.unref() =~= newest_first(self.records@, count as nat).take(i + 1));
            i = i + 1;
        }
        assert(newest_first(self.records@, count as nat).take(take as int) =~= newest_first(
            self.records@,
            count as nat,
        ));
        v
    }

    /// Number of logged records.
    pub fn len(&self) -> (n: usize)
        ensures
            n == self.log().len(),
    {
        self.records.len()
    }

    /// The log is empty.
    pub fn is_empty(&self) -> (b: bool)
        ensures
            b == (self.log().len() == 0),
    {
        self.records.len() == 0
    }

    /// Number of logged records.
    pub fn total_count(&self) -> (n: usize)
        ensures
            n == self.log().len(),
    {
        self.records.len()
    }
}

/// The log keeps the newest records: after appending, the new record is the newest, the
/// log stays within capacity, and the records kept before it are the newest of the old log.
pub proof fn lemma_ring_push(s: Seq<InteractionRecord>, x: InteractionRecord, cap: nat)
    requires
        s.len() <= if cap > 0 { cap } else { 1 },
    ensures
        ring_push(s, x, cap).last() == x,
        ring_push(s, x, cap).len() <= if cap > 0 { cap } else { 1 },
        ring_push(s, x, cap).drop_last() == s.skip(s.len() - (ring_push(s, x, cap).len() - 1)),
{
    let r = ring_push(s, x, cap);
    if s.len() >= cap && s.len() > 0 {
        assert(r.drop_last() =~= s.drop_first());
        assert(s.skip(1) =~= s.drop_first());
    } else {
        assert(r.drop_last() =~= s);
        assert(s.skip(0) =~= s);
    }
}

} // verus!
