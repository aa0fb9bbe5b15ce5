//! Filters over the logged interactions.
use vstd::prelude::*;

use crate::context::identity::{EntityId, ProcessKey};
use crate::context::models::interaction::InteractionRecord;
use crate::context::registries::interaction_registry::{
    inbound_of, injections_of, newest_first, outbound_of,
};
use crate::context::system::SystemContext;

verus! {

/// The elements of `s` whose position is marked in `keep`, in order.
pub open spec fn kept_by<T>(s: Seq<T>, keep: Seq<bool>) -> Seq<T>
    decreases s.len(),
{
    if s.len() == 0 {
        Seq::empty()
    } else {
        let rest = kept_by(s.drop_last(), keep);
        if keep[s.len() - 1] {
            rest.push(s.last())
        } else {
            rest
        }
    }
}

/// `v` holds the records of `inspected` the predicate accepted, in order: for some outcome
/// of calling it once on each.
pub open spec fn accepted_by<F: Fn(&InteractionRecord) -> bool>(
    predicate: F,
    inspected: Seq<InteractionRecord>,
    v: Seq<InteractionRecord>,
) -> bool {
    exists|keep: Seq<bool>|
        #![trigger kept_by(inspected, keep)]
        {
            &&& keep.len() == inspected.len()
            &&& forall|j: int|
                0 <= j < keep.len() ==> call_ensures(predicate, (&inspected[j],), #[trigger] keep[j])
            &&& v == kept_by(inspected, keep)
        }
}

/// Filters over the interaction log of a context.
pub struct InteractionQuery<'a> {
    /// The context queried.
    pub ctx: &'a SystemContext,
}

impl<'a> InteractionQuery<'a> {
    /// Filters over the interaction log of `ctx`.
    pub fn new(ctx: &'a SystemContext) -> (q: Self)
        ensures
            q.ctx == ctx,
    {
        InteractionQuery { ctx }
    }

    /// Injections into the process, oldest first.
    pub fn injections_into(&self, target_process: ProcessKey) -> (v: Vec<&'a InteractionRecord>)
        ensures
            v@.unref() == injections_of(self.ctx.interactions.log(), target_process),
    {
        self.ctx.interactions.injections_into(target_process)
    }

    /// Records started by the process, oldest first.
    pub fn by_source_process(&self, source_process: ProcessKey) -> (v: Vec<&'a InteractionRecord>)
        ensures
            v@.unref() == outbound_of(self.ctx.interactions.log(), EntityId::Process(source_process)),
    {
        self.ctx.interactions.outbound(EntityId::Process(source_process))
    }

    /// Records landing on `target`, oldest first.
    pub fn targeting(&self, target: EntityId) -> (v: Vec<&'a InteractionRecord>)
        ensures
            v@.unref() == inbound_of(self.ctx.interactions.log(), target),
    {
        self.ctx.interactions.inbound(target)
    }

    /// The newest `count` records, newest first.
    pub fn recent(&self, count: usize) -> (v: Vec<&'a InteractionRecord>)
        ensures
            v@.unref() == newest_first(self.ctx.interactions.log(), count as nat),
    {
        self.ctx.interactions.recent_interactions(count)
    }

    /// Among the newest `max_inspect` records (newest first), those the predicate accepts,
    /// in the same order. The predicate is called once on each inspected record.
    pub fn matching<F: Fn(&InteractionRecord) -> bool>(&self, max_inspect: usize, predicate: F) -> (v: Vec<
        &'a InteractionRecord,
    >)
        requires
            forall|r: &InteractionRecord| call_requires(predicate, (r,)),
        ensures
            accepted_by(predicate, newest_first(self.ctx.interactions.log(), max_inspect as nat), v@.unref()),
    {
        let recent = self.recent(max_inspect);
        let n = recent.len();
        let mut v: Vec<&'a InteractionRecord> = Vec::new();
        let ghost mut keep: Seq<bool> = Seq::empty();
        let mut i: usize = 0;
        while i < n
            invariant
                n == recent@.len(),
                i <= n,
                keep.len() == i,
                forall|r: &InteractionRecord| call_requires(predicate, (r,)),
                forall|j: int| 0 <= j < i ==> call_ensures(predicate, (recent@[j],), #[trigger] keep[j]),
                v@.unref() == kept_by(recent@.unref().take(i as int), keep),
            decreases n - i,
        {
            let r = recent[i];
            let accepted = predicate(r);
            let ghost t = recent@.unref().take(i + 1);
            let ghost old_keep = keep;
            proof {
                keep = keep.push(accepted);
                assert(keep.drop_last() =~= old_keep);
                assert(t.drop_last() =~= recent@.unref().take(i as int));
                assert(t.last() == *r);
                assert(kept_by(t.drop_last(), keep) == kept_by(recent@.unref().take(i as int), keep.drop_last())) by {
                    lemma_kept_by_prefix(recent@.unref().take(i as int), keep.drop_last(), keep);
                }
            }
            let ghost prev = v@;
            if accepted {
                v.push(r);
                assert(v@.unref() =~= prev.unref().push(*r));
            }
            proof {
                assert(t.len() == i + 1);
                assert(keep[t.len() - 1] == accepted);
                assert(kept_by(t, keep) == (if accepted {
                    kept_by(t.drop_last(), keep).push(t.last())
                } else {
                    kept_by(t.drop_last(), keep)
                }));
            }
            i = i + 1;
        }
        assert(recent@.unref().take(n as int) =~= recent@.unref());
        v
    }
}

/// Only the marks at positions of `s` matter.
proof fn lemma_kept_by_prefix<T>(s: Seq<T>, a: Seq<bool>, b: Seq<bool>)
    requires
        a.len() >= s.len(),
        b.len() >= s.len(),
        forall|j: int| 0 <= j < s.len() ==> a[j] == b[j],
    ensures
        kept_by(s, a) == kept_by(s, b),
    decreases s.len(),
{
    if s.len() > 0 {
        lemma_kept_by_prefix(s.drop_last(), a, b);
    }
}

} // verus!
