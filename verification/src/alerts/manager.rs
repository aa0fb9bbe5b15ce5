//! Bounded store of emitted alerts, and their distribution to sinks.
use std::collections::VecDeque;
use vstd::prelude::*;

use crate::alerts::model::AlertRecord;

verus! {

/// Receives every emitted alert.
pub trait AlertSink {
    /// Handles one alert.
    fn on_alert(&self, alert: &AlertRecord);
}

/// The store keeps at least this many alerts.
pub const MIN_ALERT_CAPACITY: usize = 100;

/// `s` with `x` appended to a store of capacity `cap`: the oldest alert is dropped first
/// when the store is full.
pub open spec fn alerts_after(s: Seq<AlertRecord>, x: AlertRecord, cap: nat) -> Seq<AlertRecord> {
    if s.len() >= cap {
        s.drop_first().push(x)
    } else {
        s.push(x)
    }
}

/// The newest `count` alerts of `s` (all when fewer), newest first.
pub open spec fn newest_alerts(s: Seq<AlertRecord>, count: nat) -> Seq<AlertRecord> {
    let n = if count < s.len() {
        count
    } else {
        s.len()
    };
    Seq::new(n, |i: int| s[s.len() - 1 - i])
}

/// Distributes alerts to sinks and keeps the most recent ones.
pub struct AlertManager {
    alerts: VecDeque<AlertRecord>,
    sinks: Vec<Box<dyn AlertSink>>,
    max_capacity: usize,
}

impl AlertManager {
    /// The stored alerts, oldest first.
    pub closed spec fn stored(&self) -> Seq<AlertRecord> {
        self.alerts@
    }

    /// The registered sinks, in registration order.
    pub closed spec fn sinks(&self) -> Seq<Box<dyn AlertSink>> {
        self.sinks@
    }

    /// Capacity of the store.
    pub closed spec fn capacity(&self) -> nat {
        self.max_capacity as nat
    }

    /// The store is within its capacity, which is at least [`MIN_ALERT_CAPACITY`].
    pub open spec fn wf(&self) -> bool {
        &&& self.capacity() >= MIN_ALERT_CAPACITY
        &&& self.stored().len() <= self.capacity()
    }

    /// An empty manager without sinks, keeping `max_capacity` alerts (at least 100).
    pub fn new(max_capacity: usize) -> (m: Self)
        ensures
            m.wf(),
            m.stored().len() == 0,
            m.sinks().len() == 0,
            m.capacity() == if max_capacity > MIN_ALERT_CAPACITY {
                max_capacity
            } else {
                MIN_ALERT_CAPACITY
            },
    {
        let cap = if max_capacity > MIN_ALERT_CAPACITY {
            max_capacity
        } else {
            MIN_ALERT_CAPACITY
        };
        AlertManager { alerts: VecDeque::new(), sinks: Vec::new(), max_capacity: cap }
    }

    /// Hands the alert to every sink, then stores it, dropping the oldest when full.
    pub fn emit(&mut self, alert: AlertRecord)
        requires
            old(self).wf(),
        ensures
            final(self).wf(),
            final(self).stored() == alerts_after(old(self).stored(), alert, old(self).capacity()),
            final(self).capacity() == old(self).capacity(),
            final(self).sinks() == old(self).sinks(),
    {
        let n = self.sinks.len();
        let mut i: usize = 0;
        while i < n
            invariant
                n == self.sinks@.len(),
                i <= n,
            decreases n - i,
        {
            self.sinks[i].on_alert(&alert);
            i = i + 1;
        }
        if self.alerts.len() >= self.max_capacity {
            self.alerts.pop_front();
        }
        self.alerts.push_back(alert);
    }

    /// Registers a sink: it is appended to the sinks, which every later alert reaches.
    pub fn add_sink(&mut self, sink: Box<dyn AlertSink>)
        ensures
            final(self).sinks() == old(self).sinks().push(sink),
            final(self).stored() == old(self).stored(),
            final(self).capacity() == old(self).capacity(),
    {
        self.sinks.push(sink);
    }

    /// The newest `count` alerts, newest first.
    pub fn recent_alerts(&self, count: usize) -> (v: Vec<&AlertRecord>)
        ensures
            v@.unref() == newest_alerts(self.stored(), count as nat),
    {
        let n = self.alerts.len();
        let take = if count < n {
            count
        } else {
            n
        };
        let mut v: Vec<&AlertRecord> = Vec::new();
        let mut i: usize = 0;
        while i < take
            invariant
                n == self.alerts@.len(),
                take <= n,
                take == (if count < n { count } else { n }),
                i <= take,
                v@.unref() == newest_alerts(self.alerts@, count as nat).take(i as int),
            decreases take - i,
        {
            let ghost prev = v@;
            let r = &self.alerts[n - 1 - i];
            v.push(r);
            assert(v@.unref() =~= prev.unref().push(self.alerts@[n - 1 - i]));
            assert(v@.unref() =~= newest_alerts(self.alerts@, count as nat).take(i + 1));
            i = i + 1;
        }
        assert(newest_alerts(self.alerts@, count as nat).take(take as int) =~= newest_alerts(
            self.alerts@,
            count as nat,
        ));
        v
    }

    /// Number of stored alerts.
    pub fn len(&self) -> (n: usize)
        ensures
            n == self.stored().len(),
    {
        self.alerts.len()
    }

    /// No alert is stored.
    pub fn is_empty(&self) -> (b: bool)
        ensures
            b == (self.stored().len() == 0),
    {
        self.alerts.len() == 0
    }

    /// Drops every stored alert.
    pub fn clear(&mut self)
        ensures
            final(self).stored().len() == 0,
            final(self).capacity() == old(self).capacity(),
            final(self).sinks() == old(self).sinks(),
    {
        self.alerts.clear();
    }
}

/// The store is bounded and keeps the newest alerts: after an emit the new alert is the
/// newest and the store stays within capacity.
pub proof fn lemma_emit_bounded(s: Seq<AlertRecord>, x: AlertRecord, cap: nat)
    requires
        cap >= MIN_ALERT_CAPACITY,
        s.len() <= cap,
    ensures
        alerts_after(s, x, cap).len() <= cap,
        alerts_after(s, x, cap).last() == x,
        s.len() < cap ==> alerts_after(s, x, cap).len() == s.len() + 1,
{
}

} // verus!
