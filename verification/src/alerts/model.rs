//! Alerts: identity, severity, emission policy and evidence.
use vstd::prelude::*;

use crate::context::identity::{IdCounter, ProcessKey};
use crate::context::models::interaction::ConfidenceLevel;

verus! {

/// Identifier of an alert.
#[derive(Debug, Clone, Copy, PartialEq, Eq, Structural, PartialOrd, Ord, Hash)]
pub struct AlertId(pub u64);

impl AlertId {
    /// A fresh identifier drawn from `counter`.
    pub fn new(counter: &mut IdCounter) -> (k: Self)
        ensures
            k.0 == old(counter).peek(),
            final(counter).peek() == vstd::wrapping::u64_specs::wrapping_add(old(counter).peek(), 1),
    {
        AlertId(counter.take())
    }

    /// The identifier with this raw value.
    pub fn from_raw(raw: u64) -> (k: Self)
        ensures
            k.0 == raw,
    {
        AlertId(raw)
    }

    /// The raw value.
    pub fn as_u64(&self) -> (v: u64)
        ensures
            v == self.0,
    {
        self.0
    }
}

/// Severity of an alert, in increasing order.
#[derive(Debug, Clone, Copy, PartialEq, Eq, Structural, PartialOrd, Ord, Hash)]
pub enum AlertSeverity {
    /// Informational.
    Informational,
    /// Low.
    Low,
    /// Medium.
    Medium,
    /// High.
    High,
    /// Critical.
    Critical,
}

impl Default for AlertSeverity {
    fn default() -> (s: Self)
        ensures
            s == AlertSeverity::Informational,
    {
        AlertSeverity::Informational
    }
}

/// The upper-case name of a severity.
pub open spec fn severity_label(s: AlertSeverity) -> Seq<char> {
    match s {
        AlertSeverity::Informational => "INFORMATIONAL"@,
        AlertSeverity::Low => "LOW"@,
        AlertSeverity::Medium => "MEDIUM"@,
        AlertSeverity::High => "HIGH"@,
        AlertSeverity::Critical => "CRITICAL"@,
    }
}

impl AlertSeverity {
    /// The upper-case name of the severity.
    pub fn as_str(&self) -> (s: &'static str)
        ensures
            s@ == severity_label(*self),
    {
        match self {
            AlertSeverity::Informational => "INFORMATIONAL",
            AlertSeverity::Low => "LOW",
            AlertSeverity::Medium => "MEDIUM",
            AlertSeverity::High => "HIGH",
            AlertSeverity::Critical => "CRITICAL",
        }
    }
}

/// When an alert may be emitted again.
#[derive(Debug, Clone, Copy, PartialEq, Eq, Structural)]
pub enum AlertEmissionPolicy {
    /// On every matching event.
    EveryEvent,
    /// Once per triggering process.
    OncePerProcess,
    /// At most once per cooldown period.
    Throttled {
        /// Cooldown in milliseconds.
        cooldown_ms: u64,
    },
}

impl Default for AlertEmissionPolicy {
    fn default() -> (p: Self)
        ensures
            p == AlertEmissionPolicy::EveryEvent,
    {
        AlertEmissionPolicy::EveryEvent
    }
}

/// An alert raised by a detection.
#[derive(Debug, Clone, PartialEq)]
pub struct AlertRecord {
    /// Identifier.
    pub id: AlertId,
    /// When it was raised.
    pub timestamp: i64,
    /// Severity.
    pub severity: AlertSeverity,
    /// Category, e.g. "Defense Evasion".
    pub category: String,
    /// Title.
    pub title: String,
    /// Description.
    pub description: String,
    /// MITRE ATT&CK technique, when known.
    pub mitre_technique: Option<String>,
    /// The process that triggered it.
    pub triggering_process: ProcessKey,
    /// The process acted upon, when any.
    pub target_process: Option<ProcessKey>,
    /// Confidence.
    pub confidence: ConfidenceLevel,
    /// Emission policy.
    pub emission_policy: AlertEmissionPolicy,
    /// Evidence as key/value pairs, one value per key.
    pub evidence: Vec<(String, String)>,
}

/// The evidence `e` as a map from key to value.
pub open spec fn evidence_map(e: Seq<(String, String)>) -> Map<Seq<char>, Seq<char>>
    decreases e.len(),
{
    if e.len() == 0 {
        Map::empty()
    } else {
        evidence_map(e.drop_last()).insert(e.last().0@, e.last().1@)
    }
}

impl AlertRecord {
    /// An alert with a fresh identifier, no technique or target, emitted on every event, and
    /// no evidence.
    pub fn new(
        ids: &mut IdCounter,
        severity: AlertSeverity,
        category: String,
        title: String,
        description: String,
        triggering_process: ProcessKey,
        confidence: ConfidenceLevel,
        timestamp: i64,
    ) -> (a: Self)
        ensures
            a.id.0 == old(ids).peek(),
            final(ids).peek() == vstd::wrapping::u64_specs::wrapping_add(old(ids).peek(), 1),
            a.timestamp == timestamp,
            a.severity == severity,
            a.category == category,
            a.title == title,
            a.description == description,
            a.mitre_technique is None,
            a.triggering_process == triggering_process,
            a.target_process is None,
            a.confidence == confidence,
            a.emission_policy == AlertEmissionPolicy::EveryEvent,
            evidence_map(a.evidence@) == Map::<Seq<char>, Seq<char>>::empty(),
    {
        AlertRecord {
            id: AlertId::new(ids),
            timestamp,
            severity,
            category,
            title,
            description,
            mitre_technique: None,
            triggering_process,
            target_process: None,
            confidence,
            emission_policy: AlertEmissionPolicy::EveryEvent,
            evidence: Vec::new(),
        }
    }

    /// The same alert with a MITRE technique.
    pub fn with_mitre(self, technique: String) -> (a: Self)
        ensures
            a == (AlertRecord { mitre_technique: Some(technique), ..self }),
    {
        let mut a = self;
        a.mitre_technique = Some(technique);
        a
    }

    /// The same alert with a target process.
    pub fn with_target_process(self, target_key: ProcessKey) -> (a: Self)
        ensures
            a == (AlertRecord { target_process: Some(target_key), ..self }),
    {
        let mut a = self;
        a.target_process = Some(target_key);
        a
    }

    /// The same alert, emitted once per process.
    pub fn once_per_process(self) -> (a: Self)
        ensures
            a == (AlertRecord { emission_policy: AlertEmissionPolicy::OncePerProcess, ..self }),
    {
        let mut a = self;
        a.emission_policy = AlertEmissionPolicy::OncePerProcess;
        a
    }

    /// The same alert, throttled by a cooldown.
    pub fn with_cooldown(self, cooldown_ms: u64) -> (a: Self)
        ensures
            a == (AlertRecord {
                emission_policy: AlertEmissionPolicy::Throttled { cooldown_ms },
                ..self
            }),
    {
        let mut a = self;
        a.emission_policy = AlertEmissionPolicy::Throttled { cooldown_ms };
        a
    }

    /// The same alert with another emission policy.
    pub fn with_policy(self, policy: AlertEmissionPolicy) -> (a: Self)
        ensures
            a == (AlertRecord { emission_policy: policy, ..self }),
    {
        let mut a = self;
        a.emission_policy = policy;
        a
    }

    /// The same alert with a piece of evidence (replacing the value of an existing key).
    pub fn with_evidence(self, key: String, value: String) -> (a: Self)
        ensures
            evidence_map(a.evidence@) == evidence_map(self.evidence@).insert(key@, value@),
            a == (AlertRecord { evidence: a.evidence, ..self }),
    {
        let mut a = self;
        let ghost before = a.evidence@;
        a.evidence.push((key, value));
        assert(a.evidence@.drop_last() =~= before);
        a
    }

    /// The value recorded for an evidence key.
    pub fn evidence_value(&self, key: &str) -> (v: Option<&String>)
        ensures
            match v {
                Some(s) => evidence_map(self.evidence@).contains_key(key@)
                    && evidence_map(self.evidence@)[key@] == s@,
                None => !evidence_map(self.evidence@).contains_key(key@),
            },
    {
        let wanted: String = key.to_owned();
        let mut i: usize = self.evidence.len();
        assert(self.evidence@.take(i as int) =~= self.evidence@);
        while i > 0
            invariant
                i <= self.evidence@.len(),
                wanted@ == key@,
                evidence_map(self.evidence@).contains_key(key@) == evidence_map(
                    self.evidence@.take(i as int),
                ).contains_key(key@),
                evidence_map(self.evidence@.take(i as int)).contains_key(key@)
                    ==> evidence_map(self.evidence@)[key@] == evidence_map(
                    self.evidence@.take(i as int),
                )[key@],
            decreases i,
        {
            let j = i - 1;
            proof {
                assert(self.evidence@.take(i as int).drop_last() =~= self.evidence@.take(j as int));
            }
            if self.evidence[j].0 == wanted {
                return Some(&self.evidence[j].1);
            }
            i = j;
        }
        None
    }
}

} // verus!
