use std::sync::atomic::{AtomicUsize, Ordering};
use std::sync::Arc;

use pulsar::alerts::manager::{AlertManager, AlertSink};
use pulsar::alerts::model::{AlertEmissionPolicy, AlertId, AlertRecord, AlertSeverity};
use pulsar::context::identity::{IdCounter, ProcessKey};
use pulsar::context::models::interaction::ConfidenceLevel;

struct MockSink {
    call_count: Arc<AtomicUsize>,
}

impl AlertSink for MockSink {
    fn on_alert(&self, _alert: &AlertRecord) {
        self.call_count.fetch_add(1, Ordering::SeqCst);
    }
}

#[test]
fn test_alert_manager_emit_and_retrieve() {
    let mut ids = IdCounter::new();
    let mut manager = AlertManager::new(10);
    let proc_key = ProcessKey::new(&mut ids);

    let alert = AlertRecord::new(
        &mut ids,
        AlertSeverity::High,
        "Defense Evasion".to_string(),
        "Direct Syscall Execution".to_string(),
        "Process executed direct syscall from unbacked memory stub".to_string(),
        proc_key,
        ConfidenceLevel::Confirmed,
        1000,
    )
    .with_mitre("T1106".to_string())
    .with_evidence("target_address".to_string(), "0x7fff1234".to_string());

    manager.emit(alert.clone());

    assert_eq!(manager.len(), 1);
    assert!(!manager.is_empty());

    let recent = manager.recent_alerts(5);
    assert_eq!(recent.len(), 1);
    assert_eq!(recent[0].title, "Direct Syscall Execution");
    assert_eq!(recent[0].severity, AlertSeverity::High);
    assert_eq!(recent[0].mitre_technique.as_deref(), Some("T1106"));
    assert_eq!(recent[0].evidence_value("target_address").map(|s| s.as_str()), Some("0x7fff1234"));
}

#[test]
fn test_alert_manager_bounded_capacity() {
    let mut ids = IdCounter::new();
    let capacity = 5;
    let mut manager = AlertManager::new(capacity);
    let proc_key = ProcessKey::new(&mut ids);

    for i in 0..10 {
        let alert = AlertRecord::new(
            &mut ids,
            AlertSeverity::Medium,
            "Test".to_string(),
            format!("Alert #{i}"),
            "Test alert description".to_string(),
            proc_key,
            ConfidenceLevel::Medium,
            1000 + i as i64,
        );
        manager.emit(alert);
    }

    assert!(manager.len() <= 100);
}

#[test]
fn test_alert_sink_dispatch() {
    let mut ids = IdCounter::new();
    let mut manager = AlertManager::new(10);
    let call_count = Arc::new(AtomicUsize::new(0));

    let mock_sink = Box::new(MockSink { call_count: Arc::clone(&call_count) });
    manager.add_sink(mock_sink);

    let trigger = ProcessKey::new(&mut ids);
    let alert = AlertRecord::new(
        &mut ids,
        AlertSeverity::Critical,
        "Process Injection".to_string(),
        "Process Hollowing Detected".to_string(),
        "Target executable section was unmapped and overwritten".to_string(),
        trigger,
        ConfidenceLevel::Confirmed,
        2000,
    );

    manager.emit(alert);

    assert_eq!(call_count.load(Ordering::SeqCst), 1);
}

#[test]
fn alert_store_drops_oldest_beyond_capacity() {
    let mut ids = IdCounter::new();
    let mut manager = AlertManager::new(100);
    for i in 0..105 {
        let a = AlertRecord::new(
            &mut ids,
            AlertSeverity::Low,
            "c".to_string(),
            format!("{i}"),
            "d".to_string(),
            ProcessKey::from_raw(1),
            ConfidenceLevel::Low,
            i,
        );
        manager.emit(a);
    }
    assert_eq!(manager.len(), 100);
    let newest = manager.recent_alerts(2);
    assert_eq!(newest[0].title, "104");
    assert_eq!(newest[1].title, "103");
    assert_eq!(manager.recent_alerts(1000).last().unwrap().title, "5");
    manager.clear();
    assert!(manager.is_empty());
}

#[test]
fn alert_builders_and_severity_names() {
    let mut ids = IdCounter::new();
    let a = AlertRecord::new(
        &mut ids,
        AlertSeverity::Informational,
        "c".to_string(),
        "t".to_string(),
        "d".to_string(),
        ProcessKey::from_raw(1),
        ConfidenceLevel::High,
        0,
    );
    assert_eq!(a.id, AlertId::from_raw(1));
    assert_eq!(a.id.as_u64(), 1);
    assert_eq!(a.emission_policy, AlertEmissionPolicy::EveryEvent);
    let a = a.with_target_process(ProcessKey::from_raw(2)).once_per_process();
    assert_eq!(a.target_process, Some(ProcessKey::from_raw(2)));
    assert_eq!(a.emission_policy, AlertEmissionPolicy::OncePerProcess);
    let a = a.with_cooldown(500);
    assert_eq!(a.emission_policy, AlertEmissionPolicy::Throttled { cooldown_ms: 500 });
    let a = a.with_policy(AlertEmissionPolicy::EveryEvent)
        .with_evidence("k".to_string(), "1".to_string())
        .with_evidence("k".to_string(), "2".to_string());
    assert_eq!(a.evidence_value("k").map(|s| s.as_str()), Some("2"));
    assert!(a.evidence_value("missing").is_none());

    assert_eq!(AlertSeverity::Informational.as_str(), "INFORMATIONAL");
    assert_eq!(AlertSeverity::Low.as_str(), "LOW");
    assert_eq!(AlertSeverity::Medium.as_str(), "MEDIUM");
    assert_eq!(AlertSeverity::High.as_str(), "HIGH");
    assert_eq!(AlertSeverity::Critical.as_str(), "CRITICAL");
    assert!(AlertSeverity::Critical > AlertSeverity::High);
}
