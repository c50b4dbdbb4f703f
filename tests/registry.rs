use glean::traits::EventRecordingError;
use vpnglean::event::{glean_event_record, glean_event_test_get_error};
use vpnglean::registry::{EventDescriptor, EventRegistry, ExtraPair};

fn descriptor(name: &str, keys: &[&str]) -> EventDescriptor {
    EventDescriptor {
        name: name.to_string(),
        allowed_extra_keys: keys.iter().map(|k| k.to_string()).collect(),
    }
}

fn extras(pairs: &[(&str, &str)]) -> Vec<ExtraPair> {
    pairs.iter().map(|(k, v)| (k.to_string(), v.to_string())).collect()
}

fn registry_with_reason() -> EventRegistry {
    EventRegistry::new(vec![descriptor("connection_lost", &["reason"])])
}

fn two_events() -> EventRegistry {
    EventRegistry::new(vec![
        descriptor("connection_lost", &["reason", "server"]),
        descriptor("app_opened", &[]),
    ])
}

#[test]
fn reason_then_bogus_key() {
    let mut reg = registry_with_reason();
    glean_event_record(&mut reg, 1, &extras(&[("reason", "ok")]));
    assert!(!glean_event_test_get_error(&reg, 1));
    assert!(reg.event_test_get_error(1).is_none());

    glean_event_record(&mut reg, 1, &extras(&[("bogus", "x")]));
    assert!(glean_event_test_get_error(&reg, 1));
    assert!(matches!(
        reg.event_test_get_error(1),
        Some(EventRecordingError::InvalidExtraKey)
    ));
}

#[test]
fn valid_record_is_committed_without_error() {
    let mut reg = two_events();
    let r = reg.record_event_by_id(1, &extras(&[("server", "de-1"), ("reason", "timeout")]));
    assert!(r.is_ok());
    assert!(!glean_event_test_get_error(&reg, 1));
    let log = reg.recorded_events();
    assert_eq!(log.len(), 1);
    assert_eq!(log[0].id, 1);
    assert_eq!(
        log[0].extra,
        extras(&[("server", "de-1"), ("reason", "timeout")])
    );
}

#[test]
fn empty_extras_are_valid_for_an_event_without_keys() {
    let mut reg = two_events();
    assert!(reg.record_event_by_id(2, &Vec::new()).is_ok());
    assert!(!glean_event_test_get_error(&reg, 2));
    assert_eq!(reg.recorded_events().len(), 1);
    assert_eq!(reg.recorded_events()[0].id, 2);
    assert!(reg.recorded_events()[0].extra.is_empty());
}

#[test]
fn any_key_is_invalid_for_an_event_without_keys() {
    let mut reg = two_events();
    let r = reg.record_event_by_id(2, &extras(&[("reason", "x")]));
    assert!(matches!(r, Err(EventRecordingError::InvalidExtraKey)));
    assert!(glean_event_test_get_error(&reg, 2));
}

#[test]
fn invalid_key_discards_the_recording() {
    let mut reg = two_events();
    let r = reg.record_event_by_id(1, &extras(&[("reason", "ok"), ("bogus", "x")]));
    assert!(matches!(r, Err(EventRecordingError::InvalidExtraKey)));
    assert!(glean_event_test_get_error(&reg, 1));
    assert!(reg.recorded_events().is_empty());
}

#[test]
fn key_matching_is_exact() {
    let mut reg = registry_with_reason();
    let r = reg.record_event_by_id(1, &extras(&[("Reason", "ok")]));
    assert!(matches!(r, Err(EventRecordingError::InvalidExtraKey)));
    let r = reg.record_event_by_id(1, &extras(&[("reaso", "ok")]));
    assert!(matches!(r, Err(EventRecordingError::InvalidExtraKey)));
}

#[test]
fn unknown_ids_are_rejected_and_change_nothing() {
    let mut reg = two_events();
    for id in [0u32, 3, 4, u32::MAX] {
        let r = reg.record_event_by_id(id, &extras(&[("bogus", "x")]));
        assert!(matches!(r, Err(EventRecordingError::InvalidId)));
        assert!(!glean_event_test_get_error(&reg, id));
    }
    assert!(reg.recorded_events().is_empty());
    assert!(!glean_event_test_get_error(&reg, 1));
    assert!(!glean_event_test_get_error(&reg, 2));
}

#[test]
fn query_twice_gives_the_same_answer() {
    let mut reg = two_events();
    glean_event_record(&mut reg, 1, &extras(&[("bogus", "x")]));
    let first = glean_event_test_get_error(&reg, 1);
    let second = glean_event_test_get_error(&reg, 1);
    assert_eq!(first, second);
    assert!(first);
    let a = glean_event_test_get_error(&reg, 2);
    let b = glean_event_test_get_error(&reg, 2);
    assert_eq!(a, b);
    assert!(!a);
}

#[test]
fn never_recorded_events_report_no_error() {
    let mut reg = two_events();
    assert!(!glean_event_test_get_error(&reg, 1));
    assert!(!glean_event_test_get_error(&reg, 2));
    assert!(!glean_event_test_get_error(&reg, 7));
    glean_event_record(&mut reg, 1, &extras(&[("bogus", "x")]));
    assert!(!glean_event_test_get_error(&reg, 2));
}

#[test]
fn latest_attempt_decides_the_slot() {
    let mut reg = registry_with_reason();
    glean_event_record(&mut reg, 1, &extras(&[("bogus", "x")]));
    assert!(glean_event_test_get_error(&reg, 1));
    glean_event_record(&mut reg, 1, &extras(&[("reason", "ok")]));
    assert!(!glean_event_test_get_error(&reg, 1));
    assert_eq!(reg.recorded_events().len(), 1);
}

#[test]
fn ids_are_assigned_densely_from_one() {
    let reg = two_events();
    assert_eq!(reg.descriptor_count(), 2);
    let empty = EventRegistry::new(Vec::new());
    assert_eq!(empty.descriptor_count(), 0);
    assert!(!glean_event_test_get_error(&empty, 1));
}

#[test]
fn known_ids_run_from_one_to_the_count() {
    let reg = two_events();
    assert!(!reg.knows_id(0));
    assert!(reg.knows_id(1));
    assert!(reg.knows_id(2));
    assert!(!reg.knows_id(3));
}
