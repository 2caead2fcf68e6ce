use wthiromc::rules::persistence_rules::{
    known_safe_publisher, persistence_via_scheduled_task, recent_file, unknown_publisher,
    unsigned_binary,
};
use wthiromc::types::{PersistenceFacts, PersistenceType};

fn base_facts() -> PersistenceFacts {
    PersistenceFacts {
        name: "OneDrive".to_string(),
        command: "C:\\Program Files\\Microsoft OneDrive\\OneDrive.exe".to_string(),
        source: PersistenceType::RegistryRun,
        publisher: Some("Microsoft Corporation".to_string()),
        is_signed: true,
        signature_detail: None,
        file_age_days: Some(400),
    }
}

#[test]
fn signed_known_publisher_startup_entry_is_clean() {
    let facts = base_facts();
    assert!(unsigned_binary(&facts).is_none());
    assert!(unknown_publisher(&facts).is_none());
    assert!(known_safe_publisher(&facts).is_some());
}

#[test]
fn scheduled_task_rule_only_fires_for_scheduled_tasks() {
    let mut facts = base_facts();
    facts.is_signed = false;
    facts.source = PersistenceType::RegistryRun;
    assert!(persistence_via_scheduled_task(&facts).is_none());

    facts.source = PersistenceType::ScheduledTask;
    assert!(persistence_via_scheduled_task(&facts).is_some());
}

#[test]
fn signed_scheduled_task_does_not_trigger_task_rule() {
    let mut facts = base_facts();
    facts.source = PersistenceType::ScheduledTask;
    facts.is_signed = true;
    assert!(persistence_via_scheduled_task(&facts).is_none());
}

#[test]
fn persistence_rule_weights_and_ids() {
    let mut facts = base_facts();
    facts.is_signed = false;
    facts.publisher = None;
    facts.source = PersistenceType::ScheduledTask;
    facts.file_age_days = Some(1);

    let h = unsigned_binary(&facts).unwrap();
    assert_eq!((h.rule_id, h.weight), ("unsigned_binary", 15));
    assert!(h.context.is_empty());
    let h = unknown_publisher(&facts).unwrap();
    assert_eq!((h.rule_id, h.weight), ("unknown_publisher", 10));
    let h = recent_file(&facts).unwrap();
    assert_eq!((h.rule_id, h.weight), ("recent_file", 15));
    assert_eq!(h.context, vec![("days_old".to_string(), "1".to_string())]);
    let h = persistence_via_scheduled_task(&facts).unwrap();
    assert_eq!((h.rule_id, h.weight), ("persistence_via_scheduled_task", 20));
    assert!(known_safe_publisher(&facts).is_none());
}

#[test]
fn recent_file_boundary_and_negative_age() {
    let mut facts = base_facts();
    facts.file_age_days = Some(2);
    assert!(recent_file(&facts).is_none());
    facts.file_age_days = Some(0);
    assert!(recent_file(&facts).is_some());
    facts.file_age_days = None;
    assert!(recent_file(&facts).is_none());
    facts.file_age_days = Some(-12);
    let h = recent_file(&facts).unwrap();
    assert_eq!(h.context, vec![("days_old".to_string(), "-12".to_string())]);
    facts.file_age_days = Some(i64::MIN);
    let h = recent_file(&facts).unwrap();
    assert_eq!(h.context[0].1, i64::MIN.to_string());
}

#[test]
fn every_trusted_publisher_is_recognised_exactly() {
    let mut facts = base_facts();
    for p in ["Microsoft Corporation", "Google LLC", "Discord Inc.", "Mozilla Corporation"] {
        facts.publisher = Some(p.to_string());
        let h = known_safe_publisher(&facts).unwrap();
        assert_eq!((h.rule_id, h.weight), ("known_safe_publisher", -40));
    }
    for p in ["microsoft corporation", "Google", "Discord Inc", ""] {
        facts.publisher = Some(p.to_string());
        assert!(known_safe_publisher(&facts).is_none());
    }
}
