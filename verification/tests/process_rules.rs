use wthiromc::rules::process_rules::{
    autostart_enabled, high_cpu_unknown, known_safe_publisher, network_no_publisher, recent_file,
    runs_from_temp_or_downloads, unknown_publisher, unsigned_binary,
};
use wthiromc::types::{ProcessFacts, RunLocation};

fn base_facts() -> ProcessFacts {
    ProcessFacts {
        pid: 1234,
        name: "test.exe".to_string(),
        exe_path: "C:\\Windows\\System32\\test.exe".to_string(),
        publisher: Some("Microsoft Corporation".to_string()),
        is_signed: true,
        signature_detail: None,
        file_age_days: Some(400),
        // 1.0 percent, below the 40 percent threshold
        high_cpu: false,
        memory_bytes: 1024,
        has_network_activity: false,
        is_autostart: false,
        run_location: RunLocation::System32,
    }
}

#[test]
fn clean_signed_process_triggers_no_bad_rules() {
    let facts = base_facts();
    assert!(unsigned_binary(&facts).is_none());
    assert!(unknown_publisher(&facts).is_none());
    assert!(recent_file(&facts).is_none());
    assert!(runs_from_temp_or_downloads(&facts).is_none());
    assert!(autostart_enabled(&facts).is_none());
}

#[test]
fn known_safe_publisher_gives_negative_weight() {
    let facts = base_facts();
    let result = known_safe_publisher(&facts).expect("should hit");
    assert_eq!(result.weight, -40);
}

#[test]
fn suspicious_pattern_stacks_multiple_rules() {
    let mut facts = base_facts();
    facts.publisher = None;
    facts.is_signed = false;
    facts.file_age_days = Some(0);
    facts.run_location = RunLocation::Downloads;
    facts.is_autostart = true;
    facts.has_network_activity = true;

    assert!(unsigned_binary(&facts).is_some());
    assert!(unknown_publisher(&facts).is_some());
    assert!(recent_file(&facts).is_some());
    assert!(runs_from_temp_or_downloads(&facts).is_some());
    assert!(autostart_enabled(&facts).is_some());
    assert!(network_no_publisher(&facts).is_some());
}

#[test]
fn old_file_does_not_trigger_recent_file_rule() {
    let facts = base_facts();
    assert!(recent_file(&facts).is_none());
}

#[test]
fn location_rule_names_the_folder() {
    let mut facts = base_facts();
    facts.run_location = RunLocation::Temp;
    let h = runs_from_temp_or_downloads(&facts).unwrap();
    assert_eq!((h.rule_id, h.weight), ("runs_from_temp_or_downloads", 20));
    assert_eq!(h.context, vec![("location".to_string(), "Temp".to_string())]);
    facts.run_location = RunLocation::Downloads;
    let h = runs_from_temp_or_downloads(&facts).unwrap();
    assert_eq!(h.context, vec![("location".to_string(), "Downloads".to_string())]);
    for loc in [RunLocation::System32, RunLocation::ProgramFiles, RunLocation::AppData, RunLocation::Other] {
        facts.run_location = loc;
        assert!(runs_from_temp_or_downloads(&facts).is_none());
    }
}

#[test]
fn compound_rules_need_both_conditions() {
    let mut facts = base_facts();
    facts.has_network_activity = true;
    facts.high_cpu = true;
    assert!(network_no_publisher(&facts).is_none());
    assert!(high_cpu_unknown(&facts).is_none());
    facts.publisher = None;
    let h = network_no_publisher(&facts).unwrap();
    assert_eq!((h.rule_id, h.weight), ("network_no_publisher", 25));
    let h = high_cpu_unknown(&facts).unwrap();
    assert_eq!((h.rule_id, h.weight), ("high_cpu_unknown", 10));
    facts.has_network_activity = false;
    facts.high_cpu = false;
    assert!(network_no_publisher(&facts).is_none());
    assert!(high_cpu_unknown(&facts).is_none());
}
