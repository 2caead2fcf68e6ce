use wthiromc::explain::templates::render;
use wthiromc::types::RuleHit;

#[test]
fn substitutes_context_placeholders() {
    let ctx = vec![("days_old".to_string(), "1".to_string())];
    let h = RuleHit { rule_id: "recent_file", weight: 15, context: ctx };
    assert_eq!(render(&h), "This program appeared on your system 1 day(s) ago.");
}

#[test]
fn unknown_rule_id_still_produces_readable_text() {
    let h = RuleHit { rule_id: "made_up_rule", weight: 5, context: Vec::new() };
    assert!(render(&h).contains("made_up_rule"));
}

#[test]
fn unknown_rule_sentence_is_exact() {
    let h = RuleHit { rule_id: "made_up_rule", weight: 5, context: Vec::new() };
    assert_eq!(render(&h), "Flagged by rule: made_up_rule");
}

#[test]
fn every_template_renders() {
    let cases = [
        ("unsigned_binary", "This program is not digitally signed, so there's no way to verify who made it."),
        ("unknown_publisher", "This program doesn't identify a publisher."),
        ("autostart_enabled", "This program is set to start automatically every time you turn on your computer."),
        ("network_no_publisher", "This program is connecting to the internet, but it has no verified publisher \u{2014} there's no way to know who's receiving that data."),
        ("high_cpu_unknown", "This program is using a lot of your computer's processing power and has no verified publisher."),
        ("persistence_via_scheduled_task", "This program uses a scheduled task to launch automatically, and it isn't signed by a known publisher."),
    ];
    for (id, text) in cases {
        let h = RuleHit { rule_id: id, weight: 1, context: Vec::new() };
        assert_eq!(render(&h), text);
    }
    let h = RuleHit {
        rule_id: "runs_from_temp_or_downloads",
        weight: 20,
        context: vec![("location".to_string(), "Downloads".to_string())],
    };
    assert_eq!(
        render(&h),
        "This program is running from your Downloads folder, which is unusual for legitimate software."
    );
}

#[test]
fn placeholder_without_value_stays_and_unused_values_are_ignored() {
    let h = RuleHit { rule_id: "recent_file", weight: 15, context: Vec::new() };
    assert_eq!(render(&h), "This program appeared on your system {days_old} day(s) ago.");
    let h = RuleHit {
        rule_id: "recent_file",
        weight: 15,
        context: vec![("other".to_string(), "x".to_string()), ("days_old".to_string(), "0".to_string())],
    };
    assert_eq!(render(&h), "This program appeared on your system 0 day(s) ago.");
}
