use wthiromc::explain::{explain, explain_persistence};
use wthiromc::rules::{
    all_persistence_rules, all_rules, evaluate, evaluate_persistence, PersistenceRule, Rule,
};
use wthiromc::scan::{
    assess_processes, assess_startup_items, flag_new_processes, flag_new_startup_items,
    process_seen_items, startup_seen_items,
};
use wthiromc::types::{PersistenceFacts, PersistenceType, ProcessFacts, RiskLevel, RunLocation};

fn process(publisher: Option<&str>, signed: bool) -> ProcessFacts {
    ProcessFacts {
        pid: 1,
        name: "p.exe".to_string(),
        exe_path: "C:\\p.exe".to_string(),
        publisher: publisher.map(|p| p.to_string()),
        is_signed: signed,
        signature_detail: None,
        file_age_days: Some(100),
        high_cpu: false,
        memory_bytes: 1,
        has_network_activity: false,
        is_autostart: false,
        run_location: RunLocation::Other,
    }
}

fn startup(source: PersistenceType, publisher: Option<&str>, signed: bool, age: Option<i64>) -> PersistenceFacts {
    PersistenceFacts {
        name: "entry".to_string(),
        command: "C:\\e.exe".to_string(),
        source,
        publisher: publisher.map(|p| p.to_string()),
        is_signed: signed,
        signature_detail: None,
        file_age_days: age,
    }
}

#[test]
fn levels_follow_the_documented_thresholds() {
    let cases = [
        (i32::MIN, RiskLevel::Green),
        (0, RiskLevel::Green),
        (9, RiskLevel::Green),
        (10, RiskLevel::Yellow),
        (29, RiskLevel::Yellow),
        (30, RiskLevel::Orange),
        (49, RiskLevel::Orange),
        (50, RiskLevel::Red),
        (74, RiskLevel::Red),
        (75, RiskLevel::Black),
        (i32::MAX, RiskLevel::Black),
    ];
    for (score, level) in cases {
        assert_eq!(RiskLevel::from_score(score), level);
    }
    assert!(RiskLevel::Green < RiskLevel::Yellow && RiskLevel::Red < RiskLevel::Black);
}

#[test]
fn registries_list_every_rule_in_order() {
    assert_eq!(
        all_rules(),
        vec![
            Rule::UnsignedBinary,
            Rule::UnknownPublisher,
            Rule::RecentFile,
            Rule::RunsFromTempOrDownloads,
            Rule::AutostartEnabled,
            Rule::NetworkNoPublisher,
            Rule::HighCpuUnknown,
            Rule::KnownSafePublisher,
        ]
    );
    assert_eq!(all_persistence_rules().len(), 5);
    assert_eq!(all_persistence_rules()[4], PersistenceRule::PersistenceViaScheduledTask);
}

#[test]
fn score_is_the_sum_of_weights_never_below_zero() {
    // Signed and trusted: only the -40 rule hits, and the score stays at 0.
    let r = evaluate(&process(Some("Microsoft Corporation"), true));
    assert_eq!(r.score, 0);
    assert_eq!(r.level, RiskLevel::Green);
    assert_eq!(r.hits.len(), 1);
    assert_eq!(r.hits[0].weight, -40);

    // Unsigned, no publisher: 15 + 10.
    let r = evaluate(&process(None, false));
    assert_eq!(r.score, 25);
    assert_eq!(r.level, RiskLevel::Yellow);
    let ids: Vec<&str> = r.hits.iter().map(|h| h.rule_id).collect();
    assert_eq!(ids, vec!["unsigned_binary", "unknown_publisher"]);

    // Everything at once: 15 + 10 + 15 + 20 + 15 + 25 + 10 = 110.
    let mut f = process(None, false);
    f.file_age_days = Some(1);
    f.run_location = RunLocation::Temp;
    f.is_autostart = true;
    f.has_network_activity = true;
    f.high_cpu = true;
    let r = evaluate(&f);
    assert_eq!(r.score, 110);
    assert_eq!(r.level, RiskLevel::Black);
    assert_eq!(r.hits.len(), 7);

    // A trusted but unsigned publisher: 15 - 40 is below zero.
    let r = evaluate(&process(Some("Google LLC"), false));
    assert_eq!(r.score, 0);
    assert_eq!(r.hits.len(), 2);
}

#[test]
fn persistence_scores() {
    let r = evaluate_persistence(&startup(PersistenceType::ScheduledTask, None, false, Some(400)));
    assert_eq!(r.score, 45);
    assert_eq!(r.level, RiskLevel::Orange);
    let r = evaluate_persistence(&startup(PersistenceType::ScheduledTask, None, false, Some(0)));
    assert_eq!(r.score, 60);
    assert_eq!(r.level, RiskLevel::Red);
    let r = evaluate_persistence(&startup(PersistenceType::RegistryRun, Some("Mozilla Corporation"), true, Some(0)));
    assert_eq!(r.score, 0);
    assert_eq!(r.hits.len(), 2);
}

#[test]
fn process_summaries_for_each_level() {
    let e = explain(&process(None, false), &evaluate(&process(None, false)));
    assert_eq!(e.summary, "A few things about this program are worth a second look, but nothing alarming yet.");
    assert_eq!(e.explanations.len(), 2);

    let mut f = process(None, false);
    f.is_autostart = true;
    let e = explain(&f, &evaluate(&f));
    assert_eq!(e.score, 40);
    assert_eq!(e.summary, "This program shows a combination of traits that's worth investigating.");

    let mut f = process(None, false);
    f.has_network_activity = true;
    f.is_autostart = true;
    let e = explain(&f, &evaluate(&f));
    assert_eq!(e.risk_level, RiskLevel::Red);
    assert_eq!(e.summary, "This program is sending data to the internet with no way to verify who's receiving it.");

    let mut f = process(None, false);
    f.run_location = RunLocation::Downloads;
    f.high_cpu = true;
    let e = explain(&f, &evaluate(&f));
    assert_eq!(e.score, 55);
    assert_eq!(e.summary, "This program shows several strong signs of suspicious behavior and deserves a closer look.");

    let mut f = process(None, false);
    f.file_age_days = Some(0);
    f.is_autostart = true;
    f.has_network_activity = true;
    let e = explain(&f, &evaluate(&f));
    assert_eq!(e.summary, "This program is unsigned, was installed very recently, and is set to run automatically \u{2014} a pattern often seen in malware.");
    assert_eq!(e.explanations[2], "This program appeared on your system 0 day(s) ago.");
    assert_eq!((e.pid, e.name.as_str(), e.exe_path.as_str(), e.memory_bytes), (1, "p.exe", "C:\\p.exe", 1));
    assert!(!e.user_marked_safe && !e.is_new);
}

#[test]
fn safe_publisher_is_never_shown_as_a_warning() {
    let f = process(Some("Discord Inc."), false);
    let e = explain(&f, &evaluate(&f));
    assert_eq!(e.explanations, vec!["This program is not digitally signed, so there's no way to verify who made it.".to_string()]);
    assert_eq!(e.summary, "This looks like normal, expected behavior.");
}

#[test]
fn persistence_summaries_for_each_level() {
    let f = startup(PersistenceType::RegistryRun, Some("Microsoft Corporation"), true, Some(400));
    let e = explain_persistence(&f, &evaluate_persistence(&f));
    assert_eq!(e.summary, "This looks like a normal startup entry.");
    assert!(e.explanations.is_empty());

    let f = startup(PersistenceType::RegistryRun, Some("Unknown Ltd"), false, Some(400));
    let e = explain_persistence(&f, &evaluate_persistence(&f));
    assert_eq!(e.summary, "A few things about this startup entry are worth a second look.");

    let f = startup(PersistenceType::RegistryRun, None, false, Some(400));
    let e = explain_persistence(&f, &evaluate_persistence(&f));
    assert_eq!(e.score, 25);

    let f = startup(PersistenceType::ScheduledTask, None, false, Some(400));
    let e = explain_persistence(&f, &evaluate_persistence(&f));
    assert_eq!(e.summary, "This startup entry shows a combination of traits that's worth investigating.");

    let f = startup(PersistenceType::ScheduledTask, None, false, Some(1));
    let e = explain_persistence(&f, &evaluate_persistence(&f));
    assert_eq!(e.summary, "This program uses a scheduled task to run automatically and isn't signed by a known publisher \u{2014} a technique sometimes used to survive reboots without showing up in the usual startup list.");
    assert_eq!(e.explanations.len(), 4);
    assert_eq!(e.source, PersistenceType::ScheduledTask);
    assert_eq!(e.command, "C:\\e.exe");
}

#[test]
fn scan_pipeline_scores_records_and_flags() {
    let facts = vec![process(None, false), process(Some("Microsoft Corporation"), true)];
    let explained = assess_processes(&facts);
    assert_eq!(explained.len(), 2);
    assert_eq!(explained[0].score, 25);
    assert_eq!(explained[1].score, 0);
    let seen = process_seen_items(&explained);
    assert_eq!(seen[0], ("C:\\p.exe".to_string(), "p.exe".to_string()));
    let flagged = flag_new_processes(explained, &vec!["C:\\p.exe".to_string()]);
    assert!(flagged[0].is_new && flagged[1].is_new);
    let flagged = flag_new_processes(flagged, &Vec::new());
    assert!(!flagged[0].is_new);

    let facts = vec![startup(PersistenceType::StartupFolder, None, false, None)];
    let explained = assess_startup_items(&facts);
    assert_eq!(explained[0].score, 25);
    let seen = startup_seen_items(&explained);
    assert_eq!(seen[0], ("StartupFolder:entry".to_string(), "entry".to_string()));
    let flagged = flag_new_startup_items(explained, &vec!["StartupFolder:entry".to_string()]);
    assert!(flagged[0].is_new);
}

#[test]
fn losing_a_signature_never_lowers_the_score() {
    for source in [PersistenceType::RegistryRun, PersistenceType::StartupFolder, PersistenceType::ScheduledTask] {
        for publisher in [None, Some("Google LLC"), Some("Other")] {
            for age in [None, Some(0), Some(5)] {
                let signed = evaluate_persistence(&startup(source, publisher, true, age));
                let unsigned = evaluate_persistence(&startup(source, publisher, false, age));
                assert!(unsigned.score >= signed.score);
                assert!(unsigned.level >= signed.level);
            }
        }
    }
    let signed = evaluate(&process(Some("Microsoft Corporation"), true));
    let unsigned = evaluate(&process(Some("Microsoft Corporation"), false));
    assert!(unsigned.score >= signed.score && unsigned.level >= signed.level);
}
