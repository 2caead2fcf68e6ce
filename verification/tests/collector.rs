use wthiromc::history::SessionBaseline;
use wthiromc::collector::persistence::{
    extract_exe_path, facts_from_checks, parse_schtasks_output, shortcut_command,
    startup_file_kind, StartupFileKind,
};
use wthiromc::collector::processes::{classify_lowercase_path, classify_run_location, days_from_secs};
use wthiromc::collector::signature::{check_signature, SignatureCache, SignatureCheck, SignatureInfo};
use wthiromc::text::{chars_of, decimal_of, string_of, trim_chars};
use wthiromc::types::{PersistenceType, RunLocation};

#[test]
fn exe_path_from_quoted_and_plain_commands() {
    assert_eq!(extract_exe_path("\"C:\\Program Files\\App\\app.exe\" --silent"), "C:\\Program Files\\App\\app.exe");
    assert_eq!(extract_exe_path("  C:\\tools\\x.exe /run now "), "C:\\tools\\x.exe");
    assert_eq!(extract_exe_path("\"C:\\no end quote.exe"), "\"C:\\no");
    assert_eq!(extract_exe_path("\"\""), "");
    assert_eq!(extract_exe_path("   "), "");
    assert_eq!(extract_exe_path("a\u{3000}b"), "a");
    assert_eq!(extract_exe_path("\tC:\\y.exe\r\n"), "C:\\y.exe");
}

#[test]
fn trimming_follows_unicode_white_space() {
    let t = trim_chars(&chars_of("\u{2003} x y \u{a0}\n"));
    assert_eq!(string_of(&t), "x y");
    let t = trim_chars(&chars_of("\u{200b}x"));
    assert_eq!(string_of(&t), "\u{200b}x");
}

#[test]
fn decimal_digits() {
    for n in [0i64, 7, 10, 2, -1, -10, 123456789, i64::MAX, i64::MIN] {
        assert_eq!(string_of(&decimal_of(n)), n.to_string());
    }
}

#[test]
fn schtasks_listing_reports_third_party_tasks() {
    let text = "Folder: \\\r\nHostName:      PC\r\nTaskName:      \\Updater\r\nTask To Run:   \"C:\\Updater\\u.exe\" /q\r\n\r\nTaskName:      \\Microsoft\\Windows\\Defrag\\ScheduledDefrag\r\nTask To Run:   %windir%\\system32\\defrag.exe\r\n\r\nTaskName:      \\Empty\r\nTask To Run:   N/A\r\nTaskName:      \\NoCommand\r\nTaskName:      \\Last\nTask To Run:   C:\\last.exe";
    let tasks = parse_schtasks_output(text);
    assert_eq!(
        tasks,
        vec![
            ("\\Updater".to_string(), "\"C:\\Updater\\u.exe\" /q".to_string()),
            ("\\Last".to_string(), "C:\\last.exe".to_string()),
        ]
    );
    assert!(parse_schtasks_output("").is_empty());
    assert!(parse_schtasks_output("Task To Run: x\n").is_empty());
}

#[test]
fn a_command_only_counts_for_its_own_task() {
    // The command of the first task is dropped when the next task starts.
    let tasks = parse_schtasks_output("TaskName: A\nTask To Run: a.exe\nTaskName: B\n");
    assert_eq!(tasks, vec![("A".to_string(), "a.exe".to_string())]);
    let tasks = parse_schtasks_output("TaskName: A\nTaskName: B\nTask To Run: b.exe");
    assert_eq!(tasks, vec![("B".to_string(), "b.exe".to_string())]);
}

#[test]
fn startup_folder_file_kinds() {
    assert_eq!(startup_file_kind(Some("ini")), StartupFileKind::Skip);
    assert_eq!(startup_file_kind(Some("INI")), StartupFileKind::Plain);
    assert_eq!(startup_file_kind(Some("lnk")), StartupFileKind::Shortcut);
    assert_eq!(startup_file_kind(Some("LnK")), StartupFileKind::Shortcut);
    assert_eq!(startup_file_kind(Some("exe")), StartupFileKind::Plain);
    assert_eq!(startup_file_kind(None), StartupFileKind::Plain);
    assert_eq!(shortcut_command("C:\\s\\a.lnk", "C:\\a.exe"), "C:\\s\\a.lnk -> C:\\a.exe");
}

#[test]
fn run_locations() {
    assert_eq!(classify_run_location("C:\\WINDOWS\\System32\\svchost.exe"), RunLocation::System32);
    assert_eq!(classify_run_location("C:\\Program Files (x86)\\x.exe"), RunLocation::ProgramFiles);
    assert_eq!(classify_run_location("C:\\Users\\me\\AppData\\Local\\Temp\\a.exe"), RunLocation::Temp);
    assert_eq!(classify_run_location("D:\\TEMP\\a.exe"), RunLocation::Temp);
    assert_eq!(classify_run_location("C:\\Users\\me\\Downloads\\a.exe"), RunLocation::Downloads);
    assert_eq!(classify_run_location("C:\\Users\\me\\AppData\\Roaming\\a.exe"), RunLocation::AppData);
    assert_eq!(classify_run_location("/usr/bin/a"), RunLocation::Other);
    assert_eq!(classify_run_location(""), RunLocation::Other);
    // Without lowercasing first, capitals are not matched.
    assert_eq!(classify_lowercase_path("C:\\Users\\me\\Downloads\\a.exe"), RunLocation::Other);
}

#[test]
fn file_age_in_days() {
    assert_eq!(days_from_secs(0), 0);
    assert_eq!(days_from_secs(86399), 0);
    assert_eq!(days_from_secs(86400), 1);
    assert_eq!(days_from_secs(3 * 86400 + 5), 3);
    assert_eq!(days_from_secs(u64::MAX), (u64::MAX as i64) / 86400);
    assert_eq!(days_from_secs(1u64 << 63), ((1u64 << 63) as i64) / 86400);
}

#[test]
fn signature_verdicts_and_cache() {
    let cache = SignatureCache::new();
    match check_signature(&cache, "") {
        SignatureCheck::Known(info) => {
            assert!(!info.is_signed);
            assert_eq!(info.detail.as_deref(), Some("no signature was found on the file"));
        }
        SignatureCheck::NeedsVerification => panic!("empty path needs no check"),
    }
    let mut cache = cache;
    assert!(matches!(check_signature(&cache, "C:\\a.exe"), SignatureCheck::NeedsVerification));
    cache.record("C:\\a.exe", SignatureInfo::signed_by(Some("Google LLC".to_string())));
    cache.record("C:\\b.exe", SignatureInfo::unsigned_verification_failed("Revoked".to_string()));
    match check_signature(&cache, "C:\\a.exe") {
        SignatureCheck::Known(info) => {
            assert!(info.is_signed);
            assert_eq!(info.publisher.as_deref(), Some("Google LLC"));
            assert!(info.detail.is_none());
        }
        SignatureCheck::NeedsVerification => panic!("recorded verdict expected"),
    }
    let b = cache.lookup("C:\\b.exe").unwrap();
    assert_eq!(b.detail.as_deref(), Some("signature verification failed (Revoked)"));
    cache.record("C:\\a.exe", SignatureInfo::unsigned_no_signature());
    assert!(!cache.lookup("C:\\a.exe").unwrap().is_signed);
    assert!(cache.lookup("C:\\c.exe").is_none());
}

#[test]
fn startup_facts_take_the_check_results() {
    let f = facts_from_checks(
        "App".to_string(),
        "C:\\app.exe -x".to_string(),
        PersistenceType::RegistryRun,
        SignatureInfo::unsigned_no_signature(),
        Some(4),
    );
    assert_eq!(f.name, "App");
    assert!(!f.is_signed);
    assert!(f.publisher.is_none());
    assert_eq!(f.signature_detail.as_deref(), Some("no signature was found on the file"));
    assert_eq!(f.file_age_days, Some(4));
}

#[test]
fn white_space_agrees_with_char_is_whitespace() {
    for n in 0..=0x10FFFFu32 {
        if let Some(c) = char::from_u32(n) {
            assert_eq!(wthiromc::text::is_whitespace(c), c.is_whitespace(), "U+{n:04X}");
        }
    }
}

#[test]
fn verdicts_are_well_formed() {
    assert!(SignatureInfo::unsigned_no_signature().is_well_formed());
    assert!(SignatureInfo::unsigned_verification_failed("x".to_string()).is_well_formed());
    assert!(SignatureInfo::signed_by(None).is_well_formed());
    let odd = SignatureInfo { is_signed: false, publisher: Some("P".to_string()), detail: None };
    assert!(!odd.is_well_formed());
    let odd = SignatureInfo { is_signed: true, publisher: None, detail: Some("d".to_string()) };
    assert!(!odd.is_well_formed());
}

#[test]
fn session_baseline_is_frozen() {
    let baseline = SessionBaseline::new(vec!["a".to_string()]);
    let items = vec![("b".to_string(), "B".to_string())];
    assert_eq!(baseline.new_identifiers(&items), vec!["b".to_string()]);
    // Checking again in the same session gives the same answer.
    assert_eq!(baseline.new_identifiers(&items), vec!["b".to_string()]);
    assert!(SessionBaseline::new(Vec::new()).new_identifiers(&items).is_empty());
}
