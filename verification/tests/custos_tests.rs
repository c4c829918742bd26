use custos::config::{get, Config, ConfigCell};
use custos::coordinator::{Action, ReadOutcome, ScanCoordinator};
use custos::db::database::{decimal_string, ConnectionOptions};
use custos::db::file_repository::File;
use custos::reports::terminal_reporter::TerminalReporter;
use custos::reports::{ReportManager, Reporter};
use custos::strategies::hash_strategy::{is_valid_stored_hash, status_for_digest};
use custos::strategies::{FileStatus, SHA256FileScanStrategy, ScanStrategy, StrategyResult};
use custos::work::partition_paths;

const ABC_DIGEST: &str = "ba7816bf8f01cfea414140de5dae2223b00361a396177a9cb410ff61f20015ad";
const EMPTY_DIGEST: &str = "e3b0c44298fc1c149afbf4c8996fb92427ae41e4649b934ca495991b7852b855";

fn record(path: &str, hash: &str) -> File {
    File { filepath: path.to_string(), hash: hash.to_string() }
}

fn result(strategy: &str, status: FileStatus) -> StrategyResult {
    StrategyResult { strategy: strategy.to_string(), result: status }
}

#[test]
fn calculate_hash_of_abc() {
    let s = SHA256FileScanStrategy::new();
    let h = s.calculate_hash(b"abc");
    assert_eq!(h.len(), 32);
    assert_eq!(h[0], 0xba);
    assert_eq!(h[31], 0xad);
}

#[test]
fn update_stores_lower_case_hex_of_digest() {
    let s = SHA256FileScanStrategy::new();
    assert_eq!(s.update("/etc/a", b"abc"), record("/etc/a", ABC_DIGEST));
    assert_eq!(s.update("/etc/b", b""), record("/etc/b", EMPTY_DIGEST));
}

#[test]
fn process_without_record_reports_new_file() {
    let s = SHA256FileScanStrategy::new();
    assert_eq!(s.process("/etc/a", b"abc", &None), FileStatus::NewFile("/etc/a".to_string()));
}

#[test]
fn process_after_update_with_same_contents_is_ok() {
    let s = SHA256FileScanStrategy::new();
    let stored = Some(s.update("/etc/a", b"hello"));
    assert_eq!(s.process("/etc/a", b"hello", &stored), FileStatus::OK("/etc/a".to_string()));
}

#[test]
fn process_after_update_with_other_contents_is_changed() {
    let s = SHA256FileScanStrategy::new();
    let stored = Some(s.update("/etc/a", b"hello"));
    assert_eq!(
        s.process("/etc/a", b"hello!", &stored),
        FileStatus::FileChanged("/etc/a".to_string())
    );
}

#[test]
fn process_accepts_upper_case_stored_hash() {
    let s = SHA256FileScanStrategy::new();
    let stored = Some(record("/x", &ABC_DIGEST.to_uppercase()));
    assert_eq!(s.process("/x", b"abc", &stored), FileStatus::OK("/x".to_string()));
}

#[test]
fn status_reports_the_stored_path() {
    let digest = [0x01u8, 0xab];
    assert_eq!(
        status_for_digest("/p", &digest, &Some(record("/stored", "01ab"))),
        FileStatus::OK("/stored".to_string())
    );
    assert_eq!(
        status_for_digest("/p", &digest, &Some(record("/stored", "01ac"))),
        FileStatus::FileChanged("/stored".to_string())
    );
    assert_eq!(
        status_for_digest("/p", &digest, &Some(record("/stored", ""))),
        FileStatus::FileChanged("/stored".to_string())
    );
    assert_eq!(status_for_digest("/p", &digest, &None), FileStatus::NewFile("/p".to_string()));
}

#[test]
fn stored_hash_validity() {
    assert!(is_valid_stored_hash(""));
    assert!(is_valid_stored_hash("0aFf"));
    assert!(is_valid_stored_hash(ABC_DIGEST));
    assert!(!is_valid_stored_hash("abc"));
    assert!(!is_valid_stored_hash("zz"));
    assert!(!is_valid_stored_hash("0g"));
}

#[test]
fn hash_strategy_name() {
    assert_eq!(SHA256FileScanStrategy::new().get_name(), "SHA256FileScanStrategy");
}

#[test]
fn coordinator_skips_directories() {
    let c = ScanCoordinator::new(false, vec!["/d".to_string()], 3);
    assert_eq!(c.id, 3);
    assert!(c.process_entry("/d", ReadOutcome::Directory, None).is_empty());
}

#[test]
fn coordinator_reports_read_failure_once() {
    let mut c = ScanCoordinator::new(false, vec![], 0);
    c.add_scan_strategy(SHA256FileScanStrategy::new());
    let actions = c.process_entry("/f", ReadOutcome::Failed("denied".to_string()), None);
    assert_eq!(actions.len(), 1);
    match &actions[0] {
        Action::Report(r) => assert_eq!(
            *r,
            result("Coordinator", FileStatus::ReadFailed("/f".to_string(), "denied".to_string()))
        ),
        Action::Store(_) => panic!("a failed read stores nothing"),
    }
}

#[test]
fn coordinator_scan_reports_once_per_strategy() {
    let mut c = ScanCoordinator::new(false, vec![], 0);
    c.add_scan_strategy(SHA256FileScanStrategy::new());
    let stored = Some(record("/f", ABC_DIGEST));
    let actions = c.process_entry("/f", ReadOutcome::Contents(b"abc".to_vec()), stored);
    assert_eq!(actions.len(), 2);
    for a in &actions {
        match a {
            Action::Report(r) => {
                assert_eq!(*r, result("SHA256FileScanStrategy", FileStatus::OK("/f".to_string())))
            }
            Action::Store(_) => panic!("a scan stores nothing"),
        }
    }
}

#[test]
fn coordinator_update_stores_records() {
    let c = ScanCoordinator::new(true, vec![], 0);
    let actions = c.process_entry("/f", ReadOutcome::Contents(b"abc".to_vec()), None);
    assert_eq!(actions.len(), 1);
    match &actions[0] {
        Action::Store(f) => assert_eq!(*f, record("/f", ABC_DIGEST)),
        Action::Report(_) => panic!("an update reports nothing"),
    }
}

#[test]
fn terminal_lines_for_each_status() {
    let loud = TerminalReporter::new(false);
    assert_eq!(loud.report(&result("S", FileStatus::OK("/a".to_string()))), None);
    assert_eq!(
        loud.report(&result("S", FileStatus::NewFile("/a".to_string()))),
        Some("S: found new file: /a".to_string())
    );
    assert_eq!(
        loud.report(&result("S", FileStatus::FileChanged("/a".to_string()))),
        Some("S: file was changed: /a".to_string())
    );
    assert_eq!(
        loud.report(&result("S", FileStatus::MaliciousFile("/a".to_string()))),
        Some("S: malicious file found: /a".to_string())
    );
    assert_eq!(
        loud.report(&result("S", FileStatus::ReadFailed("/a".to_string(), "gone".to_string()))),
        Some("/a: failed to read file: gone".to_string())
    );
}

#[test]
fn quiet_terminal_hides_only_read_failures() {
    let quiet = TerminalReporter::new(true);
    assert_eq!(
        quiet.report(&result("S", FileStatus::ReadFailed("/a".to_string(), "gone".to_string()))),
        None
    );
    assert_eq!(
        quiet.report(&result("S", FileStatus::NewFile("/a".to_string()))),
        Some("S: found new file: /a".to_string())
    );
}

#[test]
fn manager_collects_lines_in_reporter_order() {
    let mut m = ReportManager::new();
    assert!(m.process_result(&result("S", FileStatus::NewFile("/a".to_string()))).is_empty());
    m.add_reporter(TerminalReporter::new(false));
    m.add_reporter(TerminalReporter::new(true));
    let failed = result("C", FileStatus::ReadFailed("/a".to_string(), "e".to_string()));
    assert_eq!(m.process_result(&failed), vec!["/a: failed to read file: e".to_string()]);
    let changed = result("S", FileStatus::FileChanged("/b".to_string()));
    assert_eq!(
        m.process_result(&changed),
        vec!["S: file was changed: /b".to_string(), "S: file was changed: /b".to_string()]
    );
}

#[test]
fn connection_statements() {
    let standard = ConnectionOptions { enable_wal: true, busy_timeout: Some(5000) };
    assert_eq!(
        standard.on_acquire(),
        vec![
            "PRAGMA journal_mode = WAL; PRAGMA synchronous = NORMAL;".to_string(),
            "PRAGMA busy_timeout = 5000".to_string(),
        ]
    );
    let none = ConnectionOptions { enable_wal: false, busy_timeout: None };
    assert!(none.on_acquire().is_empty());
    let zero = ConnectionOptions { enable_wal: false, busy_timeout: Some(0) };
    assert_eq!(zero.on_acquire(), vec!["PRAGMA busy_timeout = 0".to_string()]);
}

#[test]
fn decimal_text() {
    assert_eq!(decimal_string(0), "0");
    assert_eq!(decimal_string(7), "7");
    assert_eq!(decimal_string(10), "10");
    assert_eq!(decimal_string(1234567890123), "1234567890123");
    assert_eq!(decimal_string(u128::MAX), u128::MAX.to_string());
}

fn paths(n: usize) -> Vec<String> {
    (0..n).map(|i| format!("/f{}", i)).collect()
}

#[test]
fn partition_keeps_order_and_puts_the_rest_last() {
    let entries = paths(10);
    let chunks = partition_paths(&entries, 3);
    let sizes: Vec<usize> = chunks.iter().map(|c| c.len()).collect();
    assert_eq!(sizes, vec![3, 3, 3, 1]);
    assert_eq!(chunks.concat(), entries);
}

#[test]
fn partition_even_split() {
    let entries = paths(6);
    let chunks = partition_paths(&entries, 2);
    assert_eq!(chunks, vec![paths(3), vec!["/f3".to_string(), "/f4".to_string(), "/f5".to_string()]]);
    let singles = partition_paths(&paths(4), 4);
    assert_eq!(singles.len(), 4);
}

fn sample_config(n: usize) -> Config {
    Config {
        thread_count: n,
        database_location: "custos.db".to_string(),
        scan_directories: vec!["/etc/*".to_string()],
    }
}

#[test]
fn config_is_loaded_once() {
    let mut cell = ConfigCell::new();
    assert_eq!(get(&mut cell, || sample_config(4)).thread_count, 4);
    let again = get(&mut cell, || -> Config { panic!("loaded twice") });
    assert_eq!(again.thread_count, 4);
    assert_eq!(again.database_location, "custos.db");
    assert_eq!(again.scan_directories, vec!["/etc/*".to_string()]);
}

#[test]
fn coordinator_update_then_scan_reports_unchanged() {
    let updater = ScanCoordinator::new(true, vec![], 0);
    let scanner = ScanCoordinator::new(false, vec![], 1);
    let contents = b"#!/bin/sh\necho hi\n".to_vec();
    let stored = match updater.process_entry("/bin/x", ReadOutcome::Contents(contents.clone()), None).pop() {
        Some(Action::Store(f)) => f,
        _ => panic!("an update stores one record"),
    };
    let actions = scanner.process_entry("/bin/x", ReadOutcome::Contents(contents), Some(stored.clone()));
    match &actions[0] {
        Action::Report(r) => assert_eq!(r.result, FileStatus::OK("/bin/x".to_string())),
        Action::Store(_) => panic!("a scan stores nothing"),
    }
    let changed = scanner.process_entry("/bin/x", ReadOutcome::Contents(b"other".to_vec()), Some(stored));
    match &changed[0] {
        Action::Report(r) => assert_eq!(r.result, FileStatus::FileChanged("/bin/x".to_string())),
        Action::Store(_) => panic!("a scan stores nothing"),
    }
}
