use baam_injector::inventory::{
    folded_contains, name_matches, refresh_due, valid_snapshot, Inventory, InventoryError,
};
use baam_injector::process::{Architecture, ProcessRecord};

fn record(pid: u32, name: &str) -> ProcessRecord {
    ProcessRecord::partial(pid, name.to_string())
}

fn listing() -> Vec<ProcessRecord> {
    vec![
        record(4, "System"),
        record(812, "chrome.exe"),
        record(900, "Notepad.EXE"),
        record(1200, "CHROMEdriver"),
    ]
}

fn pids(records: &[&ProcessRecord]) -> Vec<u32> {
    records.iter().map(|r| r.pid).collect()
}

#[test]
fn partial_record_has_no_details() {
    let r = record(9, "svc");
    assert_eq!(r.pid, 9);
    assert_eq!(r.name, "svc");
    assert_eq!(r.architecture, Architecture::Unknown);
    assert!(r.executable_path.is_none());
    assert!(r.icon.is_none());
}

#[test]
fn clone_copies_every_field() {
    let mut r = record(9, "svc");
    r.architecture = Architecture::Bits64;
    r.executable_path = Some("C:\\svc.exe".to_string());
    r.icon = Some(vec![1, 2, 3]);
    let c = r.clone();
    assert_eq!(c.pid, 9);
    assert_eq!(c.name, "svc");
    assert_eq!(c.architecture, Architecture::Bits64);
    assert_eq!(c.executable_path, Some("C:\\svc.exe".to_string()));
    assert_eq!(c.icon, Some(vec![1, 2, 3]));
}

#[test]
fn empty_query_returns_everything() {
    let mut inv = Inventory::new();
    assert_eq!(inv.complete_refresh(listing()), Ok(()));
    assert_eq!(pids(&inv.filter("")), vec![4, 812, 900, 1200]);
}

#[test]
fn filter_ignores_case_and_keeps_order() {
    let mut inv = Inventory::new();
    inv.complete_refresh(listing()).unwrap();
    assert_eq!(pids(&inv.filter("chrome")), vec![812, 1200]);
    assert_eq!(pids(&inv.filter("CHROME")), vec![812, 1200]);
    assert_eq!(pids(&inv.filter(".exe")), vec![812, 900]);
    assert_eq!(pids(&inv.filter("zzz")), Vec::<u32>::new());
}

#[test]
fn filter_may_select_the_whole_listing() {
    let mut inv = Inventory::new();
    inv.complete_refresh(vec![record(1, "a"), record(2, "ba")]).unwrap();
    assert_eq!(pids(&inv.filter("A")), vec![1, 2]);
}

#[test]
fn name_matching() {
    assert!(name_matches("Explorer.EXE", "explorer"));
    assert!(name_matches("explorer.exe", "PLOR"));
    assert!(name_matches("anything", ""));
    assert!(!name_matches("", "x"));
    assert!(!name_matches("abc", "abcd"));
    assert!(name_matches("ÄPFEL", "äpf"));
}

#[test]
fn folded_contains_is_exact() {
    assert!(folded_contains("abc", "bc"));
    assert!(folded_contains("abc", ""));
    assert!(!folded_contains("abc", "BC"));
    assert!(!folded_contains("ab", "abc"));
}

#[test]
fn refresh_replaces_the_whole_listing() {
    let mut inv = Inventory::new();
    inv.complete_refresh(listing()).unwrap();
    inv.complete_refresh(vec![record(77, "new.exe")]).unwrap();
    assert_eq!(pids(&inv.filter("")), vec![77]);
    assert!(inv.find(812).is_none());
    assert_eq!(inv.processes().len(), 1);
}

#[test]
fn malformed_listing_is_turned_down() {
    let mut inv = Inventory::new();
    inv.complete_refresh(listing()).unwrap();
    let twice = vec![record(5, "a"), record(6, "b"), record(5, "c")];
    assert!(!valid_snapshot(&twice));
    assert_eq!(inv.complete_refresh(twice), Err(InventoryError::MalformedSnapshot));
    assert_eq!(pids(&inv.filter("")), vec![4, 812, 900, 1200]);
    let zero = vec![record(0, "idle")];
    assert!(!valid_snapshot(&zero));
    assert_eq!(inv.complete_refresh(zero), Err(InventoryError::MalformedSnapshot));
    assert_eq!(inv.processes().len(), 4);
    assert!(valid_snapshot(&listing()));
    assert!(valid_snapshot(&Vec::new()));
}

#[test]
fn overlapping_refreshes_are_coalesced() {
    let mut inv = Inventory::new();
    assert!(!inv.is_refreshing());
    assert!(inv.begin_refresh());
    assert!(inv.is_refreshing());
    assert!(!inv.begin_refresh());
    assert!(!inv.begin_refresh());
    inv.complete_refresh(listing()).unwrap();
    assert!(!inv.is_refreshing());
    assert!(inv.begin_refresh());
}

#[test]
fn failed_listing_is_reported_once() {
    let mut inv = Inventory::new();
    inv.complete_refresh(listing()).unwrap();
    inv.begin_refresh();
    inv.fail_refresh(1314);
    assert!(!inv.is_refreshing());
    assert_eq!(inv.processes().len(), 4);
    assert_eq!(inv.take_failure(), Some(1314));
    assert_eq!(inv.take_failure(), None);
}

#[test]
fn find_by_pid() {
    let mut inv = Inventory::new();
    inv.complete_refresh(listing()).unwrap();
    assert_eq!(inv.find(900).map(|r| r.name.as_str()), Some("Notepad.EXE"));
    assert!(inv.find(901).is_none());
}

#[test]
fn automatic_refresh_is_due_after_the_interval() {
    assert!(refresh_due(true, None, 0, 2000));
    assert!(!refresh_due(false, None, 0, 2000));
    assert!(!refresh_due(true, Some(1000), 2999, 2000));
    assert!(refresh_due(true, Some(1000), 3000, 2000));
    assert!(!refresh_due(false, Some(1000), 9000, 2000));
    assert!(!refresh_due(true, Some(5000), 1000, 2000));
    assert!(refresh_due(true, Some(5000), 5000, 0));
}
