use motsdits::webview_profile::{
    backup_file_name, backups_to_prune, error_suggests_profile_corruption, is_profile_backup,
    lowered_message_suggests_corruption, profile_dir_location,
    quarantine_failure_message, recovery_allowed_after, BackupEntry, ProfileBase,
    BLANK_STARTUP_REASON, KEPT_BACKUPS, RECOVERY_MARKER_FILE,
};
use motsdits::platform::Platform;

fn entry(name: &str, modified: Option<i128>) -> BackupEntry {
    BackupEntry { name: name.to_string(), modified }
}

#[test]
fn profile_location() {
    assert_eq!(
        profile_dir_location(Platform::Linux, true, true),
        Some((ProfileBase::PortableData, "webview"))
    );
    assert_eq!(profile_dir_location(Platform::Linux, false, true), None);
    assert_eq!(
        profile_dir_location(Platform::Windows, true, true),
        Some((ProfileBase::PortableData, "webview"))
    );
    assert_eq!(
        profile_dir_location(Platform::Windows, false, true),
        Some((ProfileBase::AppLocalData, "EBWebView"))
    );
    assert_eq!(profile_dir_location(Platform::Windows, false, false), None);
    assert_eq!(RECOVERY_MARKER_FILE, "webview-recovery.marker");
    assert_eq!(BLANK_STARTUP_REASON, "blank startup");
}

#[test]
fn recovery_cool_down() {
    assert!(recovery_allowed_after(None));
    assert!(!recovery_allowed_after(Some((0, 0))));
    assert!(!recovery_allowed_after(Some((599, 999_999_999))));
    assert!(!recovery_allowed_after(Some((600, 0))));
    assert!(recovery_allowed_after(Some((600, 1))));
    assert!(recovery_allowed_after(Some((601, 0))));
}

#[test]
fn corruption_messages() {
    assert!(error_suggests_profile_corruption("WebView2 error: HRESULT(0x8007139F)"));
    assert!(error_suggests_profile_corruption("failed with 0x8007139F"));
    assert!(error_suggests_profile_corruption(
        "The group or resource is not in the correct state to perform the requested operation."
    ));
    assert!(!error_suggests_profile_corruption("access denied (0x80070005)"));
    assert!(!error_suggests_profile_corruption(""));
    // an already lower-cased message is matched as it stands
    assert!(!lowered_message_suggests_corruption("0X8007139F"));
    assert!(lowered_message_suggests_corruption("hresult(0x8007139f)"));
}

#[test]
fn backup_names() {
    assert_eq!(
        backup_file_name(Some("EBWebView"), "startup", "20240102-030405"),
        "EBWebView.backup-startup-20240102-030405"
    );
    assert_eq!(
        backup_file_name(None, "pending", "20240102-030405"),
        "webview.backup-pending-20240102-030405"
    );
    assert_eq!(
        quarantine_failure_message("C:\\data\\EBWebView", "access denied"),
        "failed to quarantine WebView profile C:\\data\\EBWebView: access denied"
    );
}

#[test]
fn quarantine_names_are_backups_of_their_profile() {
    let name = backup_file_name(Some("EBWebView"), "startup", "20240102-030405");
    assert!(is_profile_backup(&name, "EBWebView"));
    let name = backup_file_name(None, "pending", "+100000101-000060");
    assert!(is_profile_backup(&name, "webview"));
    assert!(!is_profile_backup(&name, "EBWebView"));
}

#[test]
fn backup_recognition() {
    assert!(is_profile_backup("EBWebView.backup-startup-20240102-030405", "EBWebView"));
    assert!(is_profile_backup("EBWebView.backup-", "EBWebView"));
    assert!(!is_profile_backup("EBWebView", "EBWebView"));
    assert!(!is_profile_backup("EBWebView.backup", "EBWebView"));
    assert!(!is_profile_backup("webview.backup-x", "EBWebView"));
    assert!(!is_profile_backup("xEBWebView.backup-x", "EBWebView"));
}

#[test]
fn pruning_keeps_the_three_newest() {
    let entries = vec![
        entry("EBWebView.backup-a", Some(50)),
        entry("EBWebView", Some(1)),
        entry("EBWebView.backup-b", Some(10)),
        entry("other.backup-c", Some(0)),
        entry("EBWebView.backup-d", Some(40)),
        entry("EBWebView.backup-e", Some(30)),
        entry("EBWebView.backup-f", None),
        entry("EBWebView.backup-g", Some(20)),
    ];
    // backups with known times: a(50) b(10) d(40) e(30) g(20); keep a, d, e
    assert_eq!(backups_to_prune(&entries, "EBWebView"), vec![2, 7]);
    assert_eq!(KEPT_BACKUPS, 3);
}

#[test]
fn pruning_ties_keep_directory_order() {
    let entries = vec![
        entry("p.backup-1", Some(5)),
        entry("p.backup-2", Some(5)),
        entry("p.backup-3", Some(5)),
        entry("p.backup-4", Some(5)),
        entry("p.backup-5", Some(1)),
    ];
    assert_eq!(backups_to_prune(&entries, "p"), vec![4, 0]);
}

#[test]
fn pruning_few_backups_removes_nothing() {
    let entries = vec![
        entry("p.backup-1", Some(5)),
        entry("p.backup-2", Some(7)),
        entry("p.backup-3", Some(6)),
    ];
    assert!(backups_to_prune(&entries, "p").is_empty());
    assert!(backups_to_prune(&Vec::new(), "p").is_empty());
}

#[test]
fn pruned_backup_names_are_those_of_quarantine() {
    let names: Vec<String> = (0..5)
        .map(|i| backup_file_name(Some("EBWebView"), "startup", &format!("2024010{}-000000", i)))
        .collect();
    let entries: Vec<BackupEntry> = names
        .iter()
        .enumerate()
        .map(|(i, n)| entry(n, Some(i as i128)))
        .collect();
    assert_eq!(backups_to_prune(&entries, "EBWebView"), vec![0, 1]);
}
