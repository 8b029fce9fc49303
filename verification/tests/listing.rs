use lc_backup::names::get_backup_save_names;
use lc_backup::names::get_current_save_names;
use lc_backup::names::str_starts_with;

#[test]
fn prefix_test_is_exact() {
    assert!(str_starts_with("LCSaveFile2", "LCSaveFile"));
    assert!(str_starts_with("LCSaveFile", "LCSaveFile"));
    assert!(!str_starts_with("LC", "LCSaveFile"));
    assert!(!str_starts_with("lcsavefile2", "LCSaveFile"));
    assert!(str_starts_with("anything", ""));
}

#[test]
fn save_names_keep_only_prefixed_entries() {
    let entries: Vec<String> = vec![
        "LCSaveFile1".to_string(),
        "notes.txt".to_string(),
        "LCSaveFile2".to_string(),
        "BKP_LCSaveFile2_2024-03-16_18-21-28".to_string(),
        "LCGeneralSaveData".to_string(),
        "LCSaveFile3".to_string(),
    ];
    let saves = get_current_save_names(&entries);
    assert_eq!(
        saves,
        vec![
            "LCSaveFile1".to_string(),
            "LCSaveFile2".to_string(),
            "LCSaveFile3".to_string(),
        ]
    );
}

#[test]
fn backup_names_filtered_and_reversed() {
    let entries: Vec<String> = vec![
        "BKP_LCSaveFile1_2024-03-16_01-04-19".to_string(),
        "LCSaveFile1".to_string(),
        "BKP_LCSaveFile1_2024-03-16_18-09-00".to_string(),
        "settings.cfg".to_string(),
        "BKP_LCSaveFile4_2024-03-16_18-21-28".to_string(),
    ];
    let backups = get_backup_save_names(&entries);
    assert_eq!(
        backups,
        vec![
            "BKP_LCSaveFile4_2024-03-16_18-21-28".to_string(),
            "BKP_LCSaveFile1_2024-03-16_18-09-00".to_string(),
            "BKP_LCSaveFile1_2024-03-16_01-04-19".to_string(),
        ]
    );
}

#[test]
fn backup_listing_ignores_plain_saves() {
    let entries: Vec<String> = vec!["LCSaveFile1".to_string(), "LCSaveFile2".to_string()];
    let backups = get_backup_save_names(&entries);
    assert!(backups.is_empty());
}

#[test]
fn empty_directory_lists_nothing() {
    let entries: Vec<String> = Vec::new();
    assert!(get_current_save_names(&entries).is_empty());
    assert!(get_backup_save_names(&entries).is_empty());
}
