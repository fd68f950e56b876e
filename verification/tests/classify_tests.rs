use astro_organizer::classify::{
    classify_entry, classify_folder, classify_folders, has_prefix, ClassifiedFolder,
    FolderListing,
};
use astro_organizer::role::RoleLabel;

fn strings(names: &[&str]) -> Vec<String> {
    names.iter().map(|n| n.to_string()).collect()
}

#[test]
fn light_entry_classifies_light() {
    let entries = strings(&["Light_001.fits"]);
    assert_eq!(classify_folder(&entries), RoleLabel::Light);
}

#[test]
fn empty_folder_classifies_unknown() {
    let entries: Vec<String> = Vec::new();
    assert_eq!(classify_folder(&entries), RoleLabel::Unknown);
}

#[test]
fn no_matching_entry_classifies_unknown() {
    let entries = strings(&["notes.txt", "misc.fit", "light_lower.fit"]);
    assert_eq!(classify_folder(&entries), RoleLabel::Unknown);
}

#[test]
fn first_matching_entry_wins() {
    let entries = strings(&["readme.md", "Dark1.fit", "Light1.fit"]);
    assert_eq!(classify_folder(&entries), RoleLabel::Dark);
}

#[test]
fn entry_prefix_priority_is_light_flat_dark_bias() {
    assert_eq!(classify_entry("Light_x"), RoleLabel::Light);
    assert_eq!(classify_entry("Flat_x"), RoleLabel::Flat);
    assert_eq!(classify_entry("Dark_x"), RoleLabel::Dark);
    assert_eq!(classify_entry("Bias_x"), RoleLabel::Bias);
    assert_eq!(classify_entry("Other_x"), RoleLabel::Unknown);
    assert_eq!(classify_entry(""), RoleLabel::Unknown);
}

#[test]
fn prefix_check_is_exact() {
    assert!(has_prefix("Light001.fit", "Light"));
    assert!(has_prefix("Light", "Light"));
    assert!(!has_prefix("Ligh", "Light"));
    assert!(!has_prefix("light001.fit", "Light"));
    assert!(has_prefix("anything", ""));
}

#[test]
fn classify_folders_preserves_order_and_paths() {
    let folders = vec![
        FolderListing { path: "/root/a".to_string(), entries: strings(&["Light001.fit"]) },
        FolderListing { path: "/root/b".to_string(), entries: strings(&[]) },
        FolderListing { path: "/root/c".to_string(), entries: strings(&["Flat9"]) },
    ];
    let classified = classify_folders(folders);
    assert_eq!(classified.len(), 3);
    assert_eq!(classified[0].path, "/root/a");
    assert_eq!(classified[0].role, RoleLabel::Light);
    assert_eq!(classified[1].path, "/root/b");
    assert_eq!(classified[1].role, RoleLabel::Unknown);
    assert_eq!(classified[2].path, "/root/c");
    assert_eq!(classified[2].role, RoleLabel::Flat);
}

#[test]
fn get_format_shows_path_and_role() {
    let folder = ClassifiedFolder { path: "/data/m51".to_string(), role: RoleLabel::Light };
    assert_eq!(folder.get_format(), "/data/m51 - Light");
    let unknown = ClassifiedFolder { path: "/data/x".to_string(), role: RoleLabel::Unknown };
    assert_eq!(unknown.get_format(), "/data/x - Unknown");
}
