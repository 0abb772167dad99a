use screenshotapp::backup::{
    backup_cache_dir, compute_path_hash, get_original_backup_path, hex16, home_directory,
};
use screenshotapp::document::{
    look_up_key, lookup_is_settled, settings_file_has_stitch_shortcut, KeyLookup,
};
use std::hash::{Hash, Hasher};

fn std_hash(path: &str) -> String {
    let mut hasher = std::collections::hash_map::DefaultHasher::new();
    path.hash(&mut hasher);
    format!("{:016x}", hasher.finish())
}

#[test]
fn sixteen_hex_digits() {
    assert_eq!(hex16(0), "0000000000000000");
    assert_eq!(hex16(1), "0000000000000001");
    assert_eq!(hex16(255), "00000000000000ff");
    assert_eq!(hex16(0x0123_4567_89ab_cdef), "0123456789abcdef");
    assert_eq!(hex16(u64::MAX), "ffffffffffffffff");
    assert_eq!(hex16(0xf000_0000_0000_0000), "f000000000000000");
}

#[test]
fn path_hash_is_the_hash_of_the_string() {
    for path in ["", "a", "/Users/me/Desktop/llm-scr_01-02.jpg", "/tmp/é  ü.png"] {
        let h = compute_path_hash(path);
        assert_eq!(h.len(), 16);
        assert_eq!(h, std_hash(path));
        assert_eq!(h, compute_path_hash(path));
    }
    assert_ne!(compute_path_hash("/a.png"), compute_path_hash("/b.png"));
}

#[test]
fn the_home_directory() {
    assert_eq!(home_directory(Some("/Users/me".to_string())), "/Users/me");
    assert_eq!(home_directory(Some(String::new())), "");
    assert_eq!(home_directory(None), "/tmp");
}

#[test]
fn the_directory_of_the_backups() {
    assert_eq!(backup_cache_dir("/Users/me"), "/Users/me/Library/Caches/screenshotapp/backups");
    assert_eq!(backup_cache_dir("/tmp"), "/tmp/Library/Caches/screenshotapp/backups");
}

#[test]
fn backup_path() {
    let path = "/Users/me/Desktop/shot.jpg";
    assert_eq!(
        get_original_backup_path("/Users/me", path),
        format!("/Users/me/Library/Caches/screenshotapp/backups/{}.original", std_hash(path))
    );
    assert_eq!(
        get_original_backup_path(&home_directory(None), ""),
        format!("/tmp/Library/Caches/screenshotapp/backups/{}.original", std_hash(""))
    );
}

#[test]
fn nothing_stored_needs_no_mending() {
    assert!(settings_file_has_stitch_shortcut(false, None));
    assert!(settings_file_has_stitch_shortcut(false, Some("not json")));
    assert_eq!(look_up_key(false, Some("{}"), "a"), KeyLookup::Absent);
}

#[test]
fn what_cannot_be_read_is_mended() {
    assert!(!settings_file_has_stitch_shortcut(true, None));
    assert_eq!(look_up_key(true, None, "a"), KeyLookup::Unreadable);
}

#[test]
fn what_is_not_json_is_mended() {
    for text in ["", "not json", "{", "{\"stitchShortcut\": }", "{\"stitchShortcut\":1} x"] {
        assert!(!settings_file_has_stitch_shortcut(true, Some(text)));
        assert_eq!(look_up_key(true, Some(text), "stitchShortcut"), KeyLookup::Malformed);
    }
}

#[test]
fn a_document_with_the_field_needs_no_mending() {
    assert!(settings_file_has_stitch_shortcut(true, Some("{\"stitchShortcut\": \"Cmd+Shift+2\"}")));
    assert!(settings_file_has_stitch_shortcut(
        true,
        Some("{\n  \"quality\": 70,\n  \"stitchShortcut\": null\n}")
    ));
    assert_eq!(
        look_up_key(true, Some("{\"a\": 1}"), "a"),
        KeyLookup::Document { has_key: true }
    );
}

#[test]
fn a_document_without_the_field_is_mended() {
    assert!(!settings_file_has_stitch_shortcut(true, Some("{}")));
    assert!(!settings_file_has_stitch_shortcut(true, Some("{\"stitchshortcut\": \"Cmd+2\"}")));
    assert!(!settings_file_has_stitch_shortcut(
        true,
        Some("{\"nested\": {\"stitchShortcut\": \"Cmd+2\"}}")
    ));
    assert!(!settings_file_has_stitch_shortcut(true, Some("[\"stitchShortcut\"]")));
    assert!(!settings_file_has_stitch_shortcut(true, Some("\"stitchShortcut\"")));
    assert!(!settings_file_has_stitch_shortcut(true, Some("7")));
    assert_eq!(
        look_up_key(true, Some("{\"a\": 1}"), "b"),
        KeyLookup::Document { has_key: false }
    );
}

#[test]
fn lookups_that_settle() {
    assert!(lookup_is_settled(KeyLookup::Absent));
    assert!(lookup_is_settled(KeyLookup::Document { has_key: true }));
    assert!(!lookup_is_settled(KeyLookup::Document { has_key: false }));
    assert!(!lookup_is_settled(KeyLookup::Unreadable));
    assert!(!lookup_is_settled(KeyLookup::Malformed));
}
