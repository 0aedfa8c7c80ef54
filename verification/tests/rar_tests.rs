use stump_core::media_file::{is_image_name, IsImage};
use stump_core::rar::{count_rar_pages, rar_image_names, select_rar_page, RarEntry};
use stump_core::strutil::{ends_with, parse_u32, sorted_by_name, str_eq, str_le};

fn entry(name: &str, is_file: bool) -> RarEntry {
    RarEntry {
        filename: name.to_string(),
        is_file,
    }
}

#[test]
fn image_entries_are_files_with_image_names() {
    assert!(entry("001.jpg", true).is_image());
    assert!(entry("Art/Page.JPEG", true).is_image());
    assert!(entry("cover.PNG", true).is_image());
    assert!(!entry("001.jpg", false).is_image(), "directories are not pages");
    assert!(!entry("notes.txt", true).is_image());
    assert!(!entry("jpg", true).is_image(), "a bare extension is not a suffix match");
}

#[test]
fn image_name_checks_are_case_insensitive() {
    assert!(is_image_name("A.Jpg"));
    assert!(is_image_name("b.jpeg"));
    assert!(!is_image_name("c.gif"));
}

#[test]
fn pages_are_counted_and_selected_in_sorted_order() {
    let entries = vec![
        entry("b.jpg", true),
        entry("a.png", true),
        entry("notes.txt", true),
        entry("c.jpeg", true),
        entry("folder", false),
    ];
    assert_eq!(count_rar_pages(&entries), 3);
    assert_eq!(rar_image_names(&entries).len(), 3);
    assert_eq!(select_rar_page(&entries, 1), Some("a.png".to_string()));
    assert_eq!(select_rar_page(&entries, 2), Some("b.jpg".to_string()));
    assert_eq!(select_rar_page(&entries, 3), Some("c.jpeg".to_string()));
    assert_eq!(select_rar_page(&entries, 0), None);
    assert_eq!(select_rar_page(&entries, 4), None);
}

#[test]
fn string_helpers_behave() {
    assert!(str_eq("abc", "abc"));
    assert!(!str_eq("abc", "abd"));
    assert!(ends_with("page.jpg", ".jpg"));
    assert!(!ends_with("jpg", ".jpg"));
    assert!(str_le("001.jpg", "002.jpg"));
    assert!(str_le("a", "ab"));
    assert!(!str_le("b", "ab"));
    assert_eq!(parse_u32("0"), Some(0));
    assert_eq!(parse_u32("4294967295"), Some(u32::MAX));
    assert_eq!(parse_u32("4294967296"), None);
    assert_eq!(parse_u32(""), None);
    assert_eq!(parse_u32("12a"), None);
}

#[test]
fn sorted_by_name_orders_lexicographically() {
    let names = vec![
        "010.jpg".to_string(),
        "002.jpg".to_string(),
        "001.jpg".to_string(),
    ];
    let sorted = sorted_by_name(names);
    assert_eq!(sorted, vec!["001.jpg", "002.jpg", "010.jpg"]);
}
