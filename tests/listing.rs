use comic_creator::listing::{get_directories, get_image_files, is_viable_extension, DirEntry, EntryKind};

fn entry(path: &str, kind: EntryKind, extension: Option<&str>) -> DirEntry {
    DirEntry { path: path.to_string(), kind, extension: extension.map(|e| e.to_string()) }
}

#[test]
fn test_is_viable_extension() {
    assert_eq!(is_viable_extension("jpg"), true);
    assert_eq!(is_viable_extension("png"), true);
    assert_eq!(is_viable_extension("mp4"), false);
    assert_eq!(is_viable_extension("exe"), false);
    assert_eq!(is_viable_extension("txt"), false);
}

#[test]
fn extension_match_is_exact_and_case_sensitive() {
    assert!(!is_viable_extension("PNG"));
    assert!(!is_viable_extension("Jpg"));
    assert!(!is_viable_extension("jpeg"));
    assert!(!is_viable_extension("jp"));
    assert!(!is_viable_extension("pngx"));
    assert!(!is_viable_extension(""));
}

#[test]
fn directories_are_the_folder_entries_in_order() {
    let entries = vec![
        entry("/w/FolderB", EntryKind::Directory, None),
        entry("/w/readme.txt", EntryKind::File, Some("txt")),
        entry("/w/link", EntryKind::Other, None),
        entry("/w/locked", EntryKind::Unreadable, None),
        entry("/w/FolderA", EntryKind::Directory, None),
    ];
    assert_eq!(get_directories(&entries), vec!["/w/FolderB".to_string(), "/w/FolderA".to_string()]);
}

#[test]
fn directories_of_an_empty_listing() {
    assert!(get_directories(&Vec::new()).is_empty());
}

#[test]
fn image_files_are_regular_files_with_viable_extensions() {
    let entries = vec![
        entry("/w/A/2.png", EntryKind::File, Some("png")),
        entry("/w/A/notes.txt", EntryKind::File, Some("txt")),
        entry("/w/A/1.jpg", EntryKind::File, Some("jpg")),
        entry("/w/A/3.PNG", EntryKind::File, Some("PNG")),
        entry("/w/A/4.jpeg", EntryKind::File, Some("jpeg")),
        entry("/w/A/noext", EntryKind::File, None),
        entry("/w/A/sub.jpg", EntryKind::Directory, Some("jpg")),
        entry("/w/A/link.png", EntryKind::Other, Some("png")),
        entry("/w/A/gone.png", EntryKind::Unreadable, Some("png")),
    ];
    assert_eq!(get_image_files(&entries), vec!["/w/A/2.png".to_string(), "/w/A/1.jpg".to_string()]);
}

#[test]
fn image_files_of_an_empty_folder() {
    assert!(get_image_files(&Vec::new()).is_empty());
}
