use comic_creator::listing::{get_image_files, DirEntry, EntryKind};
use comic_creator::options::Options;
use comic_creator::run::{Action, Event, Run};

fn names(ws: &[&str]) -> Vec<String> {
    ws.iter().map(|w| w.to_string()).collect()
}

#[test]
fn empty_folder_is_skipped_without_archive() {
    let (mut run, a) = Run::new(1, Options { clean_after: true });
    assert_eq!(a, Action::ListImages { folder: 0 });
    assert_eq!(run.step(Event::Listed(Vec::new())), Action::Skip { folder: 0 });
    assert_eq!(run.step(Event::Skipped), Action::Finish);
}

#[test]
fn folder_with_pages_is_archived_once() {
    let (mut run, _) = Run::new(2, Options { clean_after: false });
    assert_eq!(run.step(Event::Listed(names(&["/w/A/1.jpg"]))), Action::Archive { folder: 0 });
    assert_eq!(run.images(), &names(&["/w/A/1.jpg"]));
    assert_eq!(run.step(Event::Archived), Action::ListImages { folder: 1 });
    assert!(run.images().is_empty());
}

#[test]
fn clean_after_removes_exactly_the_archived_pages() {
    let (mut run, _) = Run::new(1, Options { clean_after: true });
    let pages = names(&["/w/A/1.jpg", "/w/A/2.png"]);
    assert_eq!(run.step(Event::Listed(pages.clone())), Action::Archive { folder: 0 });
    assert_eq!(run.step(Event::Archived), Action::Clean { folder: 0 });
    assert_eq!(run.images(), &pages);
    assert_eq!(run.step(Event::Cleaned), Action::Finish);
}

#[test]
fn without_clean_after_nothing_is_removed() {
    let (mut run, _) = Run::new(1, Options { clean_after: false });
    run.step(Event::Listed(names(&["/w/A/1.jpg"])));
    assert_eq!(run.step(Event::Archived), Action::Finish);
}

#[test]
fn no_removal_after_a_failed_archive() {
    let (mut run, _) = Run::new(2, Options { clean_after: true });
    run.step(Event::Listed(names(&["/w/A/1.jpg"])));
    assert_eq!(run.step(Event::ArchiveFailed), Action::ListImages { folder: 1 });
}

#[test]
fn a_failing_folder_does_not_stop_the_next() {
    let (mut run, _) = Run::new(3, Options { clean_after: false });
    assert_eq!(run.step(Event::ListFailed), Action::ListImages { folder: 1 });
    assert_eq!(run.step(Event::Listed(names(&["/w/B/1.png"]))), Action::Archive { folder: 1 });
    assert_eq!(run.step(Event::ArchiveFailed), Action::ListImages { folder: 2 });
    assert_eq!(run.step(Event::Listed(names(&["/w/C/1.png"]))), Action::Archive { folder: 2 });
    assert_eq!(run.step(Event::Archived), Action::Finish);
    assert_eq!(run.step(Event::Archived), Action::Finish);
}

#[test]
fn no_folders_finish_at_once() {
    let (mut run, a) = Run::new(0, Options::default());
    assert_eq!(a, Action::Finish);
    assert_eq!(run.step(Event::Listed(names(&["x.jpg"]))), Action::Finish);
}

#[test]
fn folder_a_archived_folder_b_skipped() {
    let folder_a = vec![
        DirEntry { path: "/w/FolderA/1.jpg".to_string(), kind: EntryKind::File, extension: Some("jpg".to_string()) },
        DirEntry { path: "/w/FolderA/2.png".to_string(), kind: EntryKind::File, extension: Some("png".to_string()) },
        DirEntry { path: "/w/FolderA/notes.txt".to_string(), kind: EntryKind::File, extension: Some("txt".to_string()) },
    ];
    let folder_b: Vec<DirEntry> = Vec::new();
    let (mut run, a) = Run::new(2, Options::default());
    assert_eq!(a, Action::ListImages { folder: 0 });
    let a = run.step(Event::Listed(get_image_files(&folder_a)));
    assert_eq!(a, Action::Archive { folder: 0 });
    assert_eq!(run.images(), &names(&["/w/FolderA/1.jpg", "/w/FolderA/2.png"]));
    assert_eq!(run.step(Event::Archived), Action::ListImages { folder: 1 });
    assert_eq!(run.step(Event::Listed(get_image_files(&folder_b))), Action::Skip { folder: 1 });
    assert_eq!(run.step(Event::Skipped), Action::Finish);
}
