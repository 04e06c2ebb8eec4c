//! Tests for the directory browser's navigation policy.

use gigr::files::{Entry, FileSelector, QueueRequest};

fn entry(name: &str, is_file: bool) -> Entry {
    Entry { name: name.to_string(), is_file }
}

fn music_dir() -> Vec<Entry> {
    vec![entry("album", false), entry("one.mp3", true), entry("two.flac", true)]
}

fn path(components: &[&str]) -> Vec<String> {
    components.iter().map(|c| c.to_string()).collect()
}

#[test]
fn starts_at_top_as_file() {
    let fs = FileSelector::new(path(&["home", "music"]), music_dir());
    assert_eq!(fs.selected_entry(), 0);
    assert_eq!(fs.contents().len(), 3);
    assert_eq!(fs.running_path().len(), 2);
}

#[test]
fn moves_stay_in_bounds() {
    let mut fs = FileSelector::new(path(&["music"]), music_dir());
    fs.move_up();
    assert_eq!(fs.selected_entry(), 0);
    fs.move_down();
    assert_eq!(fs.selected_entry(), 1);
    fs.move_down();
    assert_eq!(fs.selected_entry(), 2);
    fs.move_down();
    assert_eq!(fs.selected_entry(), 2);
    fs.move_up();
    assert_eq!(fs.selected_entry(), 1);
}

#[test]
fn empty_listing_never_moves() {
    let mut fs = FileSelector::new(path(&["music"]), Vec::new());
    fs.move_down();
    assert_eq!(fs.selected_entry(), 0);
    fs.move_up();
    assert_eq!(fs.selected_entry(), 0);
    assert!(fs.queue_selection().is_none());
    assert!(!fs.move_forwards());
}

#[test]
fn descends_into_directories_only() {
    let mut fs = FileSelector::new(path(&["music"]), music_dir());
    // The highlight starts as "file" until a move re-evaluates it.
    assert!(!fs.move_forwards());
    fs.move_down();
    fs.move_up(); // highlight entry 0, the directory
    assert!(fs.move_forwards());
    assert_eq!(fs.running_path(), &path(&["music", "album"]));
    assert_eq!(fs.selected_entry(), 0);
    // The application re-reads the new directory and hands the listing back.
    fs.set_contents(vec![entry("deep.wav", true)]);
    assert_eq!(fs.contents().len(), 1);
    assert_eq!(fs.selected_entry(), 0);
    assert!(!fs.move_forwards());
}

#[test]
fn back_pops_one_component_and_stops_at_root() {
    let mut fs = FileSelector::new(path(&["a", "b"]), music_dir());
    fs.move_back();
    assert_eq!(fs.running_path(), &path(&["a"]));
    fs.move_back();
    assert!(fs.running_path().is_empty());
    fs.move_back();
    assert!(fs.running_path().is_empty());
}

#[test]
fn queue_selection_distinguishes_files_and_folders() {
    let mut fs = FileSelector::new(path(&["music"]), music_dir());
    fs.move_down();
    match fs.queue_selection() {
        Some(QueueRequest::File(name)) => assert_eq!(name, "one.mp3"),
        other => panic!("expected a file request, got {:?}", other),
    }
    fs.move_up();
    match fs.queue_selection() {
        Some(QueueRequest::Folder(name)) => assert_eq!(name, "album"),
        other => panic!("expected a folder request, got {:?}", other),
    }
}
