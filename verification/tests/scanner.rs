use gallery::events::ScanEvent;
use gallery::known::KnownFolderSet;
use gallery::pipeline::{begin_scan, generate_covers, ScanError};
use gallery::prober::{is_displayable_image, FileProbe};
use gallery::scanner::{check_folder_has_images, flatten_and_add_paths, keeps_entry, FolderScanner, WalkEntry};

const PNG_HEADER: [u8; 16] = [0x89, 0x50, 0x4e, 0x47, 0x0d, 0x0a, 0x1a, 0x0a, 0, 0, 0, 13, 0x49, 0x48, 0x44, 0x52];
const JPEG_HEADER: [u8; 16] = [0xff, 0xd8, 0xff, 0xe0, 0, 16, 0x4a, 0x46, 0x49, 0x46, 0, 1, 1, 0, 0, 1];
const TEXT_HEADER: [u8; 16] = *b"hello, gallery!\n";

fn file(path: &str, header: &[u8]) -> FileProbe {
    FileProbe { path: path.to_string(), is_file: true, header: Some(header.to_vec()) }
}

fn subdir(path: &str) -> FileProbe {
    FileProbe { path: path.to_string(), is_file: false, header: None }
}

fn depth_of(path: &str) -> usize {
    path.matches('/').count() - 1
}

fn dir(path: &str, children: Vec<FileProbe>) -> WalkEntry {
    WalkEntry { path: path.to_string(), depth: depth_of(path), is_dir: true, children: Some(children) }
}

fn unopened(path: &str) -> WalkEntry {
    WalkEntry { path: path.to_string(), depth: depth_of(path), is_dir: true, children: None }
}

fn plain_file(path: &str) -> WalkEntry {
    WalkEntry { path: path.to_string(), depth: depth_of(path), is_dir: false, children: None }
}

fn photos() -> Vec<WalkEntry> {
    vec![
        dir("/photos", vec![subdir("/photos/a"), subdir("/photos/b"), subdir("/photos/c")]),
        dir(
            "/photos/a",
            vec![file("/photos/a/1.jpg", &JPEG_HEADER), file("/photos/a/2.jpg", &JPEG_HEADER)],
        ),
        plain_file("/photos/a/1.jpg"),
        plain_file("/photos/a/2.jpg"),
        dir("/photos/b", vec![]),
        dir("/photos/c", vec![subdir("/photos/c/d")]),
        dir("/photos/c/d", vec![file("/photos/c/d/x.png", &PNG_HEADER)]),
        plain_file("/photos/c/d/x.png"),
    ]
}

fn discovered_paths(events: &[ScanEvent]) -> Vec<String> {
    let mut paths = Vec::new();
    for event in events {
        if let ScanEvent::FolderDiscovered(folder) = event {
            paths.push(folder.path.clone());
        }
    }
    paths
}

fn completed(events: &[ScanEvent]) -> KnownFolderSet {
    match events.last() {
        Some(ScanEvent::ScanComplete(known)) => known.clone(),
        _ => panic!("the last event is not ScanComplete"),
    }
}

#[test]
fn prober_accepts_png_and_jpeg_only() {
    assert!(is_displayable_image(&file("a.png", &PNG_HEADER)));
    assert!(is_displayable_image(&file("a.jpg", &JPEG_HEADER)));
    assert!(!is_displayable_image(&file("a.txt", &TEXT_HEADER)));
    assert!(!is_displayable_image(&file("a.gif", b"GIF89a\x01\x00\x01\x00")));
    assert!(!is_displayable_image(&file("empty", &[])));
    assert!(!is_displayable_image(&file("short.png", &PNG_HEADER[..7])));
    assert!(is_displayable_image(&file("bare.jpg", &JPEG_HEADER[..3])));
}

#[test]
fn prober_goes_by_content_not_by_name() {
    assert!(is_displayable_image(&file("notes.txt", &PNG_HEADER)));
    assert!(!is_displayable_image(&file("picture.png", &TEXT_HEADER)));
}

#[test]
fn prober_treats_unreadable_as_no_image() {
    let unreadable = FileProbe { path: "locked.png".to_string(), is_file: true, header: None };
    assert!(!is_displayable_image(&unreadable));
    let directory = FileProbe { path: "sub".to_string(), is_file: false, header: Some(PNG_HEADER.to_vec()) };
    assert!(!is_displayable_image(&directory));
}

#[test]
fn walk_keeps_only_open_nonempty_directories() {
    assert!(keeps_entry(&dir("/d", vec![subdir("/d/e")])));
    assert!(keeps_entry(&dir("/d", vec![file("/d/a.txt", &TEXT_HEADER)])));
    assert!(!keeps_entry(&dir("/d", vec![])));
    assert!(!keeps_entry(&unopened("/d")));
    assert!(!keeps_entry(&plain_file("/d/a.png")));
    let a_file = WalkEntry {
        path: "/d/a.png".to_string(),
        depth: 1,
        is_dir: false,
        children: Some(vec![file("/d/a.png/x.png", &PNG_HEADER)]),
    };
    assert!(!keeps_entry(&a_file));
}

#[test]
fn format_filter_excludes_text_file() {
    let entry = dir(
        "/mixed",
        vec![
            file("/mixed/one.png", &PNG_HEADER),
            file("/mixed/two.jpg", &JPEG_HEADER),
            file("/mixed/three.txt", &TEXT_HEADER),
        ],
    );
    let paths = check_folder_has_images(&entry);
    assert_eq!(paths, vec!["/mixed/one.png".to_string(), "/mixed/two.jpg".to_string()]);

    let events = flatten_and_add_paths(&vec![entry], KnownFolderSet::new());
    assert_eq!(events.len(), 2);
    match &events[0] {
        ScanEvent::FolderDiscovered(folder) => {
            assert_eq!(folder.path, "/mixed");
            assert_eq!(folder.image_paths.len(), 2);
            assert_eq!(folder.thumbnails.len(), 2);
            assert!(folder.thumbnails.iter().all(|slot| slot.is_none()));
            assert!(folder.cover_thumbnail.is_none());
        }
        _ => panic!("the first event is not FolderDiscovered"),
    }
}

#[test]
fn listing_order_is_kept() {
    let entry = dir(
        "/d",
        vec![
            file("/d/z.jpg", &JPEG_HEADER),
            subdir("/d/sub"),
            file("/d/notes.txt", &TEXT_HEADER),
            file("/d/a.png", &PNG_HEADER),
            file("/d/m.jpg", &JPEG_HEADER),
        ],
    );
    let paths = check_folder_has_images(&entry);
    assert_eq!(paths, vec!["/d/z.jpg".to_string(), "/d/a.png".to_string(), "/d/m.jpg".to_string()]);
}

#[test]
fn unopened_directory_holds_no_image() {
    let entry = unopened("/locked");
    assert!(check_folder_has_images(&entry).is_empty());
    let mut scanner = FolderScanner::new(KnownFolderSet::new());
    assert!(scanner.visit(&entry).is_none());
    assert!(scanner.finish().is_empty());
}

#[test]
fn visit_reports_and_remembers() {
    let entry = dir("/a", vec![file("/a/1.jpg", &JPEG_HEADER)]);
    let mut scanner = FolderScanner::new(KnownFolderSet::new());
    let found = scanner.visit(&entry).expect("a folder with a picture is reported");
    assert_eq!(found.path, "/a");
    assert_eq!(found.image_paths, vec!["/a/1.jpg".to_string()]);
    assert!(scanner.visit(&entry).is_none());
    let known = scanner.finish();
    assert!(known.contains(&"/a".to_string()));
    assert_eq!(known.len(), 1);
}

#[test]
fn scenario_photos_tree() {
    let walk = photos();
    let events = begin_scan(&"/photos".to_string(), &walk, KnownFolderSet::new()).expect("the root is there");
    assert_eq!(events.len(), 3);
    assert_eq!(discovered_paths(&events), vec!["/photos/a".to_string(), "/photos/c/d".to_string()]);
    match &events[0] {
        ScanEvent::FolderDiscovered(folder) => {
            assert_eq!(folder.image_paths, vec!["/photos/a/1.jpg".to_string(), "/photos/a/2.jpg".to_string()]);
        }
        _ => panic!("the first event is not FolderDiscovered"),
    }
    match &events[1] {
        ScanEvent::FolderDiscovered(folder) => {
            assert_eq!(folder.image_paths, vec!["/photos/c/d/x.png".to_string()]);
        }
        _ => panic!("the second event is not FolderDiscovered"),
    }
    let known = completed(&events);
    assert_eq!(known.len(), 2);
    assert!(known.contains(&"/photos/a".to_string()));
    assert!(known.contains(&"/photos/c/d".to_string()));
    assert!(!known.contains(&"/photos/b".to_string()));
    assert!(!known.contains(&"/photos/c".to_string()));
    assert!(!known.contains(&"/photos".to_string()));
}

#[test]
fn rescan_with_completed_set_finds_nothing() {
    let walk = photos();
    let root = "/photos".to_string();
    let first = begin_scan(&root, &walk, KnownFolderSet::new()).unwrap();
    let known = completed(&first);
    let second = begin_scan(&root, &walk, known).unwrap();
    assert_eq!(second.len(), 1);
    assert!(discovered_paths(&second).is_empty());
    let again = completed(&second);
    assert_eq!(again.len(), 2);
}

#[test]
fn rescan_with_partly_known_set() {
    let walk = photos();
    let mut known = KnownFolderSet::new();
    known.insert("/photos/a".to_string());
    known.insert("/elsewhere".to_string());
    let events = begin_scan(&"/photos".to_string(), &walk, known).unwrap();
    assert_eq!(discovered_paths(&events), vec!["/photos/c/d".to_string()]);
    let after = completed(&events);
    assert_eq!(after.len(), 3);
    assert!(after.contains(&"/elsewhere".to_string()));
}

#[test]
fn known_parent_does_not_hide_new_child() {
    let walk = vec![
        dir("/p", vec![file("/p/top.png", &PNG_HEADER), subdir("/p/q")]),
        dir("/p/q", vec![file("/p/q/in.jpg", &JPEG_HEADER)]),
    ];
    let mut known = KnownFolderSet::new();
    known.insert("/p".to_string());
    let events = begin_scan(&"/p".to_string(), &walk, known).unwrap();
    assert_eq!(discovered_paths(&events), vec!["/p/q".to_string()]);
}

#[test]
fn only_empty_subdirectories_yield_nothing() {
    let walk = vec![
        dir("/root", vec![subdir("/root/x"), subdir("/root/y")]),
        dir("/root/x", vec![subdir("/root/x/z")]),
        dir("/root/x/z", vec![]),
        dir("/root/y", vec![]),
    ];
    let events = begin_scan(&"/root".to_string(), &walk, KnownFolderSet::new()).unwrap();
    assert_eq!(events.len(), 1);
    assert!(completed(&events).is_empty());
}

#[test]
fn a_directory_met_twice_is_reported_once() {
    let walk = vec![
        dir("/a", vec![file("/a/1.png", &PNG_HEADER)]),
        dir("/a", vec![file("/a/1.png", &PNG_HEADER)]),
    ];
    let events = flatten_and_add_paths(&walk, KnownFolderSet::new());
    assert_eq!(discovered_paths(&events), vec!["/a".to_string()]);
}

#[test]
fn empty_root_path_is_refused() {
    let walk = photos();
    match begin_scan(&String::new(), &walk, KnownFolderSet::new()) {
        Err(error) => assert_eq!(error, ScanError::EmptyRootPath),
        Ok(_) => panic!("an empty root path was taken"),
    }
    match begin_scan(&String::new(), &Vec::new(), KnownFolderSet::new()) {
        Err(error) => assert_eq!(error, ScanError::EmptyRootPath),
        Ok(_) => panic!("an empty root path was taken"),
    }
}

#[test]
fn missing_root_is_refused() {
    match begin_scan(&"/nowhere".to_string(), &Vec::new(), KnownFolderSet::new()) {
        Err(error) => assert_eq!(error, ScanError::RootNotFound),
        Ok(_) => panic!("a root that is not there was taken"),
    }
    match begin_scan(&"/nowhere".to_string(), &photos(), KnownFolderSet::new()) {
        Err(error) => assert_eq!(error, ScanError::RootNotFound),
        Ok(_) => panic!("a walk of another tree was taken"),
    }
}

#[test]
fn root_that_is_a_file_yields_nothing() {
    let walk = vec![plain_file("/photo.png")];
    let events = begin_scan(&"/photo.png".to_string(), &walk, KnownFolderSet::new()).unwrap();
    assert_eq!(events.len(), 1);
    assert!(completed(&events).is_empty());
}

#[test]
fn covers_skip_what_cannot_be_read() {
    let events = generate_covers(4, &vec![None, None]);
    assert!(events.is_empty());
    assert!(generate_covers(0, &Vec::new()).is_empty());
}

#[test]
fn known_folder_set_grows_only() {
    let mut known = KnownFolderSet::new();
    assert!(known.is_empty());
    assert_eq!(known.len(), 0);
    assert!(known.insert("/a".to_string()));
    assert!(known.insert("/b".to_string()));
    assert!(!known.insert("/a".to_string()));
    assert_eq!(known.len(), 2);
    assert!(known.contains(&"/a".to_string()));
    assert!(known.contains(&"/b".to_string()));
    assert!(!known.contains(&"/c".to_string()));
    assert!(!known.contains(&"/A".to_string()));
    assert_eq!(known.paths(), &vec!["/a".to_string(), "/b".to_string()]);
    let copy = known.clone();
    assert_eq!(copy.len(), 2);
    assert!(copy.contains(&"/b".to_string()));
}

#[test]
fn nothing_below_a_pruned_directory_is_visited() {
    let walk = vec![
        dir("/r", vec![subdir("/r/x"), subdir("/r/z")]),
        unopened("/r/x"),
        dir("/r/x/y", vec![file("/r/x/y/1.png", &PNG_HEADER)]),
        dir("/r/x/y/deep", vec![file("/r/x/y/deep/2.png", &PNG_HEADER)]),
        dir("/r/z", vec![file("/r/z/3.jpg", &JPEG_HEADER)]),
    ];
    let events = flatten_and_add_paths(&walk, KnownFolderSet::new());
    assert_eq!(discovered_paths(&events), vec!["/r/z".to_string()]);
    let known = completed(&events);
    assert_eq!(known.len(), 1);
    assert!(!known.contains(&"/r/x/y".to_string()));
}

#[test]
fn a_pruned_root_ends_the_scan_empty() {
    let walk = vec![
        dir("/r", vec![]),
        dir("/r/a", vec![file("/r/a/1.png", &PNG_HEADER)]),
    ];
    let events = flatten_and_add_paths(&walk, KnownFolderSet::new());
    assert_eq!(events.len(), 1);
    assert!(completed(&events).is_empty());
}

#[test]
fn a_file_in_the_walk_prunes_nothing_beside_it() {
    let walk = vec![
        dir("/r", vec![file("/r/notes.txt", &TEXT_HEADER), subdir("/r/a")]),
        plain_file("/r/notes.txt"),
        dir("/r/a", vec![file("/r/a/1.png", &PNG_HEADER), subdir("/r/a/b")]),
        plain_file("/r/a/1.png"),
        dir("/r/a/b", vec![file("/r/a/b/2.png", &PNG_HEADER)]),
    ];
    let mut scanner = FolderScanner::new(KnownFolderSet::new());
    let found: Vec<String> =
        walk.iter().filter_map(|entry| scanner.visit(entry)).map(|folder| folder.path).collect();
    assert_eq!(found, vec!["/r/a".to_string(), "/r/a/b".to_string()]);
    assert_eq!(scanner.finish().len(), 2);
}

#[test]
fn the_walk_goes_on_after_coming_back_up() {
    let walk = vec![
        dir("/r", vec![subdir("/r/a"), subdir("/r/b")]),
        dir("/r/a", vec![subdir("/r/a/e")]),
        dir("/r/a/e", vec![]),
        dir("/r/a/f", vec![file("/r/a/f/1.png", &PNG_HEADER)]),
        dir("/r/b", vec![file("/r/b/2.jpg", &JPEG_HEADER)]),
    ];
    let events = flatten_and_add_paths(&walk, KnownFolderSet::new());
    assert_eq!(discovered_paths(&events), vec!["/r/a/f".to_string(), "/r/b".to_string()]);
}
