use immichsync::watch_plan::{
    nearest_folder_id, plan_watch_folders, resolve_folder_id, FolderMap, FolderRecord, WatchMode,
    WatchPlan, WatchTarget,
};

#[test]
fn no_folders_adds_the_default_pictures_folder() {
    match plan_watch_folders(&vec![], &vec![]) {
        WatchPlan::AddDefaultFolder { label, enabled, is_network } => {
            assert_eq!(label, "Pictures");
            assert!(enabled);
            assert!(!is_network);
        }
        WatchPlan::Folders(_) => panic!("no folders were given"),
    }
}

#[test]
fn only_enabled_existing_folders_are_watched() {
    let folders = vec![
        FolderRecord { id: 1, enabled: true, watch_mode: WatchMode::Native },
        FolderRecord { id: 2, enabled: false, watch_mode: WatchMode::Native },
        FolderRecord { id: 3, enabled: true, watch_mode: WatchMode::Poll },
        FolderRecord { id: 4, enabled: true, watch_mode: WatchMode::Native },
    ];
    let exists = vec![true, true, true, false];
    match plan_watch_folders(&folders, &exists) {
        WatchPlan::Folders(t) => assert_eq!(
            t,
            vec![
                WatchTarget { index: 0, folder_id: 1, is_network: false },
                WatchTarget { index: 2, folder_id: 3, is_network: true },
            ]
        ),
        WatchPlan::AddDefaultFolder { .. } => panic!("folders were given"),
    }
}

#[test]
fn all_folders_disabled_watches_nothing() {
    let folders = vec![FolderRecord { id: 9, enabled: false, watch_mode: WatchMode::Poll }];
    match plan_watch_folders(&folders, &vec![true]) {
        WatchPlan::Folders(t) => assert!(t.is_empty()),
        WatchPlan::AddDefaultFolder { .. } => panic!("folders were given"),
    }
}

#[test]
fn folder_map_insert_get_and_replace() {
    let mut m = FolderMap::new();
    assert_eq!(m.get("/photos"), None);
    m.insert("/photos", 1);
    m.insert("/videos", 2);
    assert_eq!(m.get("/photos"), Some(1));
    assert_eq!(m.get("/videos"), Some(2));
    m.insert("/photos", 5);
    assert_eq!(m.get("/photos"), Some(5));
    assert_eq!(m.get("/photo"), None);
}

#[test]
fn file_resolves_to_its_nearest_watched_folder() {
    let mut m = FolderMap::new();
    m.insert("/home/u", 2);
    m.insert("/home/u/Pictures", 1);
    assert_eq!(resolve_folder_id("/home/u/Pictures/2024/a.jpg", &m), Some(1));
    assert_eq!(resolve_folder_id("/home/u/Documents/b.jpg", &m), Some(2));
    assert_eq!(resolve_folder_id("/srv/c.jpg", &m), None);
    assert_eq!(resolve_folder_id("/home/u", &m), None);
    assert_eq!(resolve_folder_id("", &m), None);
}

#[test]
fn nearest_folder_id_takes_the_first_known_directory() {
    let mut m = FolderMap::new();
    m.insert("/a", 1);
    m.insert("/a/b", 2);
    let chain = vec!["/a/b/c".to_string(), "/a/b".to_string(), "/a".to_string()];
    assert_eq!(nearest_folder_id(&chain, &m), Some(2));
    assert_eq!(nearest_folder_id(&vec![], &m), None);
}

#[test]
fn trailing_separators_do_not_split_keys() {
    let mut m = FolderMap::new();
    m.insert("D:\\Photos\\", 3);
    assert_eq!(m.get("D:\\Photos"), Some(3));
    assert_eq!(m.get("D:\\Photos/"), Some(3));
    m.insert("/srv/media/", 4);
    assert_eq!(m.get("/srv/media"), Some(4));
    assert_eq!(resolve_folder_id("/srv/media/2024/a.jpg", &m), Some(4));
    m.insert("/", 5);
    assert_eq!(m.get("/"), Some(5));
    assert_eq!(m.get(""), None);
    assert_eq!(m.get("D:\\Photo"), None);
}
