use std::collections::BTreeMap;

use texcreate::dir::{Dir, FsAction};
use texcreate::error::Error;
use texcreate::manifest::Manifest;
use texcreate::repo::{complete, downloads, repo_update, saves, SyncAction, SyncEvent, SyncState};
use texcreate::version::Version;

const TOOL: Version = Version { major: 3, minor: 1, patch: 0 };

fn manifest_of(version: u64, min: Version, names: &[&str]) -> Manifest {
    let templates = names.iter().map(|name| (name.to_string(), "desc".to_string())).collect();
    Manifest::new(version, min, templates).unwrap()
}

fn text_of(version: u64, min: Version, names: &[&str]) -> String {
    let mut text = format!("version = {version}\n");
    text.push_str(&format!("min_tool_version = \"{}.{}.{}\"\n", min.major, min.minor, min.patch));
    text.push_str("\n[templates]\n");
    for name in names {
        text.push_str(&format!("{name} = \"desc\"\n"));
    }
    text
}

fn perform(files: &mut BTreeMap<String, Vec<u8>>, plan: &[FsAction]) {
    for step in plan {
        match step {
            FsAction::CreateDir(_) => {}
            FsAction::RemoveDirAll(dir) => {
                let below = format!("{dir}/");
                files.retain(|path, _| !path.starts_with(&below));
            }
            FsAction::WriteFile(path, bytes) => {
                files.insert(path.clone(), bytes.clone());
            }
        }
    }
}

fn plan_of(action: SyncAction) -> Vec<FsAction> {
    match action {
        SyncAction::Perform(plan) => plan,
        other => panic!("unexpected: {:?}", other),
    }
}

fn run(files: &mut BTreeMap<String, Vec<u8>>, cached: bool, version: u64, names: &[&str]) -> String {
    let dir = Dir::new("/home/ann");
    let text = text_of(version, TOOL, names);
    let (state, action) = repo_update(SyncState::Start, SyncEvent::Begin(cached), &dir, TOOL);
    assert!(matches!(action, SyncAction::Fetch(link) if link == "https://texcreate.mkproj.com/repo/latest"));
    let state = if cached {
        assert!(matches!(state, SyncState::Checking));
        let remote = SyncEvent::Remote(text.clone());
        let (state, action) = repo_update(state, remote, &dir, TOOL);
        assert!(matches!(action, SyncAction::Fetch(link) if link == "https://texcreate.mkproj.com/repo/latest"));
        state
    } else {
        state
    };
    assert!(matches!(state, SyncState::Fetching));
    let remote = SyncEvent::Remote(text);
    let (state, action) = repo_update(state, remote, &dir, TOOL);
    assert!(matches!(state, SyncState::Storing(_)));
    perform(files, &plan_of(action));
    let (state, action) = repo_update(state, SyncEvent::Done, &dir, TOOL);
    assert!(matches!(state, SyncState::Clearing(_)));
    perform(files, &plan_of(action));
    let (state, action) = repo_update(state, SyncEvent::Done, &dir, TOOL);
    assert!(matches!(state, SyncState::Downloading(_)));
    let asked = match action {
        SyncAction::Download(list) => list,
        other => panic!("unexpected: {:?}", other),
    };
    let items = asked
        .iter()
        .map(|download| (download.name.clone(), download.link.clone().into_bytes()))
        .collect();
    let (state, action) = repo_update(state, SyncEvent::Downloaded(items), &dir, TOOL);
    assert!(matches!(state, SyncState::Saving(_)));
    perform(files, &plan_of(action));
    let (state, action) = repo_update(state, SyncEvent::Done, &dir, TOOL);
    assert!(matches!(state, SyncState::Updated));
    match action {
        SyncAction::Notify(message) => message,
        other => panic!("unexpected: {:?}", other),
    }
}

#[test]
fn sync_fills_the_managed_catalog() {
    let mut files = BTreeMap::new();
    let message = run(&mut files, false, 3, &["basic"]);
    assert_eq!(message, "Successfully updated to repo v3!");
    let paths: Vec<&String> = files.keys().collect();
    assert_eq!(paths, vec!["/home/ann/.texcreate/mkproj/basic.json", "/home/ann/.texcreate/repo.toml"]);
    let stored = String::from_utf8(files["/home/ann/.texcreate/repo.toml"].clone()).unwrap();
    assert_eq!(stored, text_of(3, TOOL, &["basic"]));
    assert_eq!(Manifest::from_string(&stored).unwrap().version(), 3);
    assert_eq!(
        files["/home/ann/.texcreate/mkproj/basic.json"],
        b"https://github.com/MKProj/mkproj_texcgen/releases/download/v3/basic.json"
    );
}

#[test]
fn sync_replaces_what_an_interrupted_run_left() {
    let mut files = BTreeMap::new();
    files.insert("/home/ann/.texcreate/repo.toml".to_string(), b"version = 2\n".to_vec());
    files.insert("/home/ann/.texcreate/mkproj/old.json".to_string(), b"old".to_vec());
    files.insert("/home/ann/.texcreate/mkproj/basic.json".to_string(), b"half".to_vec());
    files.insert("/home/ann/.texcreate/custom/mine.json".to_string(), b"mine".to_vec());
    run(&mut files, true, 4, &["basic", "book", "news"]);
    let paths: Vec<&String> = files.keys().collect();
    assert_eq!(
        paths,
        vec![
            "/home/ann/.texcreate/custom/mine.json",
            "/home/ann/.texcreate/mkproj/basic.json",
            "/home/ann/.texcreate/mkproj/book.json",
            "/home/ann/.texcreate/mkproj/news.json",
            "/home/ann/.texcreate/repo.toml",
        ]
    );
    let stored = String::from_utf8(files["/home/ann/.texcreate/repo.toml"].clone()).unwrap();
    assert_eq!(Manifest::from_string(&stored).unwrap().version(), 4);
    assert_eq!(files["/home/ann/.texcreate/custom/mine.json"], b"mine");
    assert_eq!(
        files["/home/ann/.texcreate/mkproj/book.json"],
        b"https://github.com/MKProj/mkproj_texcgen/releases/download/v4/book.json"
    );
}

#[test]
fn sync_run_twice_gives_the_same_cache() {
    let mut once = BTreeMap::new();
    run(&mut once, false, 3, &["basic", "book"]);
    let mut twice = once.clone();
    run(&mut twice, true, 3, &["basic", "book"]);
    assert_eq!(once, twice);
}

#[test]
fn sync_of_an_empty_manifest_empties_the_catalog() {
    let mut files = BTreeMap::new();
    files.insert("/home/ann/.texcreate/mkproj/old.json".to_string(), b"old".to_vec());
    let message = run(&mut files, false, 0, &[]);
    assert_eq!(message, "Successfully updated to repo v0!");
    let paths: Vec<&String> = files.keys().collect();
    assert_eq!(paths, vec!["/home/ann/.texcreate/repo.toml"]);
}

#[test]
fn sync_stops_for_an_older_tool() {
    let dir = Dir::new("/home/ann");
    let (state, _) = repo_update(SyncState::Start, SyncEvent::Begin(true), &dir, TOOL);
    let remote = SyncEvent::Remote(text_of(9, Version::new(3, 2, 0), &["basic"]));
    let (state, action) = repo_update(state, remote, &dir, TOOL);
    assert!(matches!(state, SyncState::Stopped));
    match action {
        SyncAction::Abort(Error::IncompatibleVersion(running, required)) => {
            assert_eq!(running, TOOL);
            assert_eq!(required, Version::new(3, 2, 0));
        }
        other => panic!("unexpected: {:?}", other),
    }
}

#[test]
fn sync_goes_on_for_a_tool_that_is_new_enough() {
    let dir = Dir::new("/home/ann");
    for min in [Version::new(3, 1, 0), Version::new(3, 0, 9), Version::new(0, 0, 0)] {
        let remote = SyncEvent::Remote(text_of(9, min, &["basic"]));
        let (state, action) = repo_update(SyncState::Checking, remote, &dir, TOOL);
        assert!(matches!(state, SyncState::Fetching));
        assert!(matches!(action, SyncAction::Fetch(link) if link == "https://texcreate.mkproj.com/repo/latest"));
    }
}

#[test]
fn sync_does_not_check_the_tool_without_a_cache() {
    let dir = Dir::new("/home/ann");
    let (state, _) = repo_update(SyncState::Start, SyncEvent::Begin(false), &dir, TOOL);
    let remote = SyncEvent::Remote(text_of(9, Version::new(9, 0, 0), &["basic"]));
    let (state, action) = repo_update(state, remote, &dir, TOOL);
    assert!(matches!(state, SyncState::Storing(_)));
    assert!(matches!(action, SyncAction::Perform(_)));
}

#[test]
fn sync_stops_on_a_failure() {
    let dir = Dir::new("/home/ann");
    let states = [
        SyncState::Start,
        SyncState::Checking,
        SyncState::Fetching,
        SyncState::Storing(manifest_of(1, TOOL, &["basic"])),
        SyncState::Clearing(manifest_of(1, TOOL, &["basic"])),
        SyncState::Downloading(manifest_of(1, TOOL, &["basic"])),
        SyncState::Saving(manifest_of(1, TOOL, &["basic"])),
    ];
    for state in states {
        let (state, action) = repo_update(state, SyncEvent::Failed(Error::Timeout), &dir, TOOL);
        assert!(matches!(state, SyncState::Stopped));
        assert!(matches!(action, SyncAction::Abort(Error::Timeout)));
    }
}

#[test]
fn sync_stops_when_a_download_is_missing() {
    let dir = Dir::new("/home/ann");
    let state = SyncState::Downloading(manifest_of(1, TOOL, &["basic", "book"]));
    let items = vec![("basic".to_string(), b"{}".to_vec())];
    let (state, action) = repo_update(state, SyncEvent::Downloaded(items), &dir, TOOL);
    assert!(matches!(state, SyncState::Stopped));
    assert!(matches!(action, SyncAction::Abort(Error::Network(_))));
}

#[test]
fn sync_stops_on_an_event_out_of_order() {
    let dir = Dir::new("/home/ann");
    let (state, action) = repo_update(SyncState::Start, SyncEvent::Done, &dir, TOOL);
    assert!(matches!(state, SyncState::Stopped));
    assert!(matches!(action, SyncAction::Abort(Error::InvalidInput(_))));
    let (state, action) = repo_update(SyncState::Updated, SyncEvent::Done, &dir, TOOL);
    assert!(matches!(state, SyncState::Stopped));
    assert!(matches!(action, SyncAction::Abort(Error::InvalidInput(_))));
    let (state, action) = repo_update(SyncState::Stopped, SyncEvent::Begin(false), &dir, TOOL);
    assert!(matches!(state, SyncState::Stopped));
    assert!(matches!(action, SyncAction::Abort(Error::InvalidInput(_))));
}

#[test]
fn complete_wants_each_template_once_and_in_order() {
    let manifest = manifest_of(1, TOOL, &["basic", "book"]);
    let item = |name: &str| (name.to_string(), Vec::new());
    assert!(complete(&manifest, &vec![item("basic"), item("book")]));
    assert!(!complete(&manifest, &vec![item("book"), item("basic")]));
    assert!(!complete(&manifest, &vec![item("basic")]));
    assert!(!complete(&manifest, &vec![item("basic"), item("book"), item("news")]));
    assert!(!complete(&manifest, &vec![item("basic"), item("Book")]));
    assert!(complete(&manifest_of(1, TOOL, &[]), &vec![]));
}

#[test]
fn downloads_name_the_release_of_the_manifest() {
    let list = downloads(&manifest_of(7, TOOL, &["basic", "book"]));
    assert_eq!(list.len(), 2);
    assert_eq!(list[0].name, "basic");
    assert_eq!(list[0].link, "https://github.com/MKProj/mkproj_texcgen/releases/download/v7/basic.json");
    assert_eq!(list[1].name, "book");
    assert_eq!(list[1].link, "https://github.com/MKProj/mkproj_texcgen/releases/download/v7/book.json");
}

#[test]
fn saves_write_below_the_managed_catalog() {
    let dir = Dir::new("/home/ann");
    let plan = saves(&dir, &vec![("basic".to_string(), b"{}".to_vec())]);
    assert_eq!(plan.len(), 1);
    match &plan[0] {
        FsAction::WriteFile(path, bytes) => {
            assert_eq!(path, "/home/ann/.texcreate/mkproj/basic.json");
            assert_eq!(bytes, b"{}");
        }
        other => panic!("unexpected: {:?}", other),
    }
}

#[test]
fn sync_stops_on_a_text_that_holds_no_manifest() {
    let dir = Dir::new("/home/ann");
    for state in [SyncState::Checking, SyncState::Fetching] {
        let remote = SyncEvent::Remote("<html>not found</html>".to_string());
        let (state, action) = repo_update(state, remote, &dir, TOOL);
        assert!(matches!(state, SyncState::Stopped));
        assert!(matches!(
            action,
            SyncAction::Abort(Error::InvalidInput(given)) if given == "<html>not found</html>"
        ));
    }
}
