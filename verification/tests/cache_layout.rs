use texcreate::dir::{find, join, CachedFile, Catalog, Dir, FsAction};
use texcreate::error::Error;
use texcreate::manifest::Manifest;
use texcreate::version::Version;

fn shown(plan: &[FsAction]) -> Vec<String> {
    plan.iter()
        .map(|step| match step {
            FsAction::CreateDir(path) => format!("create {path}"),
            FsAction::RemoveDirAll(path) => format!("remove {path}"),
            FsAction::WriteFile(path, bytes) => format!("write {path} ({})", bytes.len()),
        })
        .collect()
}

fn template_json() -> String {
    let metadata = texcore::Metadata::new("a", "d", "t", 11, "letterpaper", "article", true);
    texcore::template::Template::new("basic", "desc", &metadata).to_json_string()
}

fn file(path: &str, content: &str) -> CachedFile {
    CachedFile { path: path.to_string(), content: content.to_string() }
}

#[test]
fn dir_has_both_catalogs_below_its_root() {
    let dir = Dir::new("/home/ann");
    assert_eq!(dir.main_dir, "/home/ann/.texcreate");
    assert_eq!(dir.mkproj, "/home/ann/.texcreate/mkproj");
    assert_eq!(dir.custom, "/home/ann/.texcreate/custom");
    assert_eq!(dir.repo_path(), "/home/ann/.texcreate/repo.toml");
}

#[test]
fn join_puts_one_slash_between() {
    assert_eq!(join("a", "b"), "a/b");
    assert_eq!(join("", "b"), "/b");
    assert_eq!(join("a/", "b"), "a//b");
}

#[test]
fn dir_build_creates_root_then_catalogs() {
    let dir = Dir::new("/home/ann");
    assert_eq!(
        shown(&dir.build()),
        vec![
            "create /home/ann/.texcreate",
            "create /home/ann/.texcreate/mkproj",
            "create /home/ann/.texcreate/custom",
        ]
    );
}

#[test]
fn dir_clear_removes_then_creates_the_managed_catalog() {
    let dir = Dir::new("/home/ann");
    assert_eq!(
        shown(&dir.clear()),
        vec!["remove /home/ann/.texcreate/mkproj", "create /home/ann/.texcreate/mkproj"]
    );
}

#[test]
fn dir_saves_templates_and_manifest() {
    let dir = Dir::new("/home/ann");
    assert_eq!(
        shown(&[dir.save_mkproj("basic.json", b"{}".to_vec())]),
        vec!["write /home/ann/.texcreate/mkproj/basic.json (2)"]
    );
    match dir.save_repo("version = 3") {
        FsAction::WriteFile(path, bytes) => {
            assert_eq!(path, "/home/ann/.texcreate/repo.toml");
            assert_eq!(bytes, b"version = 3");
        }
        other => panic!("unexpected: {:?}", other),
    }
}

#[test]
fn template_path_goes_by_catalog() {
    let dir = Dir::new("/home/ann");
    assert_eq!(dir.template_path("basic", "managed").unwrap(), "/home/ann/.texcreate/mkproj/basic.json");
    assert_eq!(dir.template_path("mine", "custom").unwrap(), "/home/ann/.texcreate/custom/mine.json");
}

#[test]
fn template_path_refuses_other_catalogs() {
    let dir = Dir::new("/home/ann");
    for repo in ["", "mkproj", "Managed", "custom ", "remote"] {
        match dir.template_path("basic", repo) {
            Err(Error::InvalidRepo(given)) => assert_eq!(given, repo),
            other => panic!("unexpected: {:?}", other),
        }
    }
}

#[test]
fn search_finds_a_template_of_either_catalog() {
    let dir = Dir::new("/home/ann");
    let files = vec![
        file("/home/ann/.texcreate/custom/mine.json", &template_json()),
        file("/home/ann/.texcreate/mkproj/basic.json", &template_json()),
    ];
    assert_eq!(dir.search("basic", "managed", &files).unwrap().name, "basic");
    assert_eq!(dir.search("mine", "custom", &files).unwrap().description, "desc");
}

#[test]
fn search_refuses_an_unknown_catalog() {
    let dir = Dir::new("/home/ann");
    let files = vec![file("/home/ann/.texcreate/mkproj/basic.json", &template_json())];
    match dir.search("basic", "mkproj", &files) {
        Err(Error::InvalidRepo(given)) => assert_eq!(given, "mkproj"),
        other => panic!("unexpected: {:?}", other.map(|t| t.name)),
    }
}

#[test]
fn search_refuses_an_absent_template() {
    let dir = Dir::new("/home/ann");
    let files = vec![file("/home/ann/.texcreate/mkproj/basic.json", &template_json())];
    for (name, repo) in [("book", "managed"), ("basic", "custom"), ("", "managed")] {
        match dir.search(name, repo, &files) {
            Err(Error::InvalidTemplate(given)) => assert_eq!(given, name),
            other => panic!("unexpected: {:?}", other.map(|t| t.name)),
        }
    }
    match dir.search("basic", "managed", &Vec::new()) {
        Err(Error::InvalidTemplate(given)) => assert_eq!(given, "basic"),
        other => panic!("unexpected: {:?}", other.map(|t| t.name)),
    }
}

#[test]
fn search_refuses_a_file_that_holds_no_template() {
    let dir = Dir::new("/home/ann");
    let files = vec![file("/home/ann/.texcreate/mkproj/basic.json", "{ not a template")];
    match dir.search("basic", "managed", &files) {
        Err(Error::InvalidTemplate(given)) => assert_eq!(given, "basic"),
        other => panic!("unexpected: {:?}", other.map(|t| t.name)),
    }
}

#[test]
fn search_reads_the_first_file_of_a_path() {
    let dir = Dir::new("/home/ann");
    let files = vec![
        file("/home/ann/.texcreate/mkproj/basic.json", &template_json()),
        file("/home/ann/.texcreate/mkproj/basic.json", "broken"),
    ];
    assert!(dir.search("basic", "managed", &files).is_ok());
    assert_eq!(find(&files, "/home/ann/.texcreate/mkproj/basic.json"), Some(0));
    assert_eq!(find(&files, "/home/ann/.texcreate/mkproj/book.json"), None);
}

#[test]
fn manifest_is_found_among_the_files() {
    let dir = Dir::new("/home/ann");
    let files = vec![file("/home/ann/.texcreate/repo.toml", "version = 3\n[templates]\nbasic = \"desc\"")];
    assert!(dir.repo_exists(&files));
    let manifest = dir.read_repo(&files).unwrap();
    assert_eq!(manifest.version(), 3);
    assert!(manifest.template_exist("basic"));
}

#[test]
fn manifest_is_missing_from_a_new_cache() {
    let dir = Dir::new("/home/ann");
    let files = vec![file("/home/ann/.texcreate/mkproj/repo.toml", "version = 3")];
    assert!(!dir.repo_exists(&files));
    match dir.read_repo(&files) {
        Err(Error::IO(given)) => assert_eq!(given, "/home/ann/.texcreate/repo.toml"),
        other => panic!("unexpected: {:?}", other),
    }
}

#[test]
fn manifest_file_that_holds_none_is_refused() {
    let dir = Dir::new("/home/ann");
    let files = vec![file("/home/ann/.texcreate/repo.toml", "version = three")];
    assert!(dir.repo_exists(&files));
    match dir.read_repo(&files) {
        Err(Error::InvalidInput(given)) => assert_eq!(given, "version = three"),
        other => panic!("unexpected: {:?}", other),
    }
}

#[test]
fn custom_catalog_lists_files_only() {
    let dir = Dir::new("/home/ann");
    let entries = vec![
        ("custom".to_string(), true),
        ("mine.json".to_string(), false),
        ("drafts".to_string(), true),
        ("other.json".to_string(), false),
    ];
    assert_eq!(dir.read_custom_repo(&entries), vec!["mine.json", "other.json"]);
    assert_eq!(dir.read_custom_repo(&Vec::new()), Vec::<String>::new());
}

#[test]
fn manifest_names_each_template_once() {
    let templates = vec![
        ("basic".to_string(), "a plain article".to_string()),
        ("book".to_string(), "a book".to_string()),
    ];
    let manifest = Manifest::new(3, Version::new(3, 1, 0), templates).unwrap();
    assert_eq!(manifest.version(), 3);
    assert_eq!(manifest.texc_vers(), Version::new(3, 1, 0));
    assert_eq!(manifest.num(), 2);
    assert_eq!(manifest.name(1), "book");
    assert_eq!(manifest.description(0), "a plain article");
    assert!(manifest.template_exist("basic"));
    assert!(!manifest.template_exist("Basic"));
    assert!(!manifest.template_exist(""));
}

#[test]
fn manifest_refuses_a_name_given_twice() {
    let templates = vec![
        ("basic".to_string(), "one".to_string()),
        ("book".to_string(), "two".to_string()),
        ("basic".to_string(), "three".to_string()),
    ];
    assert!(Manifest::new(3, Version::new(3, 1, 0), templates).is_none());
    assert!(Manifest::new(0, Version::new(0, 0, 0), Vec::new()).is_some());
}

#[test]
fn catalog_is_read_from_its_name() {
    assert_eq!(Catalog::from_name("managed").unwrap(), Catalog::Managed);
    assert_eq!(Catalog::from_name("custom").unwrap(), Catalog::Custom);
    for name in ["", "mkproj", "MANAGED", " custom"] {
        match Catalog::from_name(name) {
            Err(Error::InvalidRepo(given)) => assert_eq!(given, name),
            other => panic!("unexpected: {:?}", other),
        }
    }
}

#[test]
fn manifest_survives_its_toml_form() {
    let templates = vec![
        ("book".to_string(), "a book\nin two lines, with a \\ and a tab\t".to_string()),
        ("basic".to_string(), "a \"plain\" article".to_string()),
        ("with space".to_string(), String::new()),
        ("quoted'name".to_string(), "it's '''here'''".to_string()),
    ];
    let manifest = Manifest::new(3, Version::new(3, 1, 0), templates).unwrap();
    let text = manifest.to_string().unwrap();
    let again = Manifest::from_string(&text).unwrap();
    assert_eq!(again.version(), manifest.version());
    assert_eq!(again.texc_vers(), manifest.texc_vers());
    assert_eq!(again.num(), manifest.num());
    for index in 0..manifest.num() {
        assert_eq!(again.name(index), manifest.name(index));
        assert_eq!(again.description(index), manifest.description(index));
        assert!(again.template_exist(manifest.name(index)));
    }
    assert_eq!(again.to_string().unwrap(), text);
}

#[test]
fn manifest_text_names_version_oldest_tool_and_templates() {
    let templates = vec![("basic".to_string(), "desc".to_string())];
    let manifest = Manifest::new(3, Version::new(3, 1, 0), templates).unwrap();
    assert_eq!(
        manifest.to_string().unwrap(),
        "version = 3\nmin_tool_version = \"3.1.0\"\n\n[templates]\nbasic = \"desc\"\n"
    );
}

#[test]
fn manifest_of_a_version_beyond_toml_is_not_written() {
    let large = Manifest::new(u64::MAX, Version::new(0, 0, 0), Vec::new()).unwrap();
    assert!(large.to_string().is_none());
    let largest = Manifest::new(i64::MAX as u64, Version::new(0, 0, 0), Vec::new()).unwrap();
    let text = largest.to_string().unwrap();
    assert_eq!(Manifest::from_string(&text).unwrap().version(), i64::MAX as u64);
}

#[test]
fn manifest_read_from_what_save_repo_writes() {
    let dir = Dir::new("/home/ann");
    let templates = vec![("basic".to_string(), "desc".to_string())];
    let manifest = Manifest::new(3, Version::new(3, 1, 0), templates).unwrap();
    let written = match dir.save_repo(&manifest.to_string().unwrap()) {
        FsAction::WriteFile(path, bytes) => file(&path, &String::from_utf8(bytes).unwrap()),
        other => panic!("unexpected: {:?}", other),
    };
    let read = dir.read_repo(&vec![written]).unwrap();
    assert_eq!(read.version(), 3);
    assert_eq!(read.texc_vers(), Version::new(3, 1, 0));
    assert_eq!(read.num(), 1);
    assert_eq!(read.name(0), "basic");
    assert_eq!(read.description(0), "desc");
}

#[test]
fn manifest_is_read_from_toml() {
    let text = "version = 3\nmin_tool_version = \"3.1.0\"\n\n[templates]\nbook = \"a book\"\nbasic = \"desc\"\n";
    let manifest = Manifest::from_string(text).unwrap();
    assert_eq!(manifest.version(), 3);
    assert_eq!(manifest.texc_vers(), Version::new(3, 1, 0));
    assert_eq!(manifest.num(), 2);
    assert!(manifest.template_exist("basic"));
    assert!(manifest.template_exist("book"));
    assert_eq!(manifest.name(0), "book");
    assert_eq!(manifest.description(0), "a book");
    assert_eq!(manifest.name(1), "basic");
    assert_eq!(manifest.description(1), "desc");
}

#[test]
fn manifest_without_an_oldest_version_works_with_every_tool() {
    let manifest = Manifest::from_string("version = 3\n[templates]\nbasic = \"desc\"\n").unwrap();
    assert_eq!(manifest.version(), 3);
    assert_eq!(manifest.texc_vers(), Version::new(0, 0, 0));
    assert!(manifest.template_exist("basic"));
}

#[test]
fn manifest_is_not_read_from_other_texts() {
    let texts = [
        "",
        "version = 3",
        "[templates]\nbasic = \"desc\"",
        "version = -1\n[templates]\n",
        "version = \"3\"\n[templates]\n",
        "version = 3\ntemplates = \"basic\"",
        "version = 3\n[templates]\nbasic = 1",
        "version = 3\nmin_tool_version = \"3.1\"\n[templates]\n",
        "version = 3\nmin_tool_version = \"new\"\n[templates]\n",
        "version = 3\n[templates\n",
        "{\"version\": 3}",
    ];
    for text in texts {
        assert!(Manifest::from_string(text).is_none(), "{text}");
    }
    assert!(Manifest::from_string("version = 0\n[templates]\n").is_some());
}
