use texcreate::dir::{CachedFile, Dir};
use texcreate::error::Error;
use texcreate::manifest::Manifest;
use texcreate::repo::{
    check_for_update, get_latest_num, manifest_link, read_latest_num, repo_display, update_alert,
};
use texcreate::text::parse_u64;
use texcreate::version::Version;

fn cache_of(content: &str) -> Vec<CachedFile> {
    vec![CachedFile {
        path: "/home/ann/.texcreate/repo.toml".to_string(),
        content: content.to_string(),
    }]
}

fn cache(version: u64) -> Vec<CachedFile> {
    cache_of(&format!("version = {version}\n\n[templates]\nbasic = \"desc\"\n"))
}

#[test]
fn update_alert_is_silent_for_the_same_version() {
    assert_eq!(update_alert(Some(2), Some(2)), None);
}

#[test]
fn update_alert_tells_of_a_newer_version() {
    let banner = update_alert(Some(2), Some(5)).unwrap();
    assert!(banner.contains("v5"));
    assert_eq!(
        banner,
        "----------------------------------\n| Update to the latest repo: v5! |\n----------------------------------"
    );
}

#[test]
fn update_alert_rules_are_as_long_as_the_line() {
    let banner = update_alert(Some(0), Some(1234)).unwrap();
    let lines: Vec<&str> = banner.split('\n').collect();
    assert_eq!(lines.len(), 3);
    assert_eq!(lines[1], "| Update to the latest repo: v1234! |");
    assert_eq!(lines[0].len(), lines[1].len());
    assert_eq!(lines[0], lines[2]);
    assert!(lines[0].chars().all(|c| c == '-'));
}

#[test]
fn update_alert_is_silent_for_an_older_version() {
    assert_eq!(update_alert(Some(5), Some(2)), None);
}

#[test]
fn update_alert_is_silent_without_a_cache() {
    assert_eq!(update_alert(None, Some(5)), None);
}

#[test]
fn update_alert_is_silent_without_an_answer() {
    assert_eq!(update_alert(Some(2), None), None);
}

#[test]
fn update_alert_says_the_same_twice() {
    assert_eq!(update_alert(Some(2), Some(5)), update_alert(Some(2), Some(5)));
    assert_eq!(update_alert(Some(2), Some(2)), update_alert(Some(2), Some(2)));
}

#[test]
fn get_latest_num_reads_a_number_with_white_space() {
    assert!(matches!(get_latest_num(Some(" 12\n")), Ok(12)));
    assert!(matches!(get_latest_num(Some("0")), Ok(0)));
    assert!(matches!(get_latest_num(Some("+7")), Ok(7)));
    assert!(matches!(get_latest_num(Some("18446744073709551615")), Ok(u64::MAX)));
}

#[test]
fn get_latest_num_without_an_answer_is_a_timeout() {
    assert!(matches!(get_latest_num(None), Err(Error::Timeout)));
}

#[test]
fn get_latest_num_refuses_what_is_no_number() {
    for body in ["", "  ", "v3", "3.0", "-1", "1 2", "18446744073709551616"] {
        match get_latest_num(Some(body)) {
            Err(Error::InvalidInput(given)) => assert_eq!(given, body),
            other => panic!("unexpected: {:?}", other),
        }
    }
}

#[test]
fn check_for_update_compares_cache_and_remote() {
    let dir = Dir::new("/home/ann");
    assert_eq!(check_for_update(&dir, &cache(2), Some("2\n")), None);
    let banner = check_for_update(&dir, &cache(2), Some("5\n")).unwrap();
    assert!(banner.contains("v5"));
    assert_eq!(check_for_update(&dir, &cache(2), Some("5\n")), Some(banner));
    assert_eq!(check_for_update(&dir, &cache(5), Some("2\n")), None);
}

#[test]
fn check_for_update_fails_open() {
    let dir = Dir::new("/home/ann");
    assert_eq!(check_for_update(&dir, &Vec::new(), Some("5")), None);
    assert_eq!(check_for_update(&dir, &cache(2), None), None);
    assert_eq!(check_for_update(&dir, &cache(2), Some("five")), None);
    assert_eq!(check_for_update(&dir, &cache_of("no manifest"), Some("5")), None);
    assert_eq!(check_for_update(&Dir::new("/home/bo"), &cache(2), Some("5")), None);
}

#[test]
fn repo_display_shows_each_template() {
    let shown = Manifest::new(
        3,
        Version::new(3, 0, 0),
        vec![
            ("basic".to_string(), "a plain article".to_string()),
            ("book".to_string(), "a book".to_string()),
        ],
    )
    .unwrap();
    assert_eq!(
        repo_display(&shown),
        vec![
            "TexCreate Repo: v3",
            "Number of Templates: 2",
            "======TEMPLATES======",
            "=> basic: a plain article",
            "=> book: a book",
            "=====================",
        ]
    );
}

#[test]
fn repo_display_of_an_empty_manifest() {
    let shown = Manifest::new(0, Version::new(0, 0, 0), Vec::new()).unwrap();
    assert_eq!(
        repo_display(&shown),
        vec![
            "TexCreate Repo: v0",
            "Number of Templates: 0",
            "======TEMPLATES======",
            "=====================",
        ]
    );
}

#[test]
fn manifest_link_is_read_from_the_answer() {
    assert_eq!(
        manifest_link(Some("7\n")).unwrap(),
        "https://github.com/MKProj/mkproj_texcgen/releases/download/v7/repo.toml"
    );
    assert!(matches!(manifest_link(None), Err(Error::Timeout)));
    assert!(matches!(manifest_link(Some("seven")), Err(Error::InvalidInput(given)) if given == "seven"));
}

#[test]
fn get_latest_num_takes_any_white_space_away() {
    assert!(matches!(get_latest_num(Some("\u{a0}12\u{3000}")), Ok(12)));
    assert!(matches!(get_latest_num(Some("\t\r\n 7 \u{2028}\u{85}")), Ok(7)));
    assert!(matches!(get_latest_num(Some("\u{200b}7")), Err(Error::InvalidInput(_))));
}

#[test]
fn read_latest_num_reads_the_number_and_refuses_the_answer() {
    assert!(matches!(read_latest_num("12", " 12\n"), Ok(12)));
    match read_latest_num("v12", " v12\n") {
        Err(Error::InvalidInput(given)) => assert_eq!(given, " v12\n"),
        other => panic!("unexpected: {:?}", other),
    }
    assert!(matches!(read_latest_num(" 12", "12"), Err(Error::InvalidInput(_))));
}

#[test]
fn parse_u64_reads_decimal_numbers_only() {
    assert_eq!(parse_u64("0"), Some(0));
    assert_eq!(parse_u64("007"), Some(7));
    assert_eq!(parse_u64("+42"), Some(42));
    assert_eq!(parse_u64("18446744073709551615"), Some(u64::MAX));
    assert_eq!(parse_u64("000018446744073709551615"), Some(u64::MAX));
    for text in ["", "+", "-1", "++1", "1+", "12a", " 12", "12 ", "1_000", "0x10", "18446744073709551616", "99999999999999999999", "\u{ff11}\u{ff12}", "1\u{e9}"] {
        assert_eq!(parse_u64(text), None, "{text}");
        assert_eq!(parse_u64(text), text.parse::<u64>().ok(), "{text}");
    }
}
