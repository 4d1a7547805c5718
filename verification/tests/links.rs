use texcreate::repo::{gh_link, latest_link, repo_link};

#[test]
fn gh_link_names_release_and_template() {
    assert_eq!(
        gh_link(3, "basic"),
        "https://github.com/MKProj/mkproj_texcgen/releases/download/v3/basic.json"
    );
}

#[test]
fn gh_link_writes_large_numbers_in_full() {
    assert_eq!(
        gh_link(u64::MAX, "x"),
        "https://github.com/MKProj/mkproj_texcgen/releases/download/v18446744073709551615/x.json"
    );
}

#[test]
fn gh_link_of_release_zero() {
    assert_eq!(
        gh_link(0, ""),
        "https://github.com/MKProj/mkproj_texcgen/releases/download/v0/.json"
    );
}

#[test]
fn repo_link_names_release() {
    assert_eq!(
        repo_link(12),
        "https://github.com/MKProj/mkproj_texcgen/releases/download/v12/repo.toml"
    );
}

#[test]
fn repo_link_of_a_round_number() {
    assert_eq!(
        repo_link(100),
        "https://github.com/MKProj/mkproj_texcgen/releases/download/v100/repo.toml"
    );
}

#[test]
fn latest_link_is_fixed() {
    assert_eq!(latest_link(), "https://texcreate.mkproj.com/repo/latest");
}
