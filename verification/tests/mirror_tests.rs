use repo_sync::mirror::{
    derive_mirror, is_within_limit, prefixed_path, rewrite_url, MirrorError, MirrorTarget,
};
use repo_sync::remote::find_github_url;

#[test]
fn finds_address_in_remote_listing() {
    let listing = "origin\thttps://github.com/acme/widget.git (fetch)\norigin\thttps://github.com/acme/widget.git (push)\n";
    assert_eq!(
        find_github_url(listing),
        Some("https://github.com/acme/widget.git".to_string())
    );
}

#[test]
fn finds_first_of_several_addresses() {
    let listing = "a\thttps://github.com/one/first (fetch)\nb\thttps://github.com/two/second (fetch)\n";
    assert_eq!(find_github_url(listing), Some("https://github.com/one/first".to_string()));
}

#[test]
fn address_runs_to_end_of_text() {
    assert_eq!(
        find_github_url("https://github.com/acme/widget"),
        Some("https://github.com/acme/widget".to_string())
    );
}

#[test]
fn address_stops_at_any_white_space() {
    assert_eq!(
        find_github_url("x https://github.com/a/b\u{3000}tail"),
        Some("https://github.com/a/b".to_string())
    );
    assert_eq!(
        find_github_url("x https://github.com/a/b\u{a0}tail"),
        Some("https://github.com/a/b".to_string())
    );
    assert_eq!(
        find_github_url("https://github.com/a/b\ntail"),
        Some("https://github.com/a/b".to_string())
    );
}

#[test]
fn no_address_without_prefix() {
    assert_eq!(find_github_url(""), None);
    assert_eq!(find_github_url("origin\tgit@github.com:acme/widget.git (fetch)\n"), None);
    assert_eq!(find_github_url("origin\thttps://gitee.com/acme/widget (fetch)\n"), None);
    assert_eq!(find_github_url("origin\thttp://github.com/acme/widget (fetch)\n"), None);
}

#[test]
fn prefix_alone_is_no_address() {
    assert_eq!(find_github_url("https://github.com/"), None);
    assert_eq!(find_github_url("https://github.com/ acme"), None);
    assert_eq!(
        find_github_url("https://github.com/ https://github.com/x"),
        Some("https://github.com/x".to_string())
    );
}

#[test]
fn dot_in_host_is_literal() {
    assert_eq!(find_github_url("https://githubxcom/acme/widget"), None);
}

#[test]
fn mirror_of_plain_address() {
    assert_eq!(
        derive_mirror("https://github.com/acme/widget"),
        Ok(MirrorTarget {
            url: "http://localhost:8000/third-part/acme/widget".to_string(),
            path: "/third-part/acme/widget".to_string(),
        })
    );
}

#[test]
fn mirror_keeps_the_source_path_as_it_is() {
    assert_eq!(
        derive_mirror("https://github.com/acme/widget.git"),
        Ok(MirrorTarget {
            url: "http://localhost:8000/third-part/acme/widget.git".to_string(),
            path: "/third-part/acme/widget.git".to_string(),
        })
    );
}

#[test]
fn mirror_is_the_same_each_time() {
    let first = derive_mirror("https://github.com/acme/widget");
    let second = derive_mirror("https://github.com/acme/widget");
    assert_eq!(first, second);
}

#[test]
fn mirror_keeps_query_and_fragment_out_of_the_path() {
    let target = derive_mirror("https://github.com/acme/widget?tab=readme#top").unwrap();
    assert_eq!(target.path, "/third-part/acme/widget");
    assert_eq!(target.url, "http://localhost:8000/third-part/acme/widget?tab=readme#top");
}

#[test]
fn mirror_of_text_that_is_no_url() {
    assert_eq!(derive_mirror("not a url"), Err(MirrorError::NotAUrl));
    assert_eq!(derive_mirror(""), Err(MirrorError::NotAUrl));
}

#[test]
fn mirror_of_url_without_host() {
    assert_eq!(derive_mirror("mailto:someone@example.com"), Err(MirrorError::Refused));
}

#[test]
fn rewrite_replaces_each_part() {
    assert_eq!(
        rewrite_url("https://example.org/a/b", "mirror.test", "http", 8080, "/c"),
        Ok("http://mirror.test:8080/c".to_string())
    );
}

#[test]
fn rewrite_drops_the_default_port() {
    assert_eq!(
        rewrite_url("https://example.org/a", "mirror.test", "http", 80, "/a"),
        Ok("http://mirror.test/a".to_string())
    );
}

#[test]
fn rewrite_refuses_bad_host() {
    assert_eq!(
        rewrite_url("https://example.org/a", "", "http", 80, "/a"),
        Err(MirrorError::Refused)
    );
}

#[test]
fn rewrite_refuses_scheme_of_another_kind() {
    assert_eq!(
        rewrite_url("https://example.org/a", "mirror.test", "git", 80, "/a"),
        Err(MirrorError::Refused)
    );
}

#[test]
fn prefix_is_put_in_front() {
    assert_eq!(prefixed_path("/acme/widget"), "/third-part/acme/widget");
    assert_eq!(prefixed_path(""), "/third-part");
}

#[test]
fn limit_is_in_bytes() {
    assert!(is_within_limit("https://github.com/acme/widget"));
    let long = "a".repeat(0x1000_0000);
    assert!(is_within_limit(&long));
    let longer = "a".repeat(0x1000_0001);
    assert!(!is_within_limit(&longer));
    assert_eq!(derive_mirror(&longer), Err(MirrorError::TooLong));
}
