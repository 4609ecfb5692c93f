use ghall::text::chars_of;
use ghall::url::{
    first_segment, get_ghq_path, ghq_path_for, normalize_github_url, parse_owner_from_url,
    rewrite_ssh, rewrite_url,
};

#[test]
fn normalize_lowercases_trims_and_strips() {
    assert_eq!(normalize_github_url("  https://GitHub.com/Alice/Foo.git \n"), "https://github.com/alice/foo");
    assert_eq!(normalize_github_url("https://github.com/a/b.git.git"), "https://github.com/a/b");
    assert_eq!(normalize_github_url(""), "");
    assert_eq!(normalize_github_url("https://github.com/Ünï/Cödé"), "https://github.com/ünï/cödé");
}

#[test]
fn normalize_rewrites_ssh_form() {
    assert_eq!(normalize_github_url("git@github.com:alice/foo.git"), "https://github.com/alice/foo");
    assert_eq!(normalize_github_url("git@gitlab.com:alice/foo.git"), "https://gitlab.com/alice/foo");
}

#[test]
fn normalize_rewrites_ssh_form_of_any_host() {
    assert_eq!(normalize_github_url("git@example.org:Team/Tool.git"), "https://example.org/team/tool");
    assert_eq!(normalize_github_url("git@codeberg.org:a/b/c"), "https://codeberg.org/a/b/c");
    assert_eq!(normalize_github_url("  git@h:x  "), "https://h/x");
    assert_eq!(normalize_github_url("git@host:"), "https://host/");
    assert_eq!(normalize_github_url("git@host:a:b"), "https://host/a:b");
}

#[test]
fn normalize_keeps_what_is_no_ssh_form() {
    assert_eq!(normalize_github_url("git@host"), "git@host");
    assert_eq!(normalize_github_url("git@:alice/foo"), "git@:alice/foo");
    assert_eq!(normalize_github_url("git@host/a:b"), "git@host/a:b");
    assert_eq!(normalize_github_url("ssh://git@host:a/b"), "ssh://git@host:a/b");
    assert_eq!(normalize_github_url("x git@host:a/b"), "x git@host:a/b");
    assert_eq!(normalize_github_url("git@"), "git@");
}

#[test]
fn ssh_and_https_forms_agree_for_any_host() {
    for host in ["github.com", "gitlab.com", "example.org", "h", "Git.Example.ORG"] {
        for rest in ["alice/foo", "Alice/Foo.git", "a/b  ", "", ".git", "x:y/z"] {
            let ssh = format!("git@{}:{}", host, rest);
            let https = format!("https://{}/{}", host, rest);
            assert_eq!(normalize_github_url(&ssh), normalize_github_url(&https));
        }
    }
}

#[test]
fn rewrite_keeps_the_case_of_letters() {
    assert_eq!(rewrite_url(" git@GitLab.com:Alice/Foo.git "), "https://GitLab.com/Alice/Foo");
    assert_eq!(rewrite_url("https://GitHub.com/Alice/Foo.git.git"), "https://GitHub.com/Alice/Foo");
    assert_eq!(rewrite_url("Git@host:a/b"), "Git@host:a/b");
    assert_eq!(rewrite_url(""), "");
}

#[test]
fn normalize_ssh_and_https_forms_agree() {
    for rest in ["alice/foo", "Alice/Foo.git", "a/b  ", "", ".git", "x/y.git.git"] {
        let ssh = format!("git@github.com:{}", rest);
        let https = format!("https://github.com/{}", rest);
        assert_eq!(normalize_github_url(&ssh), normalize_github_url(&https));
    }
}

#[test]
fn normalize_ignores_git_suffix() {
    for url in ["https://github.com/a/b", "git@github.com:a/b", "", "x", " lead"] {
        let with = format!("{}.git", url);
        assert_eq!(normalize_github_url(&with), normalize_github_url(url));
    }
}

#[test]
fn normalize_is_idempotent_on_normal_forms() {
    for url in [
        "https://github.com/Alice/Foo.git",
        "git@github.com:a/b",
        "git@gitlab.com:A/B.git",
        "  x  ",
        "https://example.org/R",
    ] {
        let once = normalize_github_url(url);
        assert_eq!(normalize_github_url(&once), once);
    }
}

#[test]
fn normalize_is_not_idempotent_on_upper_case_suffix() {
    let once = normalize_github_url("A.GIT");
    assert_eq!(once, "a.git");
    assert_eq!(normalize_github_url(&once), "a");
}

#[test]
fn normalize_on_unusual_input() {
    assert_eq!(normalize_github_url("  Git@GitHub.com:A/B.git "), "git@github.com:a/b");
    assert_eq!(
        normalize_github_url("git@github.com:git@github.com:x"),
        "https://github.com/git@github.com:x"
    );
    assert_eq!(normalize_github_url("a.git b.git"), "a.git b");
    assert_eq!(normalize_github_url("\u{3000}A\u{a0}"), "a");
}

#[test]
fn ghq_path_mirrors_url() {
    assert_eq!(get_ghq_path("/root", "https://github.com/Alice/Foo.git"), "/root/github.com/alice/foo");
    assert_eq!(get_ghq_path("/root", "git@github.com:alice/foo"), "/root/github.com/alice/foo");
    assert_eq!(get_ghq_path("/r", "http://example.org/x"), "/r/example.org/x");
}

#[test]
fn owner_is_read_from_ssh_url() {
    assert_eq!(parse_owner_from_url("git@github.com:alice/foo.git"), Some("alice".to_string()));
    assert_eq!(parse_owner_from_url("git@github.com:alice"), Some("alice".to_string()));
    assert_eq!(parse_owner_from_url("git@github.com"), None);
    assert_eq!(parse_owner_from_url("git@a:b:c"), None);
}

#[test]
fn owner_is_read_from_https_url() {
    assert_eq!(parse_owner_from_url("https://github.com/alice/foo.git"), Some("alice".to_string()));
    assert_eq!(parse_owner_from_url("http://example.org/bob/x"), Some("bob".to_string()));
    assert_eq!(parse_owner_from_url("https://github.com"), None);
    assert_eq!(parse_owner_from_url("ftp://github.com/a/b"), None);
    assert_eq!(parse_owner_from_url(""), None);
}

#[test]
fn first_segment_stops_at_separator() {
    assert_eq!(first_segment("alice/foo", '/'), "alice");
    assert_eq!(first_segment("alice", '/'), "alice");
    assert_eq!(first_segment("/x", '/'), "");
}

#[test]
fn ghq_path_for_a_normal_form_drops_the_scheme() {
    assert_eq!(ghq_path_for("/root", "https://github.com/alice/foo"), "/root/github.com/alice/foo");
    assert_eq!(ghq_path_for("/root", "http://example.org/x"), "/root/example.org/x");
    assert_eq!(ghq_path_for("/root", "https://https://http://a"), "/root/a");
    assert_eq!(ghq_path_for("/root", "http://https://a"), "/root/https://a");
    assert_eq!(ghq_path_for("/root", "HTTPS://a/b"), "/root/HTTPS://a/b");
    assert_eq!(ghq_path_for("", ""), "/");
}

#[test]
fn ghq_path_of_ssh_url_on_any_host() {
    assert_eq!(get_ghq_path("/root", "git@gitlab.com:Alice/Foo.git"), "/root/gitlab.com/alice/foo");
}

#[test]
fn case_variants_normalize_identically() {
    let forms = [
        "https://github.com/alice/foo",
        "HTTPS://GITHUB.COM/ALICE/FOO",
        "https://GitHub.com/Alice/Foo.git",
        "git@github.com:Alice/FOO.git",
        "git@GitHub.COM:alice/foo",
    ];
    for form in forms {
        assert_eq!(normalize_github_url(form), "https://github.com/alice/foo");
    }
}

#[test]
fn rewrite_ssh_works_on_the_text_as_it_stands() {
    let text = |v: Vec<char>| v.into_iter().collect::<String>();
    assert_eq!(text(rewrite_ssh(&chars_of("git@h:x"))), "https://h/x");
    assert_eq!(text(rewrite_ssh(&chars_of("git@h:x.git "))), "https://h/x.git ");
    assert_eq!(text(rewrite_ssh(&chars_of(" git@h:x"))), " git@h:x");
    assert_eq!(text(rewrite_ssh(&chars_of("git"))), "git");
    assert_eq!(text(rewrite_ssh(&chars_of(""))), "");
}

#[test]
fn rewriting_twice_changes_nothing_on_settled_text() {
    for url in [
        "https://github.com/Alice/Foo.git",
        "git@github.com:A/b",
        "git@GitLab.com:A/B.git.git",
        "  x  ",
        "git@h:",
        "git@h:git",
        "A.GIT",
        "",
        ".git",
    ] {
        let once = rewrite_url(url);
        assert_eq!(rewrite_url(&once), once);
    }
}

#[test]
fn rewriting_is_not_idempotent_where_white_space_is_laid_bare() {
    let once = rewrite_url("x .git");
    assert_eq!(once, "x ");
    assert_eq!(rewrite_url(&once), "x");
    let once = rewrite_url("git@h:a \t.git");
    assert_eq!(once, "https://h/a \t");
    assert_eq!(rewrite_url(&once), "https://h/a");
}
