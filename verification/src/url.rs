//! Identity of a repository by its remote URL: the normal form under which
//! two URLs denote the same repository, the local path that mirrors a URL,
//! and the owner named in a URL.

use crate::text::{
    chars_of, concat3, ends_with, find_char, index_of, is_white_space, lemma_index_of,
    lemma_index_of_from, lemma_index_of_take, lemma_matches_at_start,
    lemma_strip_suffix_is_head, lemma_trim_end_is_head, lemma_strip_suffix_behind, lemma_trim_end_behind,
    lemma_strip_suffix_keeps_start, lemma_trim_end_keeps_start, lemma_trim_start_before,
    lemma_trim_start_is_tail, lemma_trim_start_starts_clean, lowercase, match_at, pieces, push_all,
    split, split_on, starts_clean, starts_with, string_of, strip_prefix_all, strip_suffix_all, subvec, trim,
    trim_end, trim_end_matches, trim_start, trim_start_matches, trimmed, unicode_lowercase,
};
use vstd::prelude::*;

verus! {

/// The normal form of a remote URL: surrounding white space removed, every
/// trailing `.git` removed, the SSH form rewritten to the HTTPS form, and
/// the whole lower-cased. Two URLs denote the same repository exactly when
/// their normal forms are equal.
pub open spec fn normalized_url(url: Seq<char>) -> Seq<char> {
    unicode_lowercase(rewritten_url(url))
}

/// The host of a URL in the SSH form `git@host:path`: what stands between
/// `git@` and the first colon, if that is not empty and holds no slash.
/// `None` for a text that is not of this form.
pub open spec fn ssh_host(s: Seq<char>) -> Option<Seq<char>> {
    if starts_with(s, "git@"@) {
        let rest = s.skip(4);
        let colon = index_of(rest, ':');
        if 0 < colon < rest.len() && index_of(rest, '/') > colon {
            Some(rest.take(colon))
        } else {
            None
        }
    } else {
        None
    }
}

/// A URL of the SSH form `git@host:path` as `https://host/path`, for any
/// host; any other text as it is.
pub open spec fn ssh_rewritten(s: Seq<char>) -> Seq<char> {
    match ssh_host(s) {
        Some(host) => "https://"@ + host + "/"@ + s.skip((host.len() + 5) as int),
        None => s,
    }
}

/// The URL before case folding: trimmed, without trailing `.git`, and with
/// the SSH form rewritten to the HTTPS form.
pub open spec fn rewritten_url(url: Seq<char>) -> Seq<char> {
    ssh_rewritten(strip_suffix_all(trimmed(url), ".git"@))
}

/// Rewrites the SSH form `git@host:path` to `https://host/path`.
pub fn rewrite_ssh(v: &Vec<char>) -> (r: Vec<char>)
    ensures
        r@ == ssh_rewritten(v@),
{
    let prefix = chars_of("git@");
    proof {
        reveal_strlit("git@");
        reveal_strlit("https://");
        reveal_strlit("/");
        assert(v@.take(v.len() as int) =~= v@);
        lemma_matches_at_start(v@, prefix@);
        assert(v@.subrange(0, v.len() as int) =~= v@);
    }
    if !match_at(v, v.len(), &prefix, 0) {
        return subvec(v, 0, v.len());
    }
    let colon = find_char(v, 4, ':');
    let slash = find_char(v, 4, '/');
    if colon > 4 && colon < v.len() && slash > colon {
        let mut out = chars_of("https://");
        let host = subvec(v, 4, colon);
        let path = subvec(v, colon + 1, v.len());
        push_all(&mut out, &host);
        out.push('/');
        push_all(&mut out, &path);
        proof {
            let rest = v@.skip(4);
            assert(v@.subrange(4, colon as int) =~= rest.take(colon - 4));
            assert(v@.subrange(colon + 1, v.len() as int) =~= v@.skip(colon + 1));
            assert("/"@ =~= seq!['/']);
            assert(out@ =~= "https://"@ + rest.take(colon - 4) + "/"@ + v@.skip(colon + 1));
        }
        out
    } else {
        subvec(v, 0, v.len())
    }
}

/// Trims a remote URL, removes every trailing `.git`, and rewrites the SSH
/// form to the HTTPS form. What is left to do for the normal form is to
/// lower-case the result.
pub fn rewrite_url(url: &str) -> (r: String)
    ensures
        r@ == rewritten_url(url@),
{
    let chars = chars_of(url);
    let trimmed = trim(&chars);
    let suffix = chars_of(".git");
    let stripped = trim_end_matches(&trimmed, &suffix);
    let rewritten = rewrite_ssh(&stripped);
    string_of(&rewritten)
}

/// Brings a remote URL into its normal form.
pub fn normalize_github_url(url: &str) -> (r: String)
    ensures
        r@ == normalized_url(url@),
{
    let text = rewrite_url(url);
    lowercase(text.as_str())
}

/// A URL in normal form without its scheme.
pub open spec fn without_scheme(normal: Seq<char>) -> Seq<char> {
    strip_prefix_all(strip_prefix_all(normal, "https://"@), "http://"@)
}

/// The local path that mirrors a URL in normal form below `root`: the
/// root, a slash, and the URL without its scheme.
pub open spec fn ghq_path_of(root: Seq<char>, normal: Seq<char>) -> Seq<char> {
    root + "/"@ + without_scheme(normal)
}

/// The local path that mirrors `url` below `root`: the root, a slash, and
/// the normal form of the URL without its scheme.
pub open spec fn ghq_path(root: Seq<char>, url: Seq<char>) -> Seq<char> {
    ghq_path_of(root, normalized_url(url))
}

/// Computes the path below `root` at which a clone belongs whose URL has
/// the normal form `normal`.
pub fn ghq_path_for(root: &str, normal: &str) -> (r: String)
    ensures
        r@ == ghq_path_of(root@, normal@),
{
    let chars = chars_of(normal);
    let https = chars_of("https://");
    let http = chars_of("http://");
    let a = trim_start_matches(&chars, &https);
    let b = trim_start_matches(&a, &http);
    let path = string_of(&b);
    concat3(root, "/", path.as_str())
}

/// Computes the path below `root` at which a clone of `url` belongs.
pub fn get_ghq_path(root: &str, url: &str) -> (r: String)
    ensures
        r@ == ghq_path(root@, url@),
{
    let normalized = normalize_github_url(url);
    ghq_path_for(root, normalized.as_str())
}

/// The owner named by an SSH URL `git@host:owner/repo.git`: what stands
/// between the colon and the first slash, if the URL holds exactly one colon.
pub open spec fn ssh_owner(url: Seq<char>) -> Option<Seq<char>> {
    let parts = split_on(url, ':');
    if parts.len() == 2 {
        Some(split_on(strip_suffix_all(parts[1], ".git"@), '/')[0])
    } else {
        None
    }
}

/// The owner named by an HTTP(S) URL `https://host/owner/repo`: the second
/// segment after the scheme, if there is one.
pub open spec fn http_owner(url: Seq<char>) -> Option<Seq<char>> {
    let segments = split_on(strip_prefix_all(strip_prefix_all(url, "https://"@), "http://"@), '/');
    if segments.len() >= 2 {
        Some(segments[1])
    } else {
        None
    }
}

/// The owner that a remote URL names, for the SSH and the HTTP(S) form.
pub open spec fn url_owner(url: Seq<char>) -> Option<Seq<char>> {
    if starts_with(url, "git@"@) && ssh_owner(url) is Some {
        ssh_owner(url)
    } else if starts_with(url, "http"@) {
        http_owner(url)
    } else {
        None
    }
}

/// Reads the owner out of a remote URL. `None` where the URL has neither
/// the SSH form with one colon nor an HTTP(S) form with a host and a path.
pub fn parse_owner_from_url(url: &str) -> (r: Option<String>)
    ensures
        r.deep_view() == url_owner(url@),
{
    let chars = chars_of(url);
    let git_at = chars_of("git@");
    proof {
        assert(chars@.take(chars.len() as int) =~= chars@);
        lemma_matches_at_start(chars@, git_at@);
    }
    if match_at(&chars, chars.len(), &git_at, 0) {
        let parts = split(&chars, ':');
        if parts.len() == 2 {
            let suffix = chars_of(".git");
            let path = trim_end_matches(&parts[1], &suffix);
            let segments = split(&path, '/');
            proof {
                assert(pieces(parts@)[1] == parts@[1]@);
                assert(pieces(segments@)[0] == segments@[0]@);
            }
            return Some(string_of(&segments[0]));
        }
    }
    let http = chars_of("http");
    proof {
        lemma_matches_at_start(chars@, http@);
    }
    if match_at(&chars, chars.len(), &http, 0) {
        let https_scheme = chars_of("https://");
        let http_scheme = chars_of("http://");
        let a = trim_start_matches(&chars, &https_scheme);
        let b = trim_start_matches(&a, &http_scheme);
        let segments = split(&b, '/');
        if segments.len() >= 2 {
            proof {
                assert(pieces(segments@)[1] == segments@[1]@);
            }
            return Some(string_of(&segments[1]));
        }
    }
    None
}

/// The first piece of `s` when split at `sep`.
pub open spec fn first_piece(s: Seq<char>, sep: char) -> Seq<char> {
    split_on(s, sep)[0]
}

/// The part of `s` before the first `sep`, or all of `s` if there is none.
pub fn first_segment(s: &str, sep: char) -> (r: String)
    ensures
        r@ == first_piece(s@, sep),
{
    let chars = chars_of(s);
    let parts = split(&chars, sep);
    proof {
        assert(pieces(parts@)[0] == parts@[0]@);
    }
    string_of(&parts[0])
}


/// A text that the steps before case folding leave without white space
/// at its end: removing the trailing `.git` from the trimmed text has not
/// laid bare any white space.
pub open spec fn is_settled(url: Seq<char>) -> bool {
    let s = strip_suffix_all(trimmed(url), ".git"@);
    trim_end(s) == s
}

/// A text without surrounding white space and without trailing `.git`
/// that is not of the SSH form is left as it is.
pub proof fn plain_url_is_kept(url: Seq<char>)
    requires
        starts_clean(url),
        trim_end(url) == url,
        !ends_with(url, ".git"@),
        ssh_host(url) is None,
    ensures
        rewritten_url(url) == url,
{
    reveal_strlit(".git");
    lemma_trim_start_starts_clean(url);
}

/// The steps before case folding are idempotent on every settled text:
/// applied to their own result, they leave it as it is.
pub proof fn rewriting_is_idempotent(url: Seq<char>)
    requires
        is_settled(url),
    ensures
        rewritten_url(rewritten_url(url)) == rewritten_url(url),
{
    reveal_strlit(".git");
    reveal_strlit("git@");
    reveal_strlit("https://");
    reveal_strlit("/");
    let git = ".git"@;
    let s = strip_suffix_all(trimmed(url), git);
    lemma_trim_start_starts_clean(url);
    lemma_trim_end_keeps_start(trim_start(url));
    lemma_strip_suffix_keeps_start(trimmed(url), git);
    lemma_trim_end_keeps_start(s);
    let w = ssh_rewritten(s);
    match ssh_host(s) {
        None => {
            plain_url_is_kept(s);
        },
        Some(host) => {
            let tail = s.skip((host.len() + 5) as int);
            let head = "https://"@ + host + "/"@;
            assert(w =~= head + tail);
            assert(head.len() == host.len() + 9);
            assert(head.last() == '/');
            assert(w[0] == 'h');
            assert(s.len() > 0 && !is_white_space(s.last()));
            if tail.len() > 0 {
                assert(w.last() == s.last());
            } else {
                assert(w.last() == '/');
            }
            assert(trim_end(w) == w);
            assert(!ends_with(w, git)) by {
                if ends_with(w, git) {
                    let end = w.skip(w.len() - 4);
                    if tail.len() >= 4 {
                        assert(s.skip(s.len() - 4) =~= end);
                    } else {
                        assert(end[3 - tail.len()] == head.last());
                    }
                }
            }
            assert(!starts_with(w, "git@"@)) by {
                if starts_with(w, "git@"@) {
                    assert(w.take(4)[0] == 'g');
                }
            }
            plain_url_is_kept(w);
        },
    }
}

/// A front piece of a text that is not of the SSH form is not of the SSH
/// form either.
pub proof fn lemma_front_is_no_ssh_form(s: Seq<char>, k: int)
    requires
        0 <= k <= s.len(),
        ssh_host(s) is None,
    ensures
        ssh_host(s.take(k)) is None,
{
    reveal_strlit("git@");
    let x = s.take(k);
    if starts_with(x, "git@"@) {
        assert(s.take(4) =~= x.take(4));
        let rest = s.skip(4);
        assert(x.skip(4) =~= rest.take(k - 4));
        lemma_index_of_take(rest, ':', k - 4);
        lemma_index_of_take(rest, '/', k - 4);
        lemma_index_of(rest, ':');
        lemma_index_of(rest, '/');
    }
}

/// On a text that is not settled the steps before case folding are not
/// idempotent: applied to their own result, they remove the white space
/// that the first pass has laid bare.
pub proof fn rewriting_changes_unsettled(url: Seq<char>)
    requires
        !is_settled(url),
    ensures
        rewritten_url(rewritten_url(url)).len() < rewritten_url(url).len(),
        rewritten_url(rewritten_url(url)) != rewritten_url(url),
{
    reveal_strlit(".git");
    reveal_strlit("git@");
    reveal_strlit("https://");
    reveal_strlit("/");
    let git = ".git"@;
    let s = strip_suffix_all(trimmed(url), git);
    lemma_trim_start_starts_clean(url);
    lemma_trim_end_keeps_start(trim_start(url));
    lemma_strip_suffix_keeps_start(trimmed(url), git);
    assert(s.len() > 0 && is_white_space(s.last()));
    let w = ssh_rewritten(s);
    match ssh_host(s) {
        None => {},
        Some(host) => {
            let rest = s.skip(4);
            let tail = s.skip((host.len() + 5) as int);
            lemma_index_of(rest, ':');
            assert(rest[host.len() as int] == ':');
            assert(w =~= "https://"@ + host + "/"@ + tail);
            if tail.len() == 0 {
                assert(s.last() == rest[host.len() as int]);
            }
            assert(w.last() == s.last());
            assert(w[0] == 'h');
        },
    }
    assert(w.len() > 0 && is_white_space(w.last()));
    assert(starts_clean(w));
    lemma_trim_start_starts_clean(w);
    lemma_trim_end_is_head(w);
    lemma_strip_suffix_is_head(trim_end(w), git);
    let x = strip_suffix_all(trimmed(w), git);
    assert(x =~= w.take(x.len() as int));
    match ssh_host(s) {
        None => {
            lemma_front_is_no_ssh_form(w, x.len() as int);
        },
        Some(host) => {
            if starts_with(x, "git@"@) {
                assert(x.take(4)[0] == w[0]);
            }
        },
    }
    assert(rewritten_url(w) == x);
}

/// The steps before case folding are idempotent on the settled texts, and
/// on no others.
pub proof fn rewriting_is_idempotent_exactly_when_settled(url: Seq<char>)
    ensures
        rewritten_url(rewritten_url(url)) == rewritten_url(url) <==> is_settled(url),
{
    if is_settled(url) {
        rewriting_is_idempotent(url);
    } else {
        rewriting_changes_unsettled(url);
    }
}

/// A text that may be the host of a URL: not empty, without colon or slash.
pub open spec fn is_host(host: Seq<char>) -> bool {
    &&& host.len() > 0
    &&& forall|i: int| 0 <= i < host.len() ==> #[trigger] host[i] != ':' && host[i] != '/'
}

/// What the steps before case folding make of a URL in the SSH form: the
/// HTTPS form of the same host, with the path trimmed at its end and
/// without trailing `.git`.
pub proof fn ssh_form_is_rewritten(host: Seq<char>, rest: Seq<char>)
    requires
        is_host(host),
    ensures
        rewritten_url("git@"@ + host + ":"@ + rest) == "https://"@ + host + "/"@
            + strip_suffix_all(trim_end(rest), ".git"@),
{
    reveal_strlit("git@");
    reveal_strlit("https://");
    reveal_strlit(".git");
    reveal_strlit(":");
    reveal_strlit("/");
    let git = ".git"@;
    let head = "git@"@ + host + ":"@;
    let tail = strip_suffix_all(trim_end(rest), git);
    assert(head.last() == ':');
    assert("git@"@ + host + ":"@ + rest =~= head + rest);
    assert(trim_start(head + rest) == head + rest) by {
        assert((head + rest)[0] == 'g');
    }
    lemma_trim_end_behind(head, rest);
    lemma_strip_suffix_behind(head, trim_end(rest), git);
    let s = head + tail;
    assert(s.take(4) =~= "git@"@);
    let after = s.skip(4);
    assert(after =~= host + ":"@ + tail);
    assert forall|i: int| 0 <= i < host.len() implies after[i] != ':' && after[i] != '/' by {
        assert(after[i] == host[i]);
    }
    lemma_index_of_from(after, ':', host.len() as int);
    lemma_index_of_from(after, '/', host.len() as int);
    assert(after.skip(host.len() as int)[0] == ':');
    lemma_index_of(after.skip(host.len() as int), '/');
    assert(index_of(after, ':') == host.len());
    assert(index_of(after, '/') > host.len()) by {
        let beyond = after.skip(host.len() as int);
        if index_of(beyond, '/') == 0 {
            assert(beyond[0] == '/');
        }
    }
    assert(after.take(host.len() as int) =~= host);
    assert(s.skip((host.len() + 5) as int) =~= tail);
}

/// What the steps before case folding make of a URL in the HTTPS form: the
/// same, with the path trimmed at its end and without trailing `.git`.
pub proof fn https_form_is_kept(host: Seq<char>, rest: Seq<char>)
    ensures
        rewritten_url("https://"@ + host + "/"@ + rest) == "https://"@ + host + "/"@
            + strip_suffix_all(trim_end(rest), ".git"@),
{
    reveal_strlit("git@");
    reveal_strlit("https://");
    reveal_strlit(".git");
    reveal_strlit("/");
    let git = ".git"@;
    let head = "https://"@ + host + "/"@;
    assert(head.last() == '/');
    assert("https://"@ + host + "/"@ + rest =~= head + rest);
    assert(trim_start(head + rest) == head + rest) by {
        assert((head + rest)[0] == 'h');
    }
    lemma_trim_end_behind(head, rest);
    lemma_strip_suffix_behind(head, trim_end(rest), git);
    let s = head + strip_suffix_all(trim_end(rest), git);
    assert(!starts_with(s, "git@"@)) by {
        if starts_with(s, "git@"@) {
            assert(s.take(4)[0] == 'g');
        }
    }
}

/// The SSH form and the HTTPS form of a repository have the same normal
/// form, for every host and whatever follows the host.
pub proof fn ssh_and_https_forms_agree(host: Seq<char>, rest: Seq<char>)
    requires
        is_host(host),
    ensures
        normalized_url("git@"@ + host + ":"@ + rest) == normalized_url(
            "https://"@ + host + "/"@ + rest,
        ),
{
    ssh_form_is_rewritten(host, rest);
    https_form_is_kept(host, rest);
}

/// A trailing `.git` does not change the normal form of a URL that has no
/// white space at its end.
pub proof fn git_suffix_is_ignored(url: Seq<char>)
    requires
        url.len() == 0 || !is_white_space(url.last()),
    ensures
        rewritten_url(url + ".git"@) == rewritten_url(url),
        normalized_url(url + ".git"@) == normalized_url(url),
{
    reveal_strlit(".git");
    let git = ".git"@;
    if url.len() == 0 {
        assert(url + git =~= git);
        assert(trim_start(git) == git);
        assert(trim_end(git) == git);
        assert(ends_with(git, git)) by {
            assert(git.skip(0) =~= git);
        }
        assert(git.take(0) =~= url);
    } else {
        lemma_trim_start_before(url, git);
        lemma_trim_start_is_tail(url);
        let body = trim_start(url);
        let k = choose|k: int| 0 <= k <= url.len() && trim_start(url) == #[trigger] url.skip(k);
        assert(trim_end(body) == body);
        let whole = body + git;
        assert(trim_end(whole) == whole);
        assert(whole.skip(whole.len() - git.len()) =~= git);
        assert(whole.take(whole.len() - git.len()) =~= body);
    }
}

} // verus!
