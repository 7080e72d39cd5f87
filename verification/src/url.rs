//! RTSP URLs: which are accepted, and what of one may be shown.

use crate::rtsp::GstSourceError;
use crate::text::{chars_of, string_of};
use vstd::prelude::*;
use vstd::string::*;

verus! {

/// Whether a text begins with `://`.
pub open spec fn separator_first(s: Seq<char>) -> bool {
    s.len() >= 3 && s[0] == ':' && s[1] == '/' && s[2] == '/'
}

/// Where a text first holds `://`.
pub open spec fn separator_at(s: Seq<char>) -> Option<int>
    decreases s.len(),
{
    if s.len() == 0 {
        None
    } else if separator_first(s) {
        Some(0)
    } else {
        match separator_at(s.drop_first()) {
            Some(i) => Some(i + 1),
            None => None,
        }
    }
}

/// Whether a character ends the part of a URL that names user and host.
pub open spec fn ends_authority(c: char) -> bool {
    c == '/' || c == '?' || c == '#'
}

/// How long the part of a URL is that names user and host.
pub open spec fn authority_len(s: Seq<char>) -> nat
    decreases s.len(),
{
    if s.len() == 0 || ends_authority(s.first()) {
        0
    } else {
        1 + authority_len(s.drop_first())
    }
}

/// Where a text last holds `@`.
pub open spec fn last_at_sign(s: Seq<char>) -> Option<int>
    decreases s.len(),
{
    if s.len() == 0 {
        None
    } else if s.last() == '@' {
        Some(s.len() - 1)
    } else {
        last_at_sign(s.drop_last())
    }
}

/// A URL with `***` in place of the user and the password, if it names any.
pub open spec fn redacted(url: Seq<char>) -> Seq<char> {
    match separator_at(url) {
        None => url,
        Some(i) => {
            let rest = url.skip(i + 3);
            let end = authority_len(rest) as int;
            match last_at_sign(rest.take(end)) {
                None => url,
                Some(j) => url.take(i) + "://***@"@ + rest.subrange(j + 1, end) + rest.skip(end),
            }
        },
    }
}

/// A separator lies inside the text, and no separator lies before the first one.
proof fn lemma_separator_at(s: Seq<char>)
    ensures
        separator_at(s) matches Some(i) ==> 0 <= i && i + 3 <= s.len() && separator_first(s.skip(i)),
    decreases s.len(),
{
    if s.len() > 0 && !separator_first(s) {
        lemma_separator_at(s.drop_first());
        match separator_at(s.drop_first()) {
            Some(i) => {
                assert(s.drop_first().skip(i) =~= s.skip(i + 1));
            },
            None => {},
        }
    } else if s.len() > 0 {
        assert(s.skip(0) =~= s);
    }
}

/// The first separator depends only on the text up to its end.
proof fn lemma_separator_prefix(a: Seq<char>, b: Seq<char>, i: int)
    requires
        separator_at(a) == Some(i),
        b.len() >= i + 3,
        a.take(i + 3) == b.take(i + 3),
    ensures
        separator_at(b) == Some(i),
    decreases a.len(),
{
    lemma_separator_at(a);
    assert forall|k: int| 0 <= k < i + 3 implies a[k] == b[k] by {
        assert(a.take(i + 3)[k] == a[k]);
        assert(b.take(i + 3)[k] == b[k]);
    }
    if i > 0 {
        assert(a.drop_first().take(i + 2) =~= b.drop_first().take(i + 2));
        lemma_separator_prefix(a.drop_first(), b.drop_first(), i - 1);
    }
}

/// The part that names user and host lies inside the text and holds none of its ends.
proof fn lemma_authority(s: Seq<char>)
    ensures
        authority_len(s) <= s.len(),
        forall|k: int| 0 <= k < authority_len(s) ==> !ends_authority(#[trigger] s[k]),
        authority_len(s) < s.len() ==> ends_authority(s[authority_len(s) as int]),
    decreases s.len(),
{
    if s.len() > 0 && !ends_authority(s.first()) {
        let t = s.drop_first();
        lemma_authority(t);
        assert forall|k: int| 0 <= k < authority_len(s) implies !ends_authority(
            #[trigger] s[k],
        ) by {
            if k > 0 {
                assert(s[k] == t[k - 1]);
            }
        }
    }
}

/// That length, from what the text holds.
proof fn lemma_authority_is(s: Seq<char>, n: nat)
    requires
        n <= s.len(),
        forall|k: int| 0 <= k < n ==> !ends_authority(#[trigger] s[k]),
        n < s.len() ==> ends_authority(s[n as int]),
    ensures
        authority_len(s) == n,
    decreases s.len(),
{
    if n > 0 {
        let t = s.drop_first();
        assert forall|k: int| 0 <= k < n - 1 implies !ends_authority(#[trigger] t[k]) by {
            assert(t[k] == s[k + 1]);
        }
        lemma_authority_is(t, (n - 1) as nat);
    }
}

/// The last `@` lies inside the text and none lies behind it.
proof fn lemma_last_at_sign(s: Seq<char>)
    ensures
        match last_at_sign(s) {
            Some(j) => 0 <= j < s.len() && s[j] == '@' && forall|k: int|
                j < k < s.len() ==> #[trigger] s[k] != '@',
            None => forall|k: int| 0 <= k < s.len() ==> #[trigger] s[k] != '@',
        },
    decreases s.len(),
{
    if s.len() > 0 && s.last() != '@' {
        let t = s.drop_last();
        lemma_last_at_sign(t);
        assert forall|k: int| 0 <= k < s.len() - 1 implies s[k] == t[k] by {}
    }
}

/// That place, from what the text holds.
proof fn lemma_last_at_sign_is(s: Seq<char>, j: int)
    requires
        0 <= j < s.len(),
        s[j] == '@',
        forall|k: int| j < k < s.len() ==> #[trigger] s[k] != '@',
    ensures
        last_at_sign(s) == Some(j),
    decreases s.len(),
{
    if j < s.len() - 1 {
        assert(s.last() == s[s.len() - 1]);
        lemma_last_at_sign_is(s.drop_last(), j);
    }
}

/// Credentials never reach a log: whatever user and password a URL names, what is shown of
/// it is the same, and holds `***` in their place.
pub proof fn law_credentials_are_hidden(
    head: Seq<char>,
    userinfo: Seq<char>,
    host: Seq<char>,
    tail: Seq<char>,
)
    requires
        separator_at(head + "://"@) == Some(head.len() as int),
        forall|k: int| 0 <= k < userinfo.len() ==> !ends_authority(#[trigger] userinfo[k]),
        forall|k: int|
            0 <= k < host.len() ==> !ends_authority(#[trigger] host[k]) && host[k] != '@',
        tail.len() > 0 ==> ends_authority(tail.first()),
    ensures
        redacted(head + "://"@ + userinfo + "@"@ + host + tail) == head + "://***@"@ + host + tail,
{
    reveal_strlit("://");
    reveal_strlit("@");
    reveal_strlit("://***@");
    let url = head + "://"@ + userinfo + "@"@ + host + tail;
    let i = head.len() as int;
    assert((head + "://"@).take(i + 3) =~= url.take(i + 3));
    lemma_separator_prefix(head + "://"@, url, i);
    let rest = url.skip(i + 3);
    assert(rest =~= userinfo + "@"@ + host + tail);
    let end = userinfo.len() + 1 + host.len();
    assert forall|k: int| 0 <= k < end implies !ends_authority(#[trigger] rest[k]) by {
        if k < userinfo.len() {
            assert(rest[k] == userinfo[k]);
        } else if k == userinfo.len() {
            assert(rest[k] == '@');
        } else {
            assert(rest[k] == host[k - userinfo.len() - 1]);
        }
    }
    if end < rest.len() {
        assert(rest[end as int] == tail.first());
    }
    lemma_authority_is(rest, end);
    let authority = rest.take(end as int);
    let j = userinfo.len() as int;
    assert forall|k: int| j < k < authority.len() implies #[trigger] authority[k] != '@' by {
        assert(authority[k] == host[k - j - 1]);
    }
    lemma_last_at_sign_is(authority, j);
    assert(url.take(i) =~= head);
    assert(rest.subrange(j + 1, end as int) =~= host);
    assert(rest.skip(end as int) =~= tail);
}

/// A URL that names no user is shown as it is, and so is one whose credentials are hidden
/// already.
pub proof fn law_redaction_is_stable(url: Seq<char>)
    ensures
        redacted(redacted(url)) == redacted(url),
{
    lemma_separator_at(url);
    match separator_at(url) {
        Some(i) => {
            let rest = url.skip(i + 3);
            let end = authority_len(rest) as int;
            let authority = rest.take(end);
            lemma_authority(rest);
            lemma_last_at_sign(authority);
            match last_at_sign(authority) {
                Some(j) => {
                    reveal_strlit("://");
                    reveal_strlit("@");
                    reveal_strlit("://***@");
                    let stars = seq!['*', '*', '*'];
                    let head = url.take(i);
                    let host = rest.subrange(j + 1, end);
                    let tail = rest.skip(end);
                    assert forall|k: int| 0 <= k < host.len() implies !ends_authority(
                        #[trigger] host[k],
                    ) && host[k] != '@' by {
                        assert(host[k] == rest[k + j + 1]);
                        assert(host[k] == authority[k + j + 1]);
                    }
                    if tail.len() > 0 {
                        assert(tail.first() == rest[end]);
                    }
                    assert((head + "://"@) =~= url.take(i + 3)) by {
                        assert(separator_first(url.skip(i)));
                        assert(url.skip(i)[0] == url[i]);
                        assert(url.skip(i)[1] == url[i + 1]);
                        assert(url.skip(i)[2] == url[i + 2]);
                    }
                    assert((head + "://"@).take(i + 3) =~= url.take(i + 3));
                    lemma_separator_prefix(url, head + "://"@, i);
                    law_credentials_are_hidden(head, stars, host, tail);
                    assert(head + "://"@ + stars + "@"@ + host + tail =~= redacted(url));
                },
                None => {},
            }
        },
        None => {},
    }
}

/// Where a text first holds `://`.
fn find_separator(s: &[char]) -> (r: Option<usize>)
    ensures
        match r {
            Some(i) => separator_at(s@) == Some(i as int) && i + 3 <= s@.len(),
            None => separator_at(s@) is None,
        },
{
    let n: usize = s.len();
    let mut i: usize = 0;
    proof {
        assert(s@.skip(0) =~= s@);
    }
    while i < n
        invariant
            n == s@.len(),
            i <= n,
            match separator_at(s@.skip(i as int)) {
                Some(k) => separator_at(s@) == Some(i + k),
                None => separator_at(s@) is None,
            },
        decreases n - i,
    {
        let ghost here = s@.skip(i as int);
        proof {
            assert(here.drop_first() =~= s@.skip(i + 1));
        }
        if n - i >= 3 && s[i] == ':' && s[i + 1] == '/' && s[i + 2] == '/' {
            return Some(i);
        }
        i += 1;
    }
    None
}

/// Redact the user and the password of a URL, so that credentials never reach logs or error
/// messages. A text that does not look like a URL is returned unchanged.
pub fn redact_url(url: &str) -> (r: String)
    ensures
        r@ == redacted(url@),
{
    let s: Vec<char> = chars_of(url);
    let n: usize = s.len();
    let i: usize = match find_separator(s.as_slice()) {
        Some(i) => i,
        None => return string_of(s.as_slice()),
    };
    let from: usize = i + 3;
    let ghost rest = url@.skip(from as int);
    let mut end: usize = from;
    while end < n && s[end] != '/' && s[end] != '?' && s[end] != '#'
        invariant
            n == s@.len(),
            s@ == url@,
            from <= end <= n,
            rest == url@.skip(from as int),
            forall|k: int| 0 <= k < end - from ==> !ends_authority(#[trigger] rest[k]),
        decreases n - end,
    {
        proof {
            assert(rest[end - from] == s@[end as int]);
        }
        end += 1;
    }
    proof {
        if end < n {
            assert(rest[end - from] == s@[end as int]);
        }
        lemma_authority_is(rest, (end - from) as nat);
        assert(rest.len() == n - from);
    }
    let ghost authority = rest.take(end - from);
    let mut j: usize = end;
    while j > from && s[j - 1] != '@'
        invariant
            n == s@.len(),
            s@ == url@,
            from <= j <= end <= n,
            rest == url@.skip(from as int),
            authority == rest.take(end - from),
            forall|k: int| j - from <= k < end - from ==> #[trigger] authority[k] != '@',
        decreases j - from,
    {
        proof {
            assert(authority[j - from - 1] == s@[j - 1]);
        }
        j -= 1;
    }
    proof {
        lemma_last_at_sign(authority);
    }
    if j == from {
        return string_of(s.as_slice());
    }
    proof {
        assert(authority[j - from - 1] == s@[j - 1]);
        lemma_last_at_sign_is(authority, j - from - 1);
    }
    let mut r: String = string_of(vstd::slice::slice_subrange(s.as_slice(), 0, i));
    r.append("://***@");
    r.append(string_of(vstd::slice::slice_subrange(s.as_slice(), j, n)).as_str());
    proof {
        assert(s@.subrange(0, i as int) =~= url@.take(i as int));
        assert(s@.subrange(j as int, n as int) =~= rest.subrange(j - from, end - from) + rest.skip(
            end - from,
        ));
        assert(r@ =~= redacted(url@));
    }
    r
}

/// Whether a text begins with another.
fn begins_with(s: &[char], start: &str) -> (r: bool)
    ensures
        r == start@.is_prefix_of(s@),
{
    let p: Vec<char> = chars_of(start);
    if p.len() > s.len() {
        return false;
    }
    let mut i: usize = 0;
    while i < p.len()
        invariant
            p@ == start@,
            i <= p@.len() <= s@.len(),
            forall|k: int| 0 <= k < i ==> p@[k] == s@[k],
        decreases p@.len() - i,
    {
        if p[i] != s[i] {
            proof {
                assert(p@[i as int] != s@.take(p@.len() as int)[i as int]);
            }
            return false;
        }
        i += 1;
    }
    proof {
        assert(s@.subrange(0, p@.len() as int) =~= p@);
    }
    true
}

/// ASCII white space (space, tab, line feed, form feed, carriage return) and ASCII control
/// characters.
pub open spec fn blank_or_control(c: char) -> bool {
    c <= ' ' || c == '\u{7f}'
}

/// Whether a text holds such a character.
pub open spec fn has_blank_or_control(s: Seq<char>) -> bool {
    exists|i: int| 0 <= i < s.len() && blank_or_control(#[trigger] s[i])
}

/// Why a URL is refused, if it is.
pub open spec fn url_fault(url: Seq<char>) -> Option<Seq<char>> {
    if !("rtsp://"@.is_prefix_of(url) || "rtsps://"@.is_prefix_of(url)) {
        Some("must start with rtsp:// or rtsps://"@)
    } else if has_blank_or_control(url) {
        Some("contains whitespace or control characters"@)
    } else {
        None
    }
}

/// Refuse anything that is not an `rtsp` or `rtsps` URL free of white space and control
/// characters.
pub fn check_url(url: &str) -> (r: Result<(), GstSourceError>)
    ensures
        match url_fault(url@) {
            None => r is Ok,
            Some(why) => r matches Err(GstSourceError::BadUrl { reason, url: shown }) && reason@
                == why && shown@ == redacted(url@),
        },
        r is Ok <==> ("rtsp://"@.is_prefix_of(url@) || "rtsps://"@.is_prefix_of(url@)) && forall|
            i: int,
        |
            0 <= i < url@.len() ==> #[trigger] url@[i] > ' ' && url@[i] != '\u{7f}',
        r matches Err(e) ==> (e matches GstSourceError::BadUrl { reason, url: shown } && shown@
            == redacted(url@) && reason@ == (if "rtsp://"@.is_prefix_of(url@)
            || "rtsps://"@.is_prefix_of(url@) {
            "contains whitespace or control characters"@
        } else {
            "must start with rtsp:// or rtsps://"@
        })),
{
    let s: Vec<char> = chars_of(url);
    if !(begins_with(s.as_slice(), "rtsp://") || begins_with(s.as_slice(), "rtsps://")) {
        return Err(
            GstSourceError::BadUrl {
                reason: "must start with rtsp:// or rtsps://",
                url: redact_url(url),
            },
        );
    }
    let mut i: usize = 0;
    while i < s.len()
        invariant
            s@ == url@,
            i <= s@.len(),
            "rtsp://"@.is_prefix_of(url@) || "rtsps://"@.is_prefix_of(url@),
            forall|k: int| 0 <= k < i ==> !blank_or_control(#[trigger] s@[k]),
        decreases s@.len() - i,
    {
        if s[i] <= ' ' || s[i] == '\u{7f}' {
            assert(blank_or_control(url@[i as int]));
            assert(!(url@[i as int] > ' ' && url@[i as int] != '\u{7f}'));
            return Err(
                GstSourceError::BadUrl {
                    reason: "contains whitespace or control characters",
                    url: redact_url(url),
                },
            );
        }
        i += 1;
    }
    Ok(())
}

/// Where the first separator is, from what the text holds.
proof fn lemma_separator_is(s: Seq<char>, i: int)
    requires
        0 <= i,
        i + 3 <= s.len(),
        s[i] == ':' && s[i + 1] == '/' && s[i + 2] == '/',
        forall|k: int|
            0 <= k < i ==> !(#[trigger] s[k] == ':' && s[k + 1] == '/' && s[k + 2] == '/'),
    ensures
        separator_at(s) == Some(i),
    decreases s.len(),
{
    if i > 0 {
        let t = s.drop_first();
        assert(!(s[0] == ':' && s[1] == '/' && s[2] == '/'));
        assert forall|k: int| 0 <= k < i - 1 implies !(#[trigger] t[k] == ':' && t[k + 1] == '/'
            && t[k + 2] == '/') by {
            assert(t[k] == s[k + 1]);
        }
        lemma_separator_is(t, i - 1);
    }
}

/// A text without a separator has none.
proof fn lemma_no_separator(s: Seq<char>)
    requires
        forall|k: int|
            0 <= k < s.len() - 2 ==> !(#[trigger] s[k] == ':' && s[k + 1] == '/' && s[k + 2] == '/'),
    ensures
        separator_at(s) is None,
    decreases s.len(),
{
    if s.len() > 0 {
        let t = s.drop_first();
        if s.len() >= 3 {
            assert(!(s[0] == ':' && s[1] == '/' && s[2] == '/'));
        }
        assert forall|k: int| 0 <= k < t.len() - 2 implies !(#[trigger] t[k] == ':' && t[k + 1]
            == '/' && t[k + 2] == '/') by {
            assert(t[k] == s[k + 1]);
        }
        lemma_no_separator(t);
    }
}

/// What is shown of a URL, letter by letter: behind the first `://`, whatever stands before the
/// last `@` that comes ahead of the path, the query and the fragment is replaced by `***`, and
/// nothing else changes. Where there is no such `@` nothing changes at all.
pub proof fn law_nothing_but_credentials_is_hidden(
    head: Seq<char>,
    userinfo: Seq<char>,
    host: Seq<char>,
    tail: Seq<char>,
)
    requires
        forall|k: int|
            0 <= k < head.len() ==> !(#[trigger] (head + "://"@)[k] == ':' && (head + "://"@)[k + 1]
                == '/' && (head + "://"@)[k + 2] == '/'),
        forall|k: int|
            0 <= k < userinfo.len() ==> #[trigger] userinfo[k] != '/' && userinfo[k] != '?'
                && userinfo[k] != '#',
        forall|k: int|
            0 <= k < host.len() ==> #[trigger] host[k] != '/' && host[k] != '?' && host[k] != '#'
                && host[k] != '@',
        tail.len() > 0 ==> tail[0] == '/' || tail[0] == '?' || tail[0] == '#',
    ensures
        redacted(head + "://"@ + userinfo + "@"@ + host + tail) == head + "://***@"@ + host + tail,
        redacted(head + "://"@ + host + tail) == head + "://"@ + host + tail,
{
    reveal_strlit("://");
    let start = head + "://"@;
    let i = head.len() as int;
    lemma_separator_is(start, i);
    law_credentials_are_hidden(head, userinfo, host, tail);
    let url = start + host + tail;
    assert(start.take(i + 3) =~= url.take(i + 3));
    lemma_separator_prefix(start, url, i);
    let rest = url.skip(i + 3);
    assert(rest =~= host + tail);
    assert forall|k: int| 0 <= k < host.len() implies !ends_authority(#[trigger] rest[k]) by {
        assert(rest[k] == host[k]);
    }
    if host.len() < rest.len() {
        assert(rest[host.len() as int] == tail[0]);
    }
    lemma_authority_is(rest, host.len());
    let authority = rest.take(host.len() as int);
    assert(authority =~= host);
    lemma_last_at_sign(authority);
}

/// A text that holds no `://` is no URL and is shown as it is.
pub proof fn law_other_texts_are_shown_as_they_are(text: Seq<char>)
    requires
        forall|k: int|
            0 <= k < text.len() - 2 ==> !(#[trigger] text[k] == ':' && text[k + 1] == '/' && text[k
                + 2] == '/'),
    ensures
        redacted(text) == text,
{
    lemma_no_separator(text);
}

/// A URL is accepted exactly if it begins with `rtsp://` or `rtsps://` and every character of
/// it is above the space and not the delete character.
pub proof fn law_which_urls_are_accepted(url: Seq<char>)
    ensures
        url_fault(url) is None <==> ("rtsp://"@.is_prefix_of(url) || "rtsps://"@.is_prefix_of(url))
            && forall|i: int|
            0 <= i < url.len() ==> #[trigger] url[i] > ' ' && url[i] != '\u{7f}',
        url_fault(url) matches Some(why) ==> why == (if "rtsp://"@.is_prefix_of(url)
            || "rtsps://"@.is_prefix_of(url) {
            "contains whitespace or control characters"@
        } else {
            "must start with rtsp:// or rtsps://"@
        }),
{
    if has_blank_or_control(url) {
        let i = choose|i: int| 0 <= i < url.len() && blank_or_control(#[trigger] url[i]);
        assert(!(url[i] > ' ' && url[i] != '\u{7f}'));
    } else {
        assert forall|i: int| 0 <= i < url.len() implies #[trigger] url[i] > ' ' && url[i]
            != '\u{7f}' by {
            assert(!blank_or_control(url[i]));
        }
    }
}

} // verus!
