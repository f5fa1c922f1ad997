//! Which strings are video URLs.
//!
//! A supported URL begins with a scheme, an optional subdomain and a site
//! path, directly followed by at least one character of a video id. What
//! comes after that first id character is not looked at.

use crate::text::{chars_of, contains_part, holds_part, part_at, stands_at};
use vstd::prelude::*;

verus! {

/// Whether the Unicode tables of the `regex-syntax` crate list `c` as a word
/// character (UTS#18 Annex C: `Alphabetic`, `Join_Control`, `Decimal_Number`,
/// `Mark` or `Connector_Punctuation`).
pub uninterp spec fn unicode_word(c: char) -> bool;

/// `regex_syntax::is_word_character`, the class that a regular expression
/// writes `\w`. Nothing is claimed of it but that its answer depends on the
/// character alone. It panics only when the crate is built without its
/// `unicode-perl` feature, which this crate switches on.
pub assume_specification[ regex_syntax::is_word_character ](c: char) -> (r: bool)
    ensures
        r == unicode_word(c),
;

/// The ASCII word characters: digits, letters and the underscore.
pub open spec fn is_ascii_word(c: char) -> bool {
    ||| '0' <= c <= '9'
    ||| 'A' <= c <= 'Z'
    ||| 'a' <= c <= 'z'
    ||| c == '_'
}

/// A word character: an ASCII one, or beyond ASCII a Unicode one.
pub open spec fn is_word_char(c: char) -> bool {
    if (c as u32) < 0x80 {
        is_ascii_word(c)
    } else {
        unicode_word(c)
    }
}

/// A character that a video id may hold: a word character or a hyphen.
pub open spec fn is_id_char(c: char) -> bool {
    is_word_char(c) || c == '-'
}

/// The two schemes, in lower case.
pub open spec fn is_scheme(p: Seq<char>) -> bool {
    p == "http://"@ || p == "https://"@
}

/// The subdomains: none, `www.` or `m.`, before either site.
pub open spec fn is_subdomain(p: Seq<char>) -> bool {
    p == Seq::<char>::empty() || p == "www."@ || p == "m."@
}

/// The sites with the path that leads to the id: a watch page, a short
/// video, or the short-link domain.
pub open spec fn is_site(p: Seq<char>) -> bool {
    p == "youtube.com/watch?v="@ || p == "youtube.com/shorts/"@ || p == "youtu.be/"@
}

/// What stands before the video id: a scheme, then the subdomain, if any,
/// then the site with its path.
pub open spec fn is_url_head(h: Seq<char>) -> bool {
    exists|scheme: Seq<char>, sub: Seq<char>, site: Seq<char>|
        #![trigger is_scheme(scheme), is_subdomain(sub), is_site(site)]
        is_scheme(scheme) && is_subdomain(sub) && is_site(site) && h == scheme + sub + site
}

/// The supported URLs: a head, then at least one id character, then anything.
pub open spec fn supported_url(s: Seq<char>) -> bool {
    exists|h: Seq<char>|
        #![trigger is_url_head(h)]
        is_url_head(h) && h.is_prefix_of(s) && h.len() < s.len() && is_id_char(s[h.len() as int])
}

/// Where the scheme of `s` ends, if `s` begins with one.
pub open spec fn scheme_end(s: Seq<char>) -> Option<int> {
    if stands_at(s, 0, "https://"@) {
        Some("https://"@.len() as int)
    } else if stands_at(s, 0, "http://"@) {
        Some("http://"@.len() as int)
    } else {
        None
    }
}

/// Where the subdomain that begins at `at` ends; `at` itself if there is none.
pub open spec fn subdomain_end(s: Seq<char>, at: int) -> int {
    if stands_at(s, at, "www."@) {
        at + "www."@.len()
    } else if stands_at(s, at, "m."@) {
        at + "m."@.len()
    } else {
        at
    }
}

/// Where the site that begins at `at` ends, if one begins there.
pub open spec fn site_end(s: Seq<char>, at: int) -> Option<int> {
    if stands_at(s, at, "youtube.com/watch?v="@) {
        Some(at + "youtube.com/watch?v="@.len())
    } else if stands_at(s, at, "youtube.com/shorts/"@) {
        Some(at + "youtube.com/shorts/"@.len())
    } else if stands_at(s, at, "youtu.be/"@) {
        Some(at + "youtu.be/"@.len())
    } else {
        None
    }
}

/// Where the head of `s` ends, if `s` begins with one.
pub open spec fn head_end(s: Seq<char>) -> Option<int> {
    match scheme_end(s) {
        Some(a) => site_end(s, subdomain_end(s, a)),
        None => None,
    }
}

proof fn reveal_heads()
    ensures
        "http://"@ == seq!['h', 't', 't', 'p', ':', '/', '/'],
        "https://"@ == seq!['h', 't', 't', 'p', 's', ':', '/', '/'],
        "www."@ == seq!['w', 'w', 'w', '.'],
        "m."@ == seq!['m', '.'],
        "youtube.com/watch?v="@ == seq![
            'y', 'o', 'u', 't', 'u', 'b', 'e', '.', 'c', 'o', 'm', '/', 'w', 'a', 't', 'c', 'h', '?', 'v', '=',
        ],
        "youtube.com/shorts/"@ == seq![
            'y', 'o', 'u', 't', 'u', 'b', 'e', '.', 'c', 'o', 'm', '/', 's', 'h', 'o', 'r', 't', 's', '/',
        ],
        "youtu.be/"@ == seq!['y', 'o', 'u', 't', 'u', '.', 'b', 'e', '/'],
{
    reveal_strlit("http://");
    reveal_strlit("https://");
    reveal_strlit("www.");
    reveal_strlit("m.");
    reveal_strlit("youtube.com/watch?v=");
    reveal_strlit("youtube.com/shorts/");
    reveal_strlit("youtu.be/");
    assert("http://"@ =~= seq!['h', 't', 't', 'p', ':', '/', '/']);
    assert("https://"@ =~= seq!['h', 't', 't', 'p', 's', ':', '/', '/']);
    assert("www."@ =~= seq!['w', 'w', 'w', '.']);
    assert("m."@ =~= seq!['m', '.']);
    assert("youtube.com/watch?v="@ =~= seq![
        'y', 'o', 'u', 't', 'u', 'b', 'e', '.', 'c', 'o', 'm', '/', 'w', 'a', 't', 'c', 'h', '?', 'v', '=',
    ]);
    assert("youtube.com/shorts/"@ =~= seq![
        'y', 'o', 'u', 't', 'u', 'b', 'e', '.', 'c', 'o', 'm', '/', 's', 'h', 'o', 'r', 't', 's', '/',
    ]);
    assert("youtu.be/"@ =~= seq!['y', 'o', 'u', 't', 'u', '.', 'b', 'e', '/']);
}

/// The end of the head found by reading `s` from the left is the length of
/// the one head that `s` begins with.
pub proof fn lemma_head_end(s: Seq<char>)
    ensures
        forall|h: Seq<char>|
            #![trigger is_url_head(h)]
            is_url_head(h) && h.is_prefix_of(s) ==> head_end(s) == Some(h.len() as int),
        head_end(s) matches Some(n) ==> 0 <= n <= s.len() && is_url_head(s.take(n)),
{
    reveal_heads();
    assert forall|h: Seq<char>| #![trigger is_url_head(h)] is_url_head(h) && h.is_prefix_of(s)
        implies head_end(s) == Some(h.len() as int) by {
        let (scheme, sub, site) = choose|scheme: Seq<char>, sub: Seq<char>, site: Seq<char>|
            #![trigger is_scheme(scheme), is_subdomain(sub), is_site(site)]
            is_scheme(scheme) && is_subdomain(sub) && is_site(site) && h == scheme + sub + site;
        lemma_parts_stand(s, scheme, sub, site);
    }
    if let Some(n) = head_end(s) {
        let a = scheme_end(s).unwrap();
        let b = subdomain_end(s, a);
        let scheme = s.subrange(0, a);
        let sub = s.subrange(a, b);
        let site = s.subrange(b, n);
        assert(is_scheme(scheme));
        assert(is_subdomain(sub)) by {
            assert(b == a ==> sub =~= Seq::<char>::empty());
        }
        assert(is_site(site));
        assert(s.take(n) =~= scheme + sub + site);
    }
}

proof fn lemma_parts_stand(s: Seq<char>, scheme: Seq<char>, sub: Seq<char>, site: Seq<char>)
    requires
        is_scheme(scheme),
        is_subdomain(sub),
        is_site(site),
        (scheme + sub + site).is_prefix_of(s),
    ensures
        head_end(s) == Some((scheme + sub + site).len() as int),
{
    reveal_heads();
    let h = scheme + sub + site;
    let a = scheme.len() as int;
    let b = a + sub.len();
    let n = b + site.len();
    assert(h.len() == n);
    assert forall|i: int| 0 <= i < n implies s[i] == h[i] by {
        assert(s.subrange(0, n)[i] == h[i]);
    }
    assert(s.subrange(0, a) =~= scheme);
    assert(s.subrange(a, b) =~= sub);
    assert(s.subrange(b, n) =~= site);
    assert(site[0] == 'y');
    assert(s[b] == h[b]);
    assert(s[b] == 'y');
    assert(scheme_end(s) == Some(a)) by {
        assert(s[4] == h[4]);
        if scheme == "http://"@ {
            assert(s[4] == ':');
            if stands_at(s, 0, "https://"@) {
                assert(s.subrange(0, 8)[4] == 's');
            }
        }
    }
    assert(subdomain_end(s, a) == b) by {
        if stands_at(s, a, "www."@) {
            assert(s.subrange(a, a + 4)[0] == 'w');
            assert(s[a] == h[a]);
        }
        if stands_at(s, a, "m."@) {
            assert(s.subrange(a, a + 2)[0] == 'm');
            assert(s[a] == h[a]);
        }
    }
    assert(site_end(s, b) == Some(n)) by {
        assert(s[b + 5] == h[b + 5]);
        assert(s[b + 5] == site[5]);
        if stands_at(s, b, "youtube.com/watch?v="@) {
            assert(s.subrange(b, b + 20)[5] == 'b');
            assert(s.subrange(b, b + 20)[12] == 'w');
            assert(s[b + 12] == h[b + 12]);
        }
        if stands_at(s, b, "youtube.com/shorts/"@) {
            assert(s.subrange(b, b + 19)[5] == 'b');
            assert(s.subrange(b, b + 19)[12] == 's');
            assert(s[b + 12] == h[b + 12]);
        }
        if stands_at(s, b, "youtu.be/"@) {
            assert(s.subrange(b, b + 9)[5] == '.');
        }
    }
}

/// The supported URLs are the strings whose head is followed by an id
/// character.
pub proof fn lemma_supported_url(s: Seq<char>)
    ensures
        supported_url(s) <==> (head_end(s) matches Some(n) && 0 <= n < s.len() && is_id_char(s[n])),
{
    lemma_head_end(s);
    if let Some(n) = head_end(s) {
        if 0 <= n < s.len() && is_id_char(s[n]) {
            let h = s.take(n);
            assert(is_url_head(h) && h.is_prefix_of(s) && h.len() < s.len() && is_id_char(
                s[h.len() as int],
            ));
        }
    }
}

/// A head with nothing behind it is not supported: the id may not be
/// empty.
pub proof fn lemma_head_alone_is_unsupported(h: Seq<char>)
    requires
        is_url_head(h),
    ensures
        !supported_url(h),
{
    lemma_head_end(h);
    lemma_supported_url(h);
    assert(h.is_prefix_of(h));
}

/// A supported URL begins with its scheme, spelled in lower case.
pub proof fn lemma_supported_url_has_scheme(s: Seq<char>)
    requires
        supported_url(s),
    ensures
        "http://"@.is_prefix_of(s) || "https://"@.is_prefix_of(s),
{
    lemma_supported_url(s);
}

/// What follows the first id character does not matter: a supported URL
/// stays supported whatever is appended to it.
pub proof fn lemma_supported_url_extends(s: Seq<char>, tail: Seq<char>)
    requires
        supported_url(s),
    ensures
        supported_url(s + tail),
{
    let h = choose|h: Seq<char>|
        #![trigger is_url_head(h)]
        is_url_head(h) && h.is_prefix_of(s) && h.len() < s.len() && is_id_char(s[h.len() as int]);
    let t = s + tail;
    assert(t.subrange(0, h.len() as int) =~= s.subrange(0, h.len() as int));
    assert(is_url_head(h) && h.is_prefix_of(t) && h.len() < t.len() && is_id_char(
        t[h.len() as int],
    ));
}

/// A watch URL on the `www` host whose id is not empty is supported,
/// whatever stands behind the `&` that follows the id.
pub proof fn lemma_watch_url_with_parameters(id: Seq<char>, suffix: Seq<char>)
    requires
        id.len() > 0,
        forall|i: int| 0 <= i < id.len() ==> is_id_char(id[i]),
    ensures
        supported_url("https://www.youtube.com/watch?v="@ + id + "&"@ + suffix),
{
    reveal_heads();
    reveal_strlit("https://www.youtube.com/watch?v=");
    let h = "https://www.youtube.com/watch?v="@;
    assert(h =~= "https://"@ + "www."@ + "youtube.com/watch?v="@);
    assert(is_scheme("https://"@) && is_subdomain("www."@) && is_site("youtube.com/watch?v="@));
    assert(is_url_head(h));
    let s = h + id;
    assert(s.subrange(0, h.len() as int) =~= h);
    assert(s[h.len() as int] == id[0]);
    assert(is_url_head(h) && h.is_prefix_of(s) && h.len() < s.len() && is_id_char(
        s[h.len() as int],
    ));
    lemma_supported_url_extends(s, "&"@ + suffix);
    assert(s + ("&"@ + suffix) =~= h + id + "&"@ + suffix);
}

/// Where the head of `text` ends, if `text` begins with one.
fn find_head(text: &Vec<char>) -> (r: Option<usize>)
    ensures
        match r {
            Some(n) => head_end(text@) == Some(n as int),
            None => head_end(text@) is None,
        },
{
    proof {
        reveal_heads();
    }
    let after_scheme: usize = if part_at(text, 0, "https://") {
        8
    } else if part_at(text, 0, "http://") {
        7
    } else {
        return None;
    };
    let after_sub: usize = if part_at(text, after_scheme, "www.") {
        after_scheme + 4
    } else if part_at(text, after_scheme, "m.") {
        after_scheme + 2
    } else {
        after_scheme
    };
    if part_at(text, after_sub, "youtube.com/watch?v=") {
        Some(after_sub + 20)
    } else if part_at(text, after_sub, "youtube.com/shorts/") {
        Some(after_sub + 19)
    } else if part_at(text, after_sub, "youtu.be/") {
        Some(after_sub + 9)
    } else {
        None
    }
}

/// Whether a video id may hold `c`.
pub fn id_char(c: char) -> (r: bool)
    ensures
        r == is_id_char(c),
{
    let n: u32 = c as u32;
    if n < 0x80 {
        ('0' <= c && c <= '9') || ('A' <= c && c <= 'Z') || ('a' <= c && c <= 'z') || c == '_'
            || c == '-'
    } else {
        regex_syntax::is_word_character(c)
    }
}

/// The URLs of short videos: those with `/shorts/` somewhere in them.
pub open spec fn short_url(s: Seq<char>) -> bool {
    holds_part(s, "/shorts/"@)
}

/// Whether `url` is that of a short video.
pub fn is_short_url(url: &str) -> (r: bool)
    ensures
        r == short_url(url@),
{
    contains_part(url, "/shorts/")
}

/// Whether `url` is a supported video URL.
pub fn is_youtube_url(url: &str) -> (r: bool)
    ensures
        r == supported_url(url@),
{
    let text = chars_of(url);
    proof {
        lemma_supported_url(text@);
    }
    match find_head(&text) {
        Some(n) => n < text.len() && id_char(text[n]),
        None => false,
    }
}

} // verus!
