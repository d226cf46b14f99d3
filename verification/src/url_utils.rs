//! URLs in pasted text: where they are, how they are tidied, and which of
//! them are kept.

use crate::events::opt_view;
use crate::text::{
    has_str_at,
    skip,
    slice_chars,
    span,
    starts_with_at,
    string_from_chars,
    strings,
    to_chars,
    trim,
    trimmed,
    CharClass,
};
use vstd::prelude::*;
use vstd::string::*;

verus! {

/// The scheme of the URL that the text writes, as `url::Url::parse` reads
/// it; `None` where the text is no URL.
pub uninterp spec fn url_scheme_of(s: Seq<char>) -> Option<Seq<char>>;

/// The URL that the text writes, without its fragment, as `url::Url`
/// serializes it; `None` where the text is no URL.
pub uninterp spec fn url_plain_of(s: Seq<char>) -> Option<Seq<char>>;

/// The path of the URL that the text writes; `None` where the text is no
/// URL.
pub uninterp spec fn url_path_of(s: Seq<char>) -> Option<Seq<char>>;

/// The URL that a reference resolves to against a base URL, as
/// `url::Url::join` resolves it; `None` where the base is no URL or the
/// reference does not resolve.
pub uninterp spec fn url_joined_of(base: Seq<char>, reference: Seq<char>) -> Option<Seq<char>>;

/// The URL that a reference resolves to against a base URL whose path has
/// been replaced first.
pub uninterp spec fn url_rejoined_of(
    base: Seq<char>,
    path: Seq<char>,
    reference: Seq<char>,
) -> Option<Seq<char>>;

/// `url::Url::parse`, then `Url::scheme`: the scheme of the URL.
#[verifier::external_body]
pub(crate) fn url_scheme(s: &str) -> (r: Option<String>)
    ensures
        opt_view(r) == url_scheme_of(s@),
{
    match url::Url::parse(s) {
        Ok(u) => Some(u.scheme().to_string()),
        Err(_) => None,
    }
}

/// `url::Url::parse`, then `Url::set_fragment(None)` and the URL's
/// serialization: the URL without its fragment.
#[verifier::external_body]
pub(crate) fn url_without_fragment(s: &str) -> (r: Option<String>)
    ensures
        opt_view(r) == url_plain_of(s@),
{
    match url::Url::parse(s) {
        Ok(mut u) => {
            u.set_fragment(None);
            Some(u.to_string())
        },
        Err(_) => None,
    }
}

/// `url::Url::parse`, then `Url::path`: the path of the URL.
#[verifier::external_body]
pub(crate) fn url_path(s: &str) -> (r: Option<String>)
    ensures
        opt_view(r) == url_path_of(s@),
{
    match url::Url::parse(s) {
        Ok(u) => Some(u.path().to_string()),
        Err(_) => None,
    }
}

/// `url::Url::parse`, then `Url::join` and the result's serialization: the
/// URL that the reference resolves to against the base.
#[verifier::external_body]
pub(crate) fn url_join(base: &str, reference: &str) -> (r: Option<String>)
    ensures
        opt_view(r) == url_joined_of(base@, reference@),
{
    match url::Url::parse(base) {
        Ok(b) => b.join(reference).ok().map(|u| u.to_string()),
        Err(_) => None,
    }
}

/// `url::Url::parse`, then `Url::set_path`, `Url::join` and the result's
/// serialization: the URL that the reference resolves to against the base
/// once the base's path has been replaced.
#[verifier::external_body]
pub(crate) fn url_rejoin(base: &str, path: &str, reference: &str) -> (r: Option<String>)
    ensures
        opt_view(r) == url_rejoined_of(base@, path@, reference@),
{
    match url::Url::parse(base) {
        Ok(mut b) => {
            b.set_path(path);
            b.join(reference).ok().map(|u| u.to_string())
        },
        Err(_) => None,
    }
}

/// The punctuation that often follows a URL in prose and is no part of it.
pub open spec fn is_trailing_punct(c: char) -> bool {
    ||| c == ')'
    ||| c == ']'
    ||| c == '}'
    ||| c == '>'
    ||| c == ','
    ||| c == '.'
    ||| c == ';'
    ||| c == ':'
    ||| c == '!'
    ||| c == '?'
    ||| c == '"'
    ||| c == '\''
}

/// Where the text ends once trailing punctuation is dropped.
pub open spec fn punct_end(s: Seq<char>, j: int) -> int
    decreases j,
{
    if 0 < j <= s.len() && is_trailing_punct(s[j - 1]) {
        punct_end(s, j - 1)
    } else {
        j
    }
}

/// The text without the punctuation at its end.
pub open spec fn without_trailing_punct(s: Seq<char>) -> Seq<char> {
    s.subrange(0, punct_end(s, s.len() as int))
}

fn is_punct(c: char) -> (b: bool)
    ensures
        b == is_trailing_punct(c),
{
    c == ')' || c == ']' || c == '}' || c == '>' || c == ',' || c == '.' || c == ';' || c == ':'
        || c == '!' || c == '?' || c == '"' || c == '\''
}

fn trim_punct_chars(cs: &Vec<char>) -> (v: Vec<char>)
    ensures
        v@ == without_trailing_punct(cs@),
{
    let mut end: usize = cs.len();
    while end > 0 && is_punct(cs[end - 1])
        invariant
            end <= cs.len(),
            punct_end(cs@, cs@.len() as int) == punct_end(cs@, end as int),
        decreases end,
    {
        end = end - 1;
    }
    slice_chars(cs, 0, end)
}

/// The text without the punctuation at its end: `https://example.com/foo),`
/// becomes `https://example.com/foo`.
pub fn trim_trailing_punct(s: &str) -> (r: String)
    ensures
        r@ == without_trailing_punct(s@),
{
    let cs = to_chars(s);
    let v = trim_punct_chars(&cs);
    string_from_chars(&v)
}

/// The normal form of an http(s) URL: the text without white space around
/// it, read as a URL, kept only where its scheme is `http` or `https`, and
/// written without its fragment. Reading a URL already puts scheme and host
/// in lower case and drops a port that is the scheme's default.
pub open spec fn normal_form(input: Seq<char>) -> Option<Seq<char>> {
    let t = trimmed(input);
    if t.len() == 0 {
        None
    } else if url_scheme_of(t) == Some("http"@) || url_scheme_of(t) == Some("https"@) {
        url_plain_of(t)
    } else {
        None
    }
}

/// The normal form of what was read of a trimmed, non-empty URL text.
pub fn normalized(scheme: Option<String>, plain: Option<String>) -> (r: Option<String>)
    ensures
        r == (if opt_view(scheme) == Some("http"@) || opt_view(scheme) == Some("https"@) {
            plain
        } else {
            None
        }),
{
    match scheme {
        Some(s) => {
            if crate::text::same_text(s.as_str(), "http") || crate::text::same_text(
                s.as_str(),
                "https",
            ) {
                plain
            } else {
                None
            }
        },
        None => None,
    }
}

fn normalize_chars(cs: &Vec<char>) -> (r: Option<String>)
    ensures
        opt_view(r) == normal_form(cs@),
{
    let t = trim(cs);
    if t.len() == 0 {
        return None;
    }
    let text = string_from_chars(&t);
    let scheme = url_scheme(text.as_str());
    let plain = url_without_fragment(text.as_str());
    normalized(scheme, plain)
}

/// The normal form of a presumed http(s) URL.
pub fn normalize_http_url(input: &str) -> (r: Option<String>)
    ensures
        opt_view(r) == normal_form(input@),
{
    let cs = to_chars(input);
    normalize_chars(&cs)
}

/// Where the candidate URL that starts at position `i` ends: `http://` or
/// `https://` and then everything up to the next white space, of which
/// there must be some.
pub open spec fn candidate_end(s: Seq<char>, i: int) -> Option<int> {
    let after = if starts_with_at(s, i, "https://"@) {
        Some(i + 8)
    } else if starts_with_at(s, i, "http://"@) {
        Some(i + 7)
    } else {
        None
    };
    match after {
        Some(a) => if span(s, CharClass::NonSpace, a) > a {
            Some(span(s, CharClass::NonSpace, a))
        } else {
            None
        },
        None => None,
    }
}

/// The candidate URLs in the text from position `from` on, in order, none
/// overlapping another.
pub open spec fn candidates_from(s: Seq<char>, from: int) -> Seq<Seq<char>>
    decreases s.len() - from,
{
    if from < 0 || from >= s.len() {
        Seq::empty()
    } else {
        match candidate_end(s, from) {
            Some(e) => if from < e <= s.len() {
                seq![s.subrange(from, e)] + candidates_from(s, e)
            } else {
                Seq::empty()
            },
            None => candidates_from(s, from + 1),
        }
    }
}

/// The URLs from position `k` on that are kept of a list of candidates:
/// each is stripped of trailing punctuation, put in normal form, and kept
/// where it has one that was not seen before.
pub open spec fn kept_from(candidates: Seq<Seq<char>>, k: int, seen: Seq<Seq<char>>) -> Seq<
    Seq<char>,
>
    decreases candidates.len() - k,
{
    if k < 0 || k >= candidates.len() {
        seen
    } else {
        let cleaned = without_trailing_punct(candidates[k]);
        match (if cleaned.len() == 0 {
            None
        } else {
            normal_form(cleaned)
        }) {
            Some(n) => if seen.contains(n) {
                kept_from(candidates, k + 1, seen)
            } else {
                kept_from(candidates, k + 1, seen.push(n))
            },
            None => kept_from(candidates, k + 1, seen),
        }
    }
}

/// The URLs found in a text: its candidates in normal form, each once, in
/// the order in which they first occur.
pub open spec fn urls_of(text: Seq<char>) -> Seq<Seq<char>> {
    kept_from(candidates_from(text, 0), 0, Seq::empty())
}

fn candidate_end_at(cs: &Vec<char>, i: usize) -> (r: Option<usize>)
    requires
        i < cs.len(),
    ensures
        match r {
            Some(e) => candidate_end(cs@, i as int) == Some(e as int) && i < e <= cs.len(),
            None => candidate_end(cs@, i as int) is None,
        },
{
    proof {
        reveal_strlit("https://");
        reveal_strlit("http://");
    }
    let after: usize = if has_str_at(cs, i, "https://") {
        i + 8
    } else if has_str_at(cs, i, "http://") {
        i + 7
    } else {
        return None;
    };
    let e: usize = skip(cs, CharClass::NonSpace, after);
    if e > after {
        Some(e)
    } else {
        None
    }
}

fn find_candidates(cs: &Vec<char>) -> (found: Vec<Vec<char>>)
    ensures
        crate::text::pieces(found@) == candidates_from(cs@, 0),
{
    let mut found: Vec<Vec<char>> = Vec::new();
    let mut i: usize = 0;
    proof {
        assert(crate::text::pieces(found@) =~= Seq::<Seq<char>>::empty());
        assert(Seq::<Seq<char>>::empty() + candidates_from(cs@, 0) =~= candidates_from(cs@, 0));
    }
    while i < cs.len()
        invariant
            i <= cs.len(),
            candidates_from(cs@, 0) == crate::text::pieces(found@) + candidates_from(
                cs@,
                i as int,
            ),
        decreases cs.len() - i,
    {
        match candidate_end_at(cs, i) {
            Some(e) => {
                let piece = slice_chars(cs, i, e);
                let ghost before = crate::text::pieces(found@);
                found.push(piece);
                proof {
                    assert(crate::text::pieces(found@) =~= before.push(
                        cs@.subrange(i as int, e as int),
                    ));
                    assert(candidates_from(cs@, 0) =~= crate::text::pieces(found@)
                        + candidates_from(cs@, e as int));
                }
                i = e;
            },
            None => {
                i = i + 1;
            },
        }
    }
    proof {
        assert(crate::text::pieces(found@) + Seq::<Seq<char>>::empty() =~= crate::text::pieces(
            found@,
        ));
    }
    found
}

fn already_seen(seen: &Vec<String>, url: &str) -> (b: bool)
    ensures
        b == strings(seen@).contains(url@),
{
    let mut i: usize = 0;
    while i < seen.len()
        invariant
            i <= seen.len(),
            forall|k: int| 0 <= k < i ==> strings(seen@)[k] != url@,
        decreases seen.len() - i,
    {
        if crate::text::same_text(seen[i].as_str(), url) {
            proof {
                assert(strings(seen@)[i as int] == url@);
            }
            return true;
        }
        i = i + 1;
    }
    proof {
        assert(strings(seen@).len() == seen.len());
    }
    false
}

/// The URLs found in a text: every `http://` or `https://` URL, stripped
/// of trailing punctuation and put in normal form, each once, in the order
/// in which they first occur. Other schemes are passed over.
pub fn extract_urls(text: &str) -> (urls: Vec<String>)
    ensures
        strings(urls@) == urls_of(text@),
{
    let cs = to_chars(text);
    let candidates = find_candidates(&cs);
    let mut urls: Vec<String> = Vec::new();
    let mut k: usize = 0;
    proof {
        assert(strings(urls@) =~= Seq::<Seq<char>>::empty());
        assert(crate::text::pieces(candidates@).len() == candidates.len());
    }
    while k < candidates.len()
        invariant
            k <= candidates.len(),
            crate::text::pieces(candidates@) == candidates_from(text@, 0),
            crate::text::pieces(candidates@).len() == candidates.len(),
            urls_of(text@) == kept_from(candidates_from(text@, 0), k as int, strings(urls@)),
        decreases candidates.len() - k,
    {
        proof {
            assert(crate::text::pieces(candidates@)[k as int] == candidates@[k as int]@);
        }
        let cleaned = trim_punct_chars(&candidates[k]);
        if cleaned.len() > 0 {
            match normalize_chars(&cleaned) {
                Some(n) => {
                    if !already_seen(&urls, n.as_str()) {
                        let ghost before = urls@;
                        urls.push(n);
                        proof {
                            assert(urls@ =~= before.push(n));
                            assert(strings(before.push(n)) =~= strings(before).push(n@));
                        }
                    }
                },
                None => {},
            }
        }
        k = k + 1;
    }
    urls
}

/// Whether a text holds more than one URL.
pub fn contains_multiple_urls(text: &str) -> (b: bool)
    ensures
        b == (urls_of(text@).len() > 1),
{
    let urls = extract_urls(text);
    proof {
        assert(strings(urls@).len() == urls.len());
    }
    urls.len() > 1
}

} // verus!
