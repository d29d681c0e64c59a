//! Browser identification from a user agent string, and the mobile-device
//! heuristics built on it.
//!
//! A version is read the way the patterns `<tag>([0-9]+(\.[0-9]+)*)` read it:
//! at the leftmost place where a tag is directly followed by a digit, the run
//! of digits after the tag is the major version.
use vstd::prelude::*;
use crate::text::{
    chars_of, chars_eq, contains_seq, find_seq, is_digit, occurs_at, push_all, push_str,
    string_from_chars, to_lowercase, unicode_lowercase, char_to_uppercase, unicode_uppercase_char,
};

verus! {

/// Information about the detected browser.
#[derive(Debug, Clone)]
pub struct BrowserInfo {
    pub name: String,
    pub version: String,
    pub user_agent: String,
}

/// `tag` occurs in `ua` at `i` and is directly followed by a digit.
pub open spec fn tagged_at(ua: Seq<char>, tag: Seq<char>, i: int) -> bool {
    occurs_at(ua, tag, i) && i + tag.len() < ua.len() && is_digit(ua[i + tag.len()])
}

/// The first tag of `tags` (alternatives in order of preference) that is
/// tagged at `i`.
pub open spec fn matched_tag(ua: Seq<char>, tags: Seq<Seq<char>>, i: int) -> Option<Seq<char>>
    decreases tags.len(),
{
    if tags.len() == 0 {
        None
    } else if tagged_at(ua, tags[0], i) {
        Some(tags[0])
    } else {
        matched_tag(ua, tags.skip(1), i)
    }
}

/// The leftmost position at or after `from` where one of `tags` is tagged,
/// with the tag matched there.
pub open spec fn first_tag_from(ua: Seq<char>, tags: Seq<Seq<char>>, from: int) -> Option<(int, Seq<char>)>
    decreases ua.len() - from,
{
    if from < 0 || from >= ua.len() {
        None
    } else {
        match matched_tag(ua, tags, from) {
            Some(t) => Some((from, t)),
            None => first_tag_from(ua, tags, from + 1),
        }
    }
}

proof fn lemma_matched_tag_tagged(ua: Seq<char>, tags: Seq<Seq<char>>, i: int)
    requires
        matched_tag(ua, tags, i) is Some,
    ensures
        tagged_at(ua, matched_tag(ua, tags, i).unwrap(), i),
    decreases tags.len(),
{
    if tags.len() > 0 && !tagged_at(ua, tags[0], i) {
        lemma_matched_tag_tagged(ua, tags.skip(1), i);
    }
}

/// End of the run of digits of `s` that starts at `k`.
pub open spec fn digit_run_end(s: Seq<char>, k: int) -> int
    decreases s.len() - k,
{
    if 0 <= k < s.len() && is_digit(s[k]) {
        digit_run_end(s, k + 1)
    } else {
        k
    }
}

/// The run of digits of `s` that starts at `k`.
pub open spec fn digit_run(s: Seq<char>, k: int) -> Seq<char> {
    s.subrange(k, digit_run_end(s, k))
}

/// The digits that follow the leftmost tagged occurrence of one of `tags`.
pub open spec fn tag_version(ua: Seq<char>, tags: Seq<Seq<char>>) -> Option<Seq<char>> {
    match first_tag_from(ua, tags, 0) {
        Some((i, t)) => Some(digit_run(ua, i + t.len())),
        None => None,
    }
}

/// The version read for `tags`, or "unknown".
pub open spec fn version_or_unknown(ua: Seq<char>, tags: Seq<Seq<char>>) -> Seq<char> {
    match tag_version(ua, tags) {
        Some(v) => v,
        None => "unknown"@,
    }
}

/// The fallback patterns `Chrome/([0-9]+)`, `Firefox/([0-9]+)`, `Safari/([0-9]+)`,
/// `Edge/([0-9]+)`, `Opera/([0-9]+)`, tried in this order.
pub open spec fn fallback_browser(ua: Seq<char>) -> (Seq<char>, Seq<char>) {
    if tag_version(ua, seq!["Chrome/"@]) is Some {
        ("chrome"@, tag_version(ua, seq!["Chrome/"@]).unwrap())
    } else if tag_version(ua, seq!["Firefox/"@]) is Some {
        ("firefox"@, tag_version(ua, seq!["Firefox/"@]).unwrap())
    } else if tag_version(ua, seq!["Safari/"@]) is Some {
        ("safari"@, tag_version(ua, seq!["Safari/"@]).unwrap())
    } else if tag_version(ua, seq!["Edge/"@]) is Some {
        ("edge"@, tag_version(ua, seq!["Edge/"@]).unwrap())
    } else if tag_version(ua, seq!["Opera/"@]) is Some {
        ("opera"@, tag_version(ua, seq!["Opera/"@]).unwrap())
    } else {
        ("unknown"@, "unknown"@)
    }
}

/// Browser name and major version identified in a non-empty user agent.
pub open spec fn browser_name_version(ua: Seq<char>, has_brave_api: bool) -> (Seq<char>, Seq<char>) {
    let contains_lit = |p: Seq<char>| contains_seq(ua, p);
    if contains_lit("Edg/"@) {
        ("edge"@, version_or_unknown(ua, seq!["Edg/"@]))
    } else if contains_lit("OPR/"@) || contains_lit("Opera/"@) {
        ("opera"@, version_or_unknown(ua, seq!["OPR/"@, "Opera/"@]))
    } else if contains_lit("SamsungBrowser/"@) {
        ("samsung"@, version_or_unknown(ua, seq!["SamsungBrowser/"@]))
    } else if contains_lit("DuckDuckGo/"@) {
        ("duckduckgo"@, version_or_unknown(ua, seq!["DuckDuckGo/"@]))
    } else if contains_lit("Chrome/"@) && has_brave_api {
        ("brave"@, version_or_unknown(ua, seq!["Chrome/"@]))
    } else if contains_lit("Mobile/"@) || contains_lit("Android"@) {
        if contains_lit("Chrome/"@) {
            ("chrome-mobile"@, version_or_unknown(ua, seq!["Chrome/"@]))
        } else if contains_lit("Firefox/"@) {
            ("firefox-mobile"@, version_or_unknown(ua, seq!["Firefox/"@]))
        } else if contains_lit("Safari/"@) && contains_lit("Mobile/"@) {
            ("safari-mobile"@, version_or_unknown(ua, seq!["Version/"@]))
        } else {
            ("mobile"@, "unknown"@)
        }
    } else if contains_lit("Chrome/"@) {
        ("chrome"@, version_or_unknown(ua, seq!["Chrome/"@]))
    } else if contains_lit("Firefox/"@) {
        ("firefox"@, version_or_unknown(ua, seq!["Firefox/"@]))
    } else if contains_lit("Safari/"@) && !contains_lit("Chrome/"@) {
        ("safari"@, version_or_unknown(ua, seq!["Version/"@]))
    } else {
        fallback_browser(ua)
    }
}

/// `v` is the maximal run of digits of `s` that starts at `k` (and is not
/// empty).
pub open spec fn digits_at(s: Seq<char>, k: int, v: Seq<char>) -> bool {
    &&& v.len() > 0
    &&& 0 <= k && k + v.len() <= s.len()
    &&& s.subrange(k, k + v.len()) == v
    &&& forall|m: int| 0 <= m < v.len() ==> is_digit(#[trigger] v[m])
    &&& (k + v.len() == s.len() || !is_digit(s[k + v.len()]))
}

/// `v` is the version that follows `tag` in `ua`: the digits right after
/// the leftmost place where `tag` is directly followed by a digit, or
/// "unknown" when there is no such place.
pub open spec fn version_follows(ua: Seq<char>, tag: Seq<char>, v: Seq<char>) -> bool {
    if exists|i: int| occurs_at(ua, tag, i) && i + tag.len() < ua.len() && is_digit(#[trigger] ua[i + tag.len()]) {
        exists|i: int|
            #![trigger occurs_at(ua, tag, i)]
            occurs_at(ua, tag, i) && digits_at(ua, i + tag.len(), v) && forall|j: int|
                0 <= j < i ==> !(occurs_at(ua, tag, j) && j + tag.len() < ua.len() && is_digit(ua[j + tag.len()]))
    } else {
        v == "unknown"@
    }
}

proof fn lemma_digit_run(s: Seq<char>, k: int)
    requires
        0 <= k <= s.len(),
    ensures
        k <= digit_run_end(s, k) <= s.len(),
        forall|m: int| k <= m < digit_run_end(s, k) ==> is_digit(#[trigger] s[m]),
        digit_run_end(s, k) == s.len() || !is_digit(s[digit_run_end(s, k)]),
    decreases s.len() - k,
{
    if k < s.len() && is_digit(s[k]) {
        lemma_digit_run(s, k + 1);
    }
}

proof fn lemma_first_single_tag(ua: Seq<char>, tag: Seq<char>, from: int)
    requires
        0 <= from,
    ensures
        match first_tag_from(ua, seq![tag], from) {
            Some((i, t)) => t == tag && from <= i && tagged_at(ua, tag, i) && forall|j: int|
                from <= j < i ==> !tagged_at(ua, tag, j),
            None => forall|j: int| from <= j ==> !tagged_at(ua, tag, j),
        },
    decreases ua.len() - from,
{
    let tags = seq![tag];
    assert(tags.skip(1).len() == 0);
    assert(matched_tag(ua, tags.skip(1), from) is None);
    if from < ua.len() {
        lemma_first_single_tag(ua, tag, from + 1);
    }
}

proof fn lemma_single_tag_version(ua: Seq<char>, tag: Seq<char>)
    ensures
        version_follows(ua, tag, version_or_unknown(ua, seq![tag])),
        tag_version(ua, seq![tag]) is Some ==> contains_seq(ua, tag),
{
    lemma_first_single_tag(ua, tag, 0);
    let v = version_or_unknown(ua, seq![tag]);
    match first_tag_from(ua, seq![tag], 0) {
        Some((i, t)) => {
            let k = i + tag.len();
            lemma_digit_run(ua, k);
            let e = digit_run_end(ua, k);
            assert(v == ua.subrange(k, e));
            assert(is_digit(ua[k]));
            assert(e > k) by {
                if e == k {
                    assert(k < ua.len());
                }
            }
            assert(v.len() == e - k);
            assert(ua.subrange(k, k + v.len()) =~= v);
            assert forall|m: int| 0 <= m < v.len() implies is_digit(#[trigger] v[m]) by {
                assert(v[m] == ua[k + m]);
            }
            assert(digits_at(ua, k, v));
            assert(tagged_at(ua, tag, i));
            assert(is_digit(ua[i + tag.len()]));
            assert(forall|j: int| 0 <= j < i ==> !tagged_at(ua, tag, j));
            assert(occurs_at(ua, tag, i));
            assert(t == tag);
            assert(tag_version(ua, seq![tag]) == Some(v));
            assert(exists|i: int| occurs_at(ua, tag, i) && i + tag.len() < ua.len() && is_digit(#[trigger] ua[i + tag.len()]));
            assert forall|j: int|
                0 <= j < i implies !(occurs_at(ua, tag, j) && j + tag.len() < ua.len() && is_digit(ua[j + tag.len()])) by {
                assert(!tagged_at(ua, tag, j));
            }
            assert(version_follows(ua, tag, v));
        },
        None => {
            assert forall|i: int| !(occurs_at(ua, tag, i) && i + tag.len() < ua.len() && is_digit(
                #[trigger] ua[i + tag.len()],
            )) by {
                if 0 <= i {
                    assert(!tagged_at(ua, tag, i));
                }
            }
            assert(v == "unknown"@);
            assert(version_follows(ua, tag, v));
        },
    }
}

proof fn lemma_first_two_tags(ua: Seq<char>, a: Seq<char>, b: Seq<char>, from: int)
    requires
        0 <= from,
    ensures
        match first_tag_from(ua, seq![a, b], from) {
            Some((i, t)) => from <= i && ((t == a && tagged_at(ua, a, i)) || (t == b && !tagged_at(ua, a, i)
                && tagged_at(ua, b, i))) && forall|j: int|
                from <= j < i ==> !tagged_at(ua, a, j) && !tagged_at(ua, b, j),
            None => forall|j: int| from <= j ==> !tagged_at(ua, a, j) && !tagged_at(ua, b, j),
        },
    decreases ua.len() - from,
{
    let tags = seq![a, b];
    assert(tags.skip(1) =~= seq![b]);
    assert(seq![b].skip(1).len() == 0);
    assert(matched_tag(ua, seq![b].skip(1), from) is None);
    assert(matched_tag(ua, seq![b], from) == if tagged_at(ua, b, from) {
        Some(b)
    } else {
        None::<Seq<char>>
    });
    assert(matched_tag(ua, tags, from) == if tagged_at(ua, a, from) {
        Some(a)
    } else {
        matched_tag(ua, seq![b], from)
    });
    if from < ua.len() {
        lemma_first_two_tags(ua, a, b, from + 1);
    }
}

/// `v` is the version that follows the leftmost of `a` or `b` (preferring
/// `a` where both start) that is directly followed by a digit, or "unknown"
/// when there is no such place.
pub open spec fn version_follows_either(ua: Seq<char>, a: Seq<char>, b: Seq<char>, v: Seq<char>) -> bool {
    if exists|i: int| #[trigger] tagged_at(ua, a, i) || tagged_at(ua, b, i) {
        exists|i: int|
            #![trigger tagged_at(ua, a, i)]
            (tagged_at(ua, a, i) && digits_at(ua, i + a.len(), v) || !tagged_at(ua, a, i) && tagged_at(ua, b, i)
                && digits_at(ua, i + b.len(), v)) && forall|j: int|
                0 <= j < i ==> !tagged_at(ua, a, j) && !tagged_at(ua, b, j)
    } else {
        v == "unknown"@
    }
}

proof fn lemma_two_tag_version(ua: Seq<char>, a: Seq<char>, b: Seq<char>)
    ensures
        version_follows_either(ua, a, b, version_or_unknown(ua, seq![a, b])),
{
    lemma_first_two_tags(ua, a, b, 0);
    let v = version_or_unknown(ua, seq![a, b]);
    match first_tag_from(ua, seq![a, b], 0) {
        Some((i, t)) => {
            let k = i + t.len();
            lemma_digit_run(ua, k);
            let e = digit_run_end(ua, k);
            assert(v == ua.subrange(k, e));
            assert(is_digit(ua[k]));
            assert(e > k);
            assert(ua.subrange(k, k + v.len()) =~= v);
            assert forall|m: int| 0 <= m < v.len() implies is_digit(#[trigger] v[m]) by {
                assert(v[m] == ua[k + m]);
            }
            assert(digits_at(ua, k, v));
            assert(tagged_at(ua, a, i) || tagged_at(ua, b, i));
        },
        None => {
            assert forall|i: int| !(#[trigger] tagged_at(ua, a, i) || tagged_at(ua, b, i)) by {
                if i < 0 {
                    assert(!occurs_at(ua, a, i) && !occurs_at(ua, b, i));
                }
            }
        },
    }
}

/// The version reported for a browser is read after that browser's own tag:
/// the digits that follow the leftmost `SamsungBrowser/` for Samsung
/// Internet, `DuckDuckGo/` for DuckDuckGo, `Chrome/` for Chrome, Chrome
/// mobile and Brave, `Firefox/` for Firefox and Firefox mobile, `Version/`
/// for Safari and Safari mobile, `Edg/` (or, for old Edge, `Edge/`) for
/// Edge, and `OPR/` or `Opera/`, whichever comes first, for Opera;
/// "unknown" when that tag is not followed by a digit anywhere. A browser
/// is only named when the user agent carries its tag (and Brave only when
/// the Brave API is present).
pub proof fn law_version_follows_browser_tag(ua: Seq<char>, has_brave_api: bool)
    ensures
        ({
            let (n, v) = browser_name_version(ua, has_brave_api);
            &&& n == "samsung"@ ==> version_follows(ua, "SamsungBrowser/"@, v)
            &&& n == "duckduckgo"@ ==> version_follows(ua, "DuckDuckGo/"@, v)
            &&& (n == "chrome"@ || n == "chrome-mobile"@ || n == "brave"@) ==> version_follows(ua, "Chrome/"@, v)
            &&& (n == "firefox"@ || n == "firefox-mobile"@) ==> version_follows(ua, "Firefox/"@, v)
            &&& (n == "safari"@ || n == "safari-mobile"@) ==> version_follows(ua, "Version/"@, v)
            &&& n == "edge"@ ==> (version_follows(ua, "Edg/"@, v) || version_follows(ua, "Edge/"@, v))
            &&& n == "opera"@ ==> version_follows_either(ua, "OPR/"@, "Opera/"@, v)
            &&& n == "samsung"@ ==> contains_seq(ua, "SamsungBrowser/"@)
            &&& n == "duckduckgo"@ ==> contains_seq(ua, "DuckDuckGo/"@)
            &&& n == "edge"@ ==> contains_seq(ua, "Edg/"@) || contains_seq(ua, "Edge/"@)
            &&& n == "opera"@ ==> contains_seq(ua, "OPR/"@) || contains_seq(ua, "Opera/"@)
            &&& (n == "chrome"@ || n == "chrome-mobile"@ || n == "brave"@) ==> contains_seq(ua, "Chrome/"@)
            &&& n == "brave"@ ==> has_brave_api
            &&& (n == "firefox"@ || n == "firefox-mobile"@) ==> contains_seq(ua, "Firefox/"@)
            &&& n == "safari"@ ==> contains_seq(ua, "Safari/"@)
            &&& n == "safari-mobile"@ ==> contains_seq(ua, "Safari/"@) && contains_seq(ua, "Mobile/"@)
        }),
{
    reveal_strlit("samsung");
    reveal_strlit("duckduckgo");
    reveal_strlit("chrome");
    reveal_strlit("chrome-mobile");
    reveal_strlit("brave");
    reveal_strlit("firefox");
    reveal_strlit("firefox-mobile");
    reveal_strlit("safari");
    reveal_strlit("safari-mobile");
    reveal_strlit("edge");
    reveal_strlit("opera");
    reveal_strlit("mobile");
    reveal_strlit("unknown");
    lemma_single_tag_version(ua, "SamsungBrowser/"@);
    lemma_single_tag_version(ua, "DuckDuckGo/"@);
    lemma_single_tag_version(ua, "Chrome/"@);
    lemma_single_tag_version(ua, "Firefox/"@);
    lemma_single_tag_version(ua, "Version/"@);
    lemma_single_tag_version(ua, "Edg/"@);
    lemma_single_tag_version(ua, "Edge/"@);
    lemma_single_tag_version(ua, "Safari/"@);
    lemma_single_tag_version(ua, "Opera/"@);
    assert("samsung"@.len() == 7);
    assert("duckduckgo"@.len() == 10);
    assert("chrome"@.len() == 6);
    assert("chrome-mobile"@.len() == 13);
    assert("brave"@.len() == 5);
    assert("firefox"@.len() == 7);
    assert("firefox-mobile"@.len() == 14);
    assert("safari"@.len() == 6);
    assert("safari-mobile"@.len() == 13);
    assert("edge"@.len() == 4);
    assert("opera"@.len() == 5);
    assert("mobile"@.len() == 6);
    assert("unknown"@.len() == 7);
    assert("samsung"@[0] != "firefox"@[0]);
    assert("samsung"@[0] != "unknown"@[0]);
    assert("chrome"@[0] != "safari"@[0]);
    assert("chrome"@[0] != "mobile"@[0]);
    assert("chrome-mobile"@[0] != "safari-mobile"@[0]);
    assert("brave"@[0] != "opera"@[0]);
    assert("firefox"@[0] != "unknown"@[0]);
    assert("safari"@[0] != "mobile"@[0]);
    let (n, v) = browser_name_version(ua, has_brave_api);
    let c = |p: Seq<char>| contains_seq(ua, p);
    if c("Edg/"@) {
        assert(n == "edge"@ && version_follows(ua, "Edg/"@, v));
    } else if c("OPR/"@) || c("Opera/"@) {
        lemma_two_tag_version(ua, "OPR/"@, "Opera/"@);
        assert(n == "opera"@ && version_follows_either(ua, "OPR/"@, "Opera/"@, v));
    } else if c("SamsungBrowser/"@) {
        assert(n == "samsung"@ && version_follows(ua, "SamsungBrowser/"@, v));
    } else if c("DuckDuckGo/"@) {
        assert(n == "duckduckgo"@ && version_follows(ua, "DuckDuckGo/"@, v));
    } else if c("Chrome/"@) && has_brave_api {
        assert(n == "brave"@ && version_follows(ua, "Chrome/"@, v));
    } else if c("Mobile/"@) || c("Android"@) {
        if c("Chrome/"@) {
            assert(n == "chrome-mobile"@ && version_follows(ua, "Chrome/"@, v));
        } else if c("Firefox/"@) {
            assert(n == "firefox-mobile"@ && version_follows(ua, "Firefox/"@, v));
        } else if c("Safari/"@) && c("Mobile/"@) {
            assert(n == "safari-mobile"@ && version_follows(ua, "Version/"@, v));
        } else {
            assert(n == "mobile"@);
        }
    } else if c("Chrome/"@) {
        assert(n == "chrome"@ && version_follows(ua, "Chrome/"@, v));
    } else if c("Firefox/"@) {
        assert(n == "firefox"@ && version_follows(ua, "Firefox/"@, v));
    } else if c("Safari/"@) && !c("Chrome/"@) {
        assert(n == "safari"@ && version_follows(ua, "Version/"@, v));
    } else {
        assert((n, v) == fallback_browser(ua));
        assert(tag_version(ua, seq!["Chrome/"@]) is None);
        assert(tag_version(ua, seq!["Firefox/"@]) is None);
        assert(tag_version(ua, seq!["Safari/"@]) is None);
        if tag_version(ua, seq!["Edge/"@]) is Some {
            assert(n == "edge"@ && version_follows(ua, "Edge/"@, v));
        } else if tag_version(ua, seq!["Opera/"@]) is Some {
            assert(false);
        } else {
            assert(n == "unknown"@);
        }
    }
}

/// Whether `s` contains `p`.
fn contains_lit(s: &[char], p: &str) -> (r: bool)
    ensures
        r == contains_seq(s@, p@),
{
    let pc = chars_of(p);
    match find_seq(s, pc.as_slice()) {
        Some(_) => true,
        None => false,
    }
}

/// Whether `tag` occurs at `i` followed by a digit.
fn tagged_at_exec(ua: &[char], tag: &[char], i: usize) -> (r: bool)
    ensures
        r == tagged_at(ua@, tag@, i as int),
{
    if !crate::text::occurs_at_exec(ua, tag, i) {
        return false;
    }
    let n = ua.len();
    let m = tag.len();
    assert(i + m <= n);
    let k = i + m;
    if k < n {
        let c = ua[k];
        '0' <= c && c <= '9'
    } else {
        false
    }
}

/// Index of the first tag of `tags` tagged at `i`.
fn matched_tag_exec(ua: &[char], tags: &Vec<Vec<char>>, i: usize) -> (r: Option<usize>)
    ensures
        match matched_tag(ua@, tags.deep_view(), i as int) {
            Some(t) => r matches Some(k) && k < tags@.len() && tags@[k as int]@ == t,
            None => r is None,
        },
{
    let ghost all = tags.deep_view();
    let mut k: usize = 0;
    proof {
        assert(all.skip(0) =~= all);
    }
    while k < tags.len()
        invariant
            0 <= k <= tags@.len(),
            all == tags.deep_view(),
            matched_tag(ua@, all, i as int) == matched_tag(ua@, all.skip(k as int), i as int),
        decreases tags@.len() - k,
    {
        let t = &tags[k];
        proof {
            assert(all.skip(k as int)[0] == t@);
            assert(all.skip(k as int).skip(1) =~= all.skip(k + 1));
        }
        if tagged_at_exec(ua, t.as_slice(), i) {
            return Some(k);
        }
        k = k + 1;
    }
    None
}

/// The run of digits of `s` starting at `k`.
fn digit_run_exec(s: &[char], k: usize) -> (r: Vec<char>)
    requires
        k <= s@.len(),
    ensures
        r@ == digit_run(s@, k as int),
{
    let mut j = k;
    while j < s.len() && '0' <= s[j] && s[j] <= '9'
        invariant
            k <= j <= s@.len(),
            digit_run_end(s@, j as int) == digit_run_end(s@, k as int),
        decreases s@.len() - j,
    {
        j = j + 1;
    }
    crate::text::slice_chars(s, k, j)
}

/// The digits after the leftmost tagged occurrence of one of `tags`.
fn tag_version_exec(ua: &[char], tags: &Vec<Vec<char>>) -> (r: Option<Vec<char>>)
    ensures
        match tag_version(ua@, tags.deep_view()) {
            Some(v) => r matches Some(x) && x@ == v,
            None => r is None,
        },
{
    let ghost all = tags.deep_view();
    let mut i: usize = 0;
    while i < ua.len()
        invariant
            0 <= i <= ua@.len(),
            all == tags.deep_view(),
            first_tag_from(ua@, all, 0) == first_tag_from(ua@, all, i as int),
        decreases ua@.len() - i,
    {
        match matched_tag_exec(ua, tags, i) {
            Some(k) => {
                let t = &tags[k];
                proof {
                    lemma_matched_tag_tagged(ua@, all, i as int);
                }
                let start = i + t.len();
                if start <= ua.len() {
                    return Some(digit_run_exec(ua, start));
                }
                return None;
            },
            None => {},
        }
        i = i + 1;
    }
    None
}

/// The version read for `tags`, or "unknown".
fn version_or_unknown_exec(ua: &[char], tags: &Vec<Vec<char>>) -> (r: Vec<char>)
    ensures
        r@ == version_or_unknown(ua@, tags.deep_view()),
{
    match tag_version_exec(ua, tags) {
        Some(v) => v,
        None => chars_of("unknown"),
    }
}

/// The tag list holding one tag.
fn one_tag(a: &str) -> (r: Vec<Vec<char>>)
    ensures
        r.deep_view() == seq![a@],
{
    let v = vec![chars_of(a)];
    proof {
        assert(v@[0].deep_view() =~= a@);
        assert(v.deep_view() =~= seq![a@]);
    }
    v
}

/// The fallback patterns, tried in order.
fn fallback_exec(ua: &[char]) -> (r: (Vec<char>, Vec<char>))
    ensures
        (r.0@, r.1@) == fallback_browser(ua@),
{
    if let Some(v) = tag_version_exec(ua, &one_tag("Chrome/")) {
        return (chars_of("chrome"), v);
    }
    if let Some(v) = tag_version_exec(ua, &one_tag("Firefox/")) {
        return (chars_of("firefox"), v);
    }
    if let Some(v) = tag_version_exec(ua, &one_tag("Safari/")) {
        return (chars_of("safari"), v);
    }
    if let Some(v) = tag_version_exec(ua, &one_tag("Edge/")) {
        return (chars_of("edge"), v);
    }
    if let Some(v) = tag_version_exec(ua, &one_tag("Opera/")) {
        return (chars_of("opera"), v);
    }
    (chars_of("unknown"), chars_of("unknown"))
}

/// Name and version for a non-empty user agent.
fn name_version_exec(ua: &[char], has_brave_api: bool) -> (r: (Vec<char>, Vec<char>))
    ensures
        (r.0@, r.1@) == browser_name_version(ua@, has_brave_api),
{
    if contains_lit(ua, "Edg/") {
        (chars_of("edge"), version_or_unknown_exec(ua, &one_tag("Edg/")))
    } else if contains_lit(ua, "OPR/") || contains_lit(ua, "Opera/") {
        let tags = vec![chars_of("OPR/"), chars_of("Opera/")];
        proof {
            assert(tags@[0].deep_view() =~= "OPR/"@);
            assert(tags@[1].deep_view() =~= "Opera/"@);
            assert(tags.deep_view() =~= seq!["OPR/"@, "Opera/"@]);
        }
        (chars_of("opera"), version_or_unknown_exec(ua, &tags))
    } else if contains_lit(ua, "SamsungBrowser/") {
        (chars_of("samsung"), version_or_unknown_exec(ua, &one_tag("SamsungBrowser/")))
    } else if contains_lit(ua, "DuckDuckGo/") {
        (chars_of("duckduckgo"), version_or_unknown_exec(ua, &one_tag("DuckDuckGo/")))
    } else if contains_lit(ua, "Chrome/") && has_brave_api {
        (chars_of("brave"), version_or_unknown_exec(ua, &one_tag("Chrome/")))
    } else if contains_lit(ua, "Mobile/") || contains_lit(ua, "Android") {
        if contains_lit(ua, "Chrome/") {
            (chars_of("chrome-mobile"), version_or_unknown_exec(ua, &one_tag("Chrome/")))
        } else if contains_lit(ua, "Firefox/") {
            (chars_of("firefox-mobile"), version_or_unknown_exec(ua, &one_tag("Firefox/")))
        } else if contains_lit(ua, "Safari/") && contains_lit(ua, "Mobile/") {
            (chars_of("safari-mobile"), version_or_unknown_exec(ua, &one_tag("Version/")))
        } else {
            (chars_of("mobile"), chars_of("unknown"))
        }
    } else if contains_lit(ua, "Chrome/") {
        (chars_of("chrome"), version_or_unknown_exec(ua, &one_tag("Chrome/")))
    } else if contains_lit(ua, "Firefox/") {
        (chars_of("firefox"), version_or_unknown_exec(ua, &one_tag("Firefox/")))
    } else if contains_lit(ua, "Safari/") && !contains_lit(ua, "Chrome/") {
        (chars_of("safari"), version_or_unknown_exec(ua, &one_tag("Version/")))
    } else {
        fallback_exec(ua)
    }
}

/// Parse browser information from a user agent string. An empty user agent
/// gives name, version and user agent "unknown"; otherwise the rules of
/// `browser_name_version` decide, and the user agent is kept.
pub fn parse_browser_from_user_agent(user_agent: &str, has_brave_api: bool) -> (r: BrowserInfo)
    ensures
        user_agent@.len() == 0 ==> r.name@ == "unknown"@ && r.version@ == "unknown"@
            && r.user_agent@ == "unknown"@,
        user_agent@.len() > 0 ==> (r.name@, r.version@) == browser_name_version(user_agent@, has_brave_api)
            && r.user_agent@ == user_agent@,
{
    let ua = chars_of(user_agent);
    if ua.len() == 0 {
        return BrowserInfo {
            name: String::from_str("unknown"),
            version: String::from_str("unknown"),
            user_agent: String::from_str("unknown"),
        };
    }
    let (n, v) = name_version_exec(ua.as_slice(), has_brave_api);
    BrowserInfo {
        name: string_from_chars(n.as_slice()),
        version: string_from_chars(v.as_slice()),
        user_agent: string_from_chars(ua.as_slice()),
    }
}

/// Detect the browser from a user agent string and whether the Brave API is
/// present (same result as `parse_browser_from_user_agent`).
pub fn detect_browser(user_agent: &str, has_brave_api: bool) -> (r: BrowserInfo)
    ensures
        user_agent@.len() == 0 ==> r.name@ == "unknown"@ && r.version@ == "unknown"@
            && r.user_agent@ == "unknown"@,
        user_agent@.len() > 0 ==> (r.name@, r.version@) == browser_name_version(user_agent@, has_brave_api)
            && r.user_agent@ == user_agent@,
{
    parse_browser_from_user_agent(user_agent, has_brave_api)
}

/// A lower-cased user agent names a mobile platform or device.
pub open spec fn names_mobile(lowered: Seq<char>) -> bool {
    let c = |p: Seq<char>| contains_seq(lowered, p);
    c("android"@) || c("iphone"@) || c("ipad"@) || c("ipod"@) || c("blackberry"@)
        || c("windows phone"@) || c("mobile"@) || c("tablet"@) || c("silk"@) || c("kindle"@)
        || c("opera mini"@) || c("opera mobi"@)
}

/// Whether an already lower-cased user agent names a mobile platform or device.
pub fn lowered_names_mobile(lowered: &str) -> (r: bool)
    ensures
        r == names_mobile(lowered@),
{
    let s = chars_of(lowered);
    let u = s.as_slice();
    contains_lit(u, "android") || contains_lit(u, "iphone") || contains_lit(u, "ipad")
        || contains_lit(u, "ipod") || contains_lit(u, "blackberry") || contains_lit(u, "windows phone")
        || contains_lit(u, "mobile") || contains_lit(u, "tablet") || contains_lit(u, "silk")
        || contains_lit(u, "kindle") || contains_lit(u, "opera mini") || contains_lit(u, "opera mobi")
}

/// Check if a user agent indicates a mobile device: its Unicode lower-case
/// form names a mobile platform or device.
pub fn is_mobile_user_agent(user_agent: &str) -> (r: bool)
    ensures
        r == names_mobile(unicode_lowercase(user_agent@)),
{
    let lowered = to_lowercase(user_agent);
    lowered_names_mobile(lowered.as_str())
}

/// Both screen dimensions are known and one of them is at most 768 pixels.
pub open spec fn small_screen(screen_width: Option<u32>, screen_height: Option<u32>) -> bool {
    match (screen_width, screen_height) {
        (Some(w), Some(h)) => w <= 768 || h <= 768,
        _ => false,
    }
}

/// Detect if the device is mobile: a mobile user agent, or a small screen
/// with touch input.
pub fn is_mobile_device(
    user_agent: &str,
    screen_width: Option<u32>,
    screen_height: Option<u32>,
    has_touch: bool,
) -> (r: bool)
    ensures
        r == (names_mobile(unicode_lowercase(user_agent@)) || (small_screen(screen_width, screen_height)
            && has_touch)),
{
    let is_mobile_ua = is_mobile_user_agent(user_agent);
    let is_small_screen = match (screen_width, screen_height) {
        (Some(w), Some(h)) => w <= 768 || h <= 768,
        _ => false,
    };
    is_mobile_ua || (is_small_screen && has_touch)
}

/// Formatted platform name: `name-vVERSION`, or the name alone when the
/// version is "unknown".
pub open spec fn platform_name(name: Seq<char>, version: Seq<char>) -> Seq<char> {
    if version != "unknown"@ {
        name + "-v"@ + version
    } else {
        name
    }
}

/// Get a formatted platform name from browser info.
pub fn get_platform_name(info: &BrowserInfo) -> (r: String)
    ensures
        r@ == platform_name(info.name@, info.version@),
{
    let version = chars_of(info.version.as_str());
    let unknown = chars_of("unknown");
    let mut out = chars_of(info.name.as_str());
    if !chars_eq(version.as_slice(), unknown.as_slice()) {
        push_str(&mut out, "-v");
        push_all(&mut out, version.as_slice());
    }
    string_from_chars(out.as_slice())
}

/// Display-friendly browser name: the name with its first character in
/// upper case ("Unknown" for an empty name), followed by a space and the
/// version unless the version is "unknown".
pub open spec fn display_name(name: Seq<char>, version: Seq<char>) -> Seq<char> {
    let capitalized = if name.len() == 0 {
        "Unknown"@
    } else {
        unicode_uppercase_char(name[0]) + name.skip(1)
    };
    if version != "unknown"@ {
        capitalized + " "@ + version
    } else {
        capitalized
    }
}

/// Get a display-friendly browser name.
pub fn get_browser_display_name(info: &BrowserInfo) -> (r: String)
    ensures
        r@ == display_name(info.name@, info.version@),
{
    let name = chars_of(info.name.as_str());
    let mut out: Vec<char> = if name.len() == 0 {
        chars_of("Unknown")
    } else {
        let first = char_to_uppercase(name[0]);
        let mut v = chars_of(first.as_str());
        let rest = crate::text::slice_chars(name.as_slice(), 1, name.len());
        push_all(&mut v, rest.as_slice());
        proof {
            assert(rest@ =~= name@.skip(1));
        }
        v
    };
    let version = chars_of(info.version.as_str());
    let unknown = chars_of("unknown");
    if !chars_eq(version.as_slice(), unknown.as_slice()) {
        push_str(&mut out, " ");
        push_all(&mut out, version.as_slice());
    }
    string_from_chars(out.as_slice())
}

} // verus!
