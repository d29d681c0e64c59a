//! Percent encoding of URL components, percent decoding of query
//! parameters, and the URL parameter accessor of the embedded provider.
use vstd::prelude::*;
pub use vstd::hash_map::StringHashMap;
use vstd::utf8::encode_utf8;
use crate::text::{
    chars_of, find_char, find_char_from, hex_upper, hex_upper_of, slice_chars, split_chars,
    split_on, string_from_chars, lemma_deep_view_chars,
};

verus! {

/// The two sets of bytes that percent encoding keeps as they are.
#[derive(Clone, Copy, PartialEq, Eq, Structural)]
pub enum KeepSet {
    /// RFC 3986 unreserved: `A-Z a-z 0-9 - _ . ~`.
    Unreserved,
    /// What JavaScript's `encodeURIComponent` keeps: `A-Z a-z 0-9 - _ . ! ~ * ' ( )`.
    Component,
}

/// ASCII letter or digit byte.
pub open spec fn alnum_byte(b: u8) -> bool {
    (65 <= b <= 90) || (97 <= b <= 122) || (48 <= b <= 57)
}

/// Whether percent encoding keeps `b` unchanged.
pub open spec fn byte_kept(set: KeepSet, b: u8) -> bool {
    match set {
        KeepSet::Unreserved => alnum_byte(b) || b == 45 || b == 95 || b == 46 || b == 126,
        KeepSet::Component => alnum_byte(b) || b == 45 || b == 95 || b == 46 || b == 33 || b == 126
            || b == 42 || b == 39 || b == 40 || b == 41,
    }
}

/// `%XX` with upper-case hex digits.
pub open spec fn escaped_byte(b: u8) -> Seq<char> {
    seq!['%', hex_upper(b as int / 16), hex_upper(b as int % 16)]
}

/// Percent encoding of a byte string.
pub open spec fn percent_encoded(b: Seq<u8>, set: KeepSet) -> Seq<char>
    decreases b.len(),
{
    if b.len() == 0 {
        Seq::<char>::empty()
    } else {
        percent_encoded(b.drop_last(), set) + if byte_kept(set, b.last()) {
            seq![b.last() as char]
        } else {
            escaped_byte(b.last())
        }
    }
}

fn byte_kept_exec(set: KeepSet, b: u8) -> (r: bool)
    ensures
        r == byte_kept(set, b),
{
    let alnum = (65 <= b && b <= 90) || (97 <= b && b <= 122) || (48 <= b && b <= 57);
    match set {
        KeepSet::Unreserved => alnum || b == 45 || b == 95 || b == 46 || b == 126,
        KeepSet::Component => alnum || b == 45 || b == 95 || b == 46 || b == 33 || b == 126 || b
            == 42 || b == 39 || b == 40 || b == 41,
    }
}

/// Percent-encodes the UTF-8 bytes of `s`, keeping the bytes of `set`.
pub fn percent_encode_with(s: &str, set: KeepSet) -> (r: String)
    ensures
        r@ == percent_encoded(encode_utf8(s@), set),
{
    let b = s.as_bytes();
    let ghost bs = b@;
    let mut out: Vec<char> = Vec::new();
    let mut i: usize = 0;
    proof {
        assert(bs.take(0) =~= Seq::<u8>::empty());
    }
    while i < b.len()
        invariant
            0 <= i <= bs.len(),
            bs == b@,
            out@ == percent_encoded(bs.take(i as int), set),
        decreases bs.len() - i,
    {
        let x = b[i];
        proof {
            assert(bs.take(i + 1).drop_last() =~= bs.take(i as int));
            assert(bs.take(i + 1).last() == x);
        }
        if byte_kept_exec(set, x) {
            out.push(x as char);
        } else {
            out.push('%');
            out.push(hex_upper_of(x / 16));
            out.push(hex_upper_of(x % 16));
        }
        proof {
            assert(out@ =~= percent_encoded(bs.take(i + 1), set));
        }
        i = i + 1;
    }
    proof {
        assert(bs.take(bs.len() as int) =~= bs);
    }
    string_from_chars(out.as_slice())
}

/// ASCII hexadecimal digit byte.
pub open spec fn hex_byte(b: u8) -> bool {
    (48 <= b <= 57) || (97 <= b <= 102) || (65 <= b <= 70)
}

/// Value of a hexadecimal digit byte.
pub open spec fn hex_byte_value(b: u8) -> int {
    if 48 <= b <= 57 {
        b - 48
    } else if 97 <= b <= 102 {
        b - 87
    } else {
        b - 55
    }
}

/// The byte that the two characters after a `%` denote, read as std's
/// `u8::from_str_radix(_, 16)` reads them: two hex digits, or `+` and one.
pub open spec fn escape_value(h: u8, l: u8) -> Option<int> {
    if hex_byte(h) && hex_byte(l) {
        Some(16 * hex_byte_value(h) + hex_byte_value(l))
    } else if h == 43 && hex_byte(l) {
        Some(hex_byte_value(l))
    } else {
        None
    }
}

/// Bytes taken one for one as the characters with the same code.
pub open spec fn latin1(b: Seq<u8>) -> Seq<char> {
    Seq::new(b.len(), |i: int| b[i] as char)
}

/// Percent decoding of a query component: `%XX` gives the character with
/// code `XX`, `+` gives a space, a malformed escape is kept as it is, and
/// every other byte gives the character with its code.
pub open spec fn url_decoded(b: Seq<u8>) -> Seq<char>
    decreases b.len(),
{
    if b.len() == 0 {
        Seq::<char>::empty()
    } else if b[0] == 37 {
        if b.len() >= 3 {
            match escape_value(b[1], b[2]) {
                Some(v) => seq![v as char] + url_decoded(b.skip(3)),
                None => seq!['%', b[1] as char, b[2] as char] + url_decoded(b.skip(3)),
            }
        } else {
            seq!['%'] + latin1(b.skip(1))
        }
    } else if b[0] == 43 {
        seq![' '] + url_decoded(b.skip(1))
    } else {
        seq![b[0] as char] + url_decoded(b.skip(1))
    }
}

fn hex_byte_value_exec(b: u8) -> (r: u8)
    requires
        hex_byte(b),
    ensures
        r == hex_byte_value(b),
{
    if 48 <= b && b <= 57 {
        b - 48
    } else if 97 <= b && b <= 102 {
        b - 87
    } else {
        b - 55
    }
}

fn escape_value_exec(h: u8, l: u8) -> (r: Option<u8>)
    ensures
        match escape_value(h, l) {
            Some(v) => r matches Some(x) && x == v,
            None => r is None,
        },
{
    let hh = (48 <= h && h <= 57) || (97 <= h && h <= 102) || (65 <= h && h <= 70);
    let lh = (48 <= l && l <= 57) || (97 <= l && l <= 102) || (65 <= l && l <= 70);
    if hh && lh {
        Some(16 * hex_byte_value_exec(h) + hex_byte_value_exec(l))
    } else if h == 43 && lh {
        Some(hex_byte_value_exec(l))
    } else {
        None
    }
}

/// Percent-decodes the UTF-8 bytes of `s`.
pub fn url_decode(s: &str) -> (r: String)
    ensures
        r@ == url_decoded(encode_utf8(s@)),
{
    let b = s.as_bytes();
    let ghost bs = b@;
    let n = b.len();
    let mut out: Vec<char> = Vec::new();
    let mut i: usize = 0;
    proof {
        assert(bs.skip(0) =~= bs);
        assert(out@ + url_decoded(bs) =~= url_decoded(bs));
    }
    while i < n
        invariant
            n == bs.len(),
            bs == b@,
            0 <= i <= n,
            out@ + url_decoded(bs.skip(i as int)) == url_decoded(bs),
        decreases n - i,
    {
        let ghost rest = bs.skip(i as int);
        let ghost before = out@;
        let x = b[i];
        proof {
            assert(rest[0] == x);
            assert(rest.skip(1) =~= bs.skip(i + 1));
        }
        if x == 37 {
            if n - i >= 3 {
                let h = b[i + 1];
                let l = b[i + 2];
                proof {
                    assert(rest.skip(3) =~= bs.skip(i + 3));
                    assert(rest[1] == h && rest[2] == l);
                }
                match escape_value_exec(h, l) {
                    Some(v) => {
                        out.push(v as char);
                    },
                    None => {
                        out.push('%');
                        out.push(h as char);
                        out.push(l as char);
                    },
                }
                proof {
                    assert(out@ + url_decoded(bs.skip(i + 3)) =~= before + url_decoded(rest));
                }
                i = i + 3;
            } else {
                out.push('%');
                let mut j = i + 1;
                proof {
                    assert(latin1(bs.subrange(i + 1, i + 1)) =~= Seq::<char>::empty());
                }
                while j < n
                    invariant
                        i + 1 <= j <= n,
                        n == bs.len(),
                        bs == b@,
                        out@ == before + seq!['%'] + latin1(bs.subrange(i + 1, j as int)),
                    decreases n - j,
                {
                    out.push(b[j] as char);
                    j = j + 1;
                    proof {
                        assert(latin1(bs.subrange(i + 1, j as int)) =~= latin1(bs.subrange(i + 1, j - 1)).push(
                            bs[j - 1] as char));
                    }
                }
                proof {
                    assert(rest.skip(1) =~= bs.subrange(i + 1, n as int));
                    assert(bs.skip(n as int) =~= Seq::<u8>::empty());
                    assert(out@ + url_decoded(bs.skip(n as int)) =~= before + url_decoded(rest));
                }
                i = n;
            }
        } else if x == 43 {
            out.push(' ');
            proof {
                assert(out@ + url_decoded(bs.skip(i + 1)) =~= before + url_decoded(rest));
            }
            i = i + 1;
        } else {
            out.push(x as char);
            proof {
                assert(out@ + url_decoded(bs.skip(i + 1)) =~= before + url_decoded(rest));
            }
            i = i + 1;
        }
    }
    proof {
        assert(bs.skip(n as int) =~= Seq::<u8>::empty());
        assert(out@ + Seq::<char>::empty() =~= out@);
    }
    string_from_chars(out.as_slice())
}

/// The piece that percent encoding writes for one byte.
pub open spec fn encoded_piece(set: KeepSet, b: u8) -> Seq<char> {
    if byte_kept(set, b) {
        seq![b as char]
    } else {
        escaped_byte(b)
    }
}

/// Characters taken as the bytes with the same code (for ASCII text).
pub open spec fn ascii_bytes(c: Seq<char>) -> Seq<u8> {
    Seq::new(c.len(), |i: int| c[i] as u8)
}

proof fn lemma_percent_encoded_front(b: Seq<u8>, set: KeepSet)
    requires
        b.len() > 0,
    ensures
        percent_encoded(b, set) == encoded_piece(set, b[0]) + percent_encoded(b.skip(1), set),
    decreases b.len(),
{
    if b.len() == 1 {
        assert(b.drop_last() =~= Seq::<u8>::empty());
        assert(b.skip(1) =~= Seq::<u8>::empty());
        assert(percent_encoded(b.drop_last(), set) =~= Seq::<char>::empty());
        assert(b.last() == b[0]);
        assert(percent_encoded(b.skip(1), set) =~= Seq::<char>::empty());
        assert(percent_encoded(b, set) =~= encoded_piece(set, b[0]));
    } else {
        let d = b.drop_last();
        lemma_percent_encoded_front(d, set);
        assert(d.skip(1) =~= b.skip(1).drop_last());
        assert(b.skip(1).last() == b.last());
        assert(d[0] == b[0]);
        assert(percent_encoded(b, set) =~= encoded_piece(set, b[0]) + percent_encoded(b.skip(1), set));
    }
}

proof fn lemma_hex_digit(v: int)
    requires
        0 <= v < 16,
    ensures
        hex_byte(hex_upper(v) as u8),
        hex_byte_value(hex_upper(v) as u8) == v,
        (hex_upper(v) as u8) as char == hex_upper(v),
{
}

proof fn lemma_percent_encoded_ascii(b: Seq<u8>, set: KeepSet)
    ensures
        vstd::utf8::is_ascii_chars(percent_encoded(b, set)),
    decreases b.len(),
{
    if b.len() > 0 {
        lemma_percent_encoded_ascii(b.drop_last(), set);
        let e = percent_encoded(b, set);
        let front = percent_encoded(b.drop_last(), set);
        let x = b.last();
        if !byte_kept(set, x) {
            lemma_hex_digit(x as int / 16);
            lemma_hex_digit(x as int % 16);
        }
        assert forall|i: int| 0 <= i < e.len() implies '\0' <= #[trigger] e[i] <= '\u{7f}' by {
            if i < front.len() {
                assert(e[i] == front[i]);
            }
        }
    }
}

proof fn lemma_decode_encoded(b: Seq<u8>, set: KeepSet)
    ensures
        url_decoded(ascii_bytes(percent_encoded(b, set))) == latin1(b),
    decreases b.len(),
{
    if b.len() == 0 {
        assert(ascii_bytes(percent_encoded(b, set)) =~= Seq::<u8>::empty());
        assert(latin1(b) =~= Seq::<char>::empty());
    } else {
        lemma_percent_encoded_front(b, set);
        lemma_decode_encoded(b.skip(1), set);
        let x = b[0];
        let piece = encoded_piece(set, x);
        let rest = percent_encoded(b.skip(1), set);
        let bytes = ascii_bytes(piece + rest);
        let rb = ascii_bytes(rest);
        assert(latin1(b) =~= seq![x as char] + latin1(b.skip(1)));
        if byte_kept(set, x) {
            assert(bytes[0] == x);
            assert(bytes.skip(1) =~= rb);
            assert(url_decoded(bytes) == seq![x as char] + url_decoded(rb));
        } else {
            let h = x as int / 16;
            let l = x as int % 16;
            lemma_hex_digit(h);
            lemma_hex_digit(l);
            assert(bytes[0] == 37u8);
            assert(bytes[1] == hex_upper(h) as u8);
            assert(bytes[2] == hex_upper(l) as u8);
            assert(escape_value(bytes[1], bytes[2]) == Some(x as int));
            assert(bytes.skip(3) =~= rb);
            assert(url_decoded(bytes) == seq![(x as int) as char] + url_decoded(rb));
        }
    }
}

/// Percent decoding undoes percent encoding byte for byte: decoding the
/// encoding of `s` (with either set of kept bytes) gives the bytes of `s`
/// as characters, which is `s` itself when `s` is ASCII. A non-ASCII
/// character comes back as its UTF-8 bytes, one character each.
pub proof fn law_decode_undoes_encode(s: Seq<char>, set: KeepSet)
    ensures
        url_decoded(encode_utf8(percent_encoded(encode_utf8(s), set))) == latin1(encode_utf8(s)),
        vstd::utf8::is_ascii_chars(s) ==> url_decoded(encode_utf8(percent_encoded(encode_utf8(s), set))) == s,
{
    let e = percent_encoded(encode_utf8(s), set);
    lemma_percent_encoded_ascii(encode_utf8(s), set);
    vstd::utf8::is_ascii_chars_encode_utf8(e);
    assert(encode_utf8(e) =~= ascii_bytes(e));
    lemma_decode_encoded(encode_utf8(s), set);
    if vstd::utf8::is_ascii_chars(s) {
        vstd::utf8::is_ascii_chars_encode_utf8(s);
        assert forall|i: int| 0 <= i < s.len() implies latin1(encode_utf8(s))[i] == s[i] by {
            assert((s[i] as u8) as char == s[i]);
        }
        assert(latin1(encode_utf8(s)) =~= s);
    }
}

/// The query component of a URL or bare query string: what follows the
/// first `?` (the whole input when there is none), up to the first `#`.
pub open spec fn query_part(s: Seq<char>) -> Seq<char> {
    let q = find_char_from(s, '?', 0);
    let rest = if q < s.len() { s.skip(q + 1) } else { s };
    rest.take(find_char_from(rest, '#', 0))
}

/// The decoded key of a `key=value` pair (the whole pair when it has no `=`).
pub open spec fn pair_key(p: Seq<char>) -> Seq<char> {
    url_decoded(encode_utf8(p.take(find_char_from(p, '=', 0))))
}

/// The decoded value of a `key=value` pair (empty when it has no `=`).
pub open spec fn pair_value(p: Seq<char>) -> Seq<char> {
    let k = find_char_from(p, '=', 0);
    if k < p.len() {
        url_decoded(encode_utf8(p.skip(k + 1)))
    } else {
        Seq::<char>::empty()
    }
}

/// The parameters of a list of `&`-separated pairs: empty pairs are
/// skipped, and a later pair overrides an earlier one with the same key.
pub open spec fn params_of_pairs(ps: Seq<Seq<char>>) -> Map<Seq<char>, Seq<char>>
    decreases ps.len(),
{
    if ps.len() == 0 {
        Map::empty()
    } else {
        let m = params_of_pairs(ps.drop_last());
        if ps.last().len() == 0 {
            m
        } else {
            m.insert(pair_key(ps.last()), pair_value(ps.last()))
        }
    }
}

/// The query parameters of a URL or bare query string.
pub open spec fn query_params(s: Seq<char>) -> Map<Seq<char>, Seq<char>> {
    params_of_pairs(split_on(query_part(s), '&'))
}

/// The query parameters of a URL: those of its query component, none when
/// it has no `?`.
pub open spec fn url_query_params(s: Seq<char>) -> Map<Seq<char>, Seq<char>> {
    if find_char_from(s, '?', 0) < s.len() {
        query_params(s)
    } else {
        Map::empty()
    }
}

/// The views of the values of a string map.
pub open spec fn string_map_view(m: Map<Seq<char>, String>) -> Map<Seq<char>, Seq<char>> {
    m.map_values(|v: String| v@)
}

/// Browser URL parameters accessor: the query parameters used for auth
/// callback detection and redirect resumption.
pub struct BrowserURLParamsAccessor {
    params: StringHashMap<String>,
}

impl View for BrowserURLParamsAccessor {
    type V = Map<Seq<char>, Seq<char>>;

    closed spec fn view(&self) -> Map<Seq<char>, Seq<char>> {
        string_map_view(self.params@)
    }
}

fn decode_chars(c: &[char]) -> (r: String)
    ensures
        r@ == url_decoded(encode_utf8(c@)),
{
    let s = string_from_chars(c);
    url_decode(s.as_str())
}

impl BrowserURLParamsAccessor {
    /// Accessor for the parameters in the `PHANTOM_AUTH_PARAMS` value, when
    /// it is set and non-empty; no parameters otherwise.
    pub fn new(env_params: Option<&str>) -> (r: Self)
        ensures
            r@ == match env_params {
                Some(v) if v@.len() > 0 => query_params(v@),
                _ => Map::<Seq<char>, Seq<char>>::empty(),
            },
    {
        match env_params {
            Some(v) => {
                let c = chars_of(v);
                if c.len() > 0 {
                    return Self { params: Self::parse_query_string(v) };
                }
            },
            None => {},
        }
        let r = Self { params: StringHashMap::new() };
        proof {
            assert(r@ =~= Map::<Seq<char>, Seq<char>>::empty());
        }
        r
    }

    /// Create an accessor from an explicit parameter map.
    pub fn from_params(params: StringHashMap<String>) -> (r: Self)
        ensures
            r@ == string_map_view(params@),
    {
        Self { params }
    }

    /// Create an accessor by parsing the query component of a URL; a URL
    /// without a query (no `?`) gives no parameters.
    pub fn from_url(url: &str) -> (r: Self)
        ensures
            r@ == url_query_params(url@),
    {
        let s = chars_of(url);
        if find_char(s.as_slice(), '?', 0) < s.len() {
            Self { params: Self::parse_query_string(url) }
        } else {
            let r = Self { params: StringHashMap::new() };
            proof {
                assert(r@ =~= Map::<Seq<char>, Seq<char>>::empty());
            }
            r
        }
    }

    /// Parse query parameters from a URL or raw query string.
    pub fn parse_query_string(input: &str) -> (r: StringHashMap<String>)
        ensures
            string_map_view(r@) == query_params(input@),
    {
        let s = chars_of(input);
        let q = find_char(s.as_slice(), '?', 0);
        let start = if q < s.len() { q + 1 } else { 0 };
        let rest = slice_chars(s.as_slice(), start, s.len());
        let hash = find_char(rest.as_slice(), '#', 0);
        let query = slice_chars(rest.as_slice(), 0, hash);
        proof {
            if q < s@.len() {
                assert(rest@ =~= s@.skip(q + 1));
            } else {
                assert(rest@ =~= s@);
            }
            assert(query@ =~= query_part(s@));
        }
        let pairs = split_chars(query.as_slice(), '&');
        let ghost dv = pairs.deep_view();
        let mut m: StringHashMap<String> = StringHashMap::new();
        let mut i: usize = 0;
        proof {
            assert(dv.take(0) =~= Seq::<Seq<char>>::empty());
            assert(string_map_view(m@) =~= Map::<Seq<char>, Seq<char>>::empty());
        }
        while i < pairs.len()
            invariant
                0 <= i <= pairs@.len(),
                dv == pairs.deep_view(),
                dv == split_on(query_part(input@), '&'),
                string_map_view(m@) == params_of_pairs(dv.take(i as int)),
            decreases pairs@.len() - i,
        {
            let p = &pairs[i];
            proof {
                lemma_deep_view_chars(*p);
                assert(dv[i as int] == pairs@[i as int].deep_view());
                assert(dv.take(i + 1).drop_last() =~= dv.take(i as int));
                assert(dv.take(i + 1).last() == p@);
            }
            if p.len() > 0 {
                let eq = find_char(p.as_slice(), '=', 0);
                let key_chars = slice_chars(p.as_slice(), 0, eq);
                let value = if eq < p.len() {
                    let v = slice_chars(p.as_slice(), eq + 1, p.len());
                    proof {
                        assert(v@ =~= p@.skip(eq + 1));
                    }
                    decode_chars(v.as_slice())
                } else {
                    String::new()
                };
                proof {
                    assert(key_chars@ =~= p@.take(eq as int));
                }
                let key = decode_chars(key_chars.as_slice());
                let ghost old_m = m@;
                let ghost kv = key@;
                let ghost vv = value@;
                m.insert(key, value);
                proof {
                    assert(string_map_view(m@) =~= string_map_view(old_m).insert(kv, vv));
                }
            }
            i = i + 1;
        }
        proof {
            assert(dv.take(pairs@.len() as int) =~= dv);
        }
        m
    }

    /// The value of the parameter `key`, if present.
    pub fn get_param(&self, key: &str) -> (r: Option<String>)
        ensures
            match r {
                Some(v) => self@.contains_key(key@) && v@ == self@[key@],
                None => !self@.contains_key(key@),
            },
    {
        match self.params.get(key) {
            Some(v) => Some(v.clone()),
            None => None,
        }
    }
}

} // verus!
