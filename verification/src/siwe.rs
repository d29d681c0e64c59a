//! EIP-4361 "Sign In With Ethereum" messages: field validation, the RFC 3986
//! URI check and the message text.
use vstd::prelude::*;
use crate::ethereum_types::EthereumSignInData;
use crate::text::{
    contains_seq, lemma_contains_append_left, lemma_contains_append_right, lemma_contains_last_two,
    lemma_contains_self, chars_of, chars_eq, digits_value, find_char, find_char_from, first_in, first_in_exec,
    has_char, has_char_exec, opt_view, is_alnum, is_alpha, is_digit, is_hex, lemma_deep_view_chars,
    parse_bounded, parse_unsigned, push_all, push_signed_decimal, push_str, signed_decimal,
    slice_chars, split_chars, split_on, starts_with, string_from_chars,
};

verus! {

/// Character classes of the SIWE and URI grammars.
#[derive(Clone, Copy, PartialEq, Eq, Structural)]
pub enum CharClass {
    /// `[0-9]`
    Digit,
    /// `[0-9a-fA-F]`
    Hex,
    /// `[a-zA-Z]`
    Alpha,
    /// `[a-zA-Z0-9]`
    Alnum,
    /// `[a-zA-Z0-9-]`, the inner characters of a DNS label.
    LabelChar,
    /// `[a-zA-Z0-9+.-]`, the characters of a URI scheme after the first.
    SchemeChar,
    /// The characters that may appear in a URI.
    UriChar,
}

/// Membership of `c` in the character class `k`.
pub open spec fn in_class(k: CharClass, c: char) -> bool {
    match k {
        CharClass::Digit => is_digit(c),
        CharClass::Hex => is_hex(c),
        CharClass::Alpha => is_alpha(c),
        CharClass::Alnum => is_alnum(c),
        CharClass::LabelChar => is_alnum(c) || c == '-',
        CharClass::SchemeChar => is_alnum(c) || c == '+' || c == '-' || c == '.',
        CharClass::UriChar => is_alnum(c) || has_char(":/?#[]@!$&'()*+,;=.-_~%"@, c),
    }
}

/// Every character of `s` is in class `k`.
pub open spec fn all_class(s: Seq<char>, k: CharClass) -> bool {
    forall|i: int| 0 <= i < s.len() ==> in_class(k, #[trigger] s[i])
}

fn in_class_exec(k: CharClass, c: char) -> (r: bool)
    ensures
        r == in_class(k, c),
{
    let alpha = ('a' <= c && c <= 'z') || ('A' <= c && c <= 'Z');
    let digit = '0' <= c && c <= '9';
    match k {
        CharClass::Digit => digit,
        CharClass::Hex => digit || ('a' <= c && c <= 'f') || ('A' <= c && c <= 'F'),
        CharClass::Alpha => alpha,
        CharClass::Alnum => alpha || digit,
        CharClass::LabelChar => alpha || digit || c == '-',
        CharClass::SchemeChar => alpha || digit || c == '+' || c == '-' || c == '.',
        CharClass::UriChar => {
            let extra = chars_of(":/?#[]@!$&'()*+,;=.-_~%");
            alpha || digit || has_char_exec(extra.as_slice(), c)
        },
    }
}

/// Whether every character of `s[from..to]` is in class `k`.
fn all_class_exec(s: &[char], from: usize, to: usize, k: CharClass) -> (r: bool)
    requires
        from <= to <= s@.len(),
    ensures
        r == all_class(s@.subrange(from as int, to as int), k),
{
    let mut i = from;
    while i < to
        invariant
            from <= i <= to <= s@.len(),
            forall|j: int| from <= j < i ==> in_class(k, #[trigger] s@[j]),
        decreases to - i,
    {
        if !in_class_exec(k, s[i]) {
            proof {
                assert(s@.subrange(from as int, to as int)[i - from] == s@[i as int]);
            }
            return false;
        }
        i = i + 1;
    }
    proof {
        let t = s@.subrange(from as int, to as int);
        assert forall|j: int| 0 <= j < t.len() implies in_class(k, #[trigger] t[j]) by {
            assert(t[j] == s@[from + j]);
        }
    }
    true
}

/// `^0x[a-fA-F0-9]{40}$`
pub open spec fn address_ok(a: Seq<char>) -> bool {
    a.len() == 42 && a[0] == '0' && a[1] == 'x' && all_class(a.subrange(2, 42), CharClass::Hex)
}

/// Absolute value of an integer as a natural number.
pub open spec fn abs_nat(x: int) -> nat {
    if x < 0 { (-x) as nat } else { x as nat }
}

/// `n` with every factor two divided out (0 for 0).
pub open spec fn odd_part(n: nat) -> nat
    decreases n,
{
    if n == 0 || n % 2 == 1 {
        n
    } else {
        odd_part(n / 2)
    }
}

/// The chain ID comes back unchanged from a conversion to an IEEE double,
/// `floor` and a saturating conversion back: it has at most 53 significant
/// bits, or it is `i64::MAX` (which rounds up to 2^63 and saturates back).
pub open spec fn chain_id_roundtrips(x: i64) -> bool {
    odd_part(abs_nat(x as int)) < 0x20_0000_0000_0000 || x == i64::MAX
}

fn chain_id_roundtrips_exec(x: i64) -> (r: bool)
    ensures
        r == chain_id_roundtrips(x),
{
    if x == i64::MAX {
        return true;
    }
    let mut a: u64 = if x < 0 {
        if x == i64::MIN {
            9223372036854775808u64
        } else {
            (-x) as u64
        }
    } else {
        x as u64
    };
    assert(a as nat == abs_nat(x as int));
    while a != 0 && a % 2 == 0
        invariant
            odd_part(a as nat) == odd_part(abs_nat(x as int)),
        decreases a,
    {
        a = a / 2;
    }
    a < 0x20_0000_0000_0000u64
}

/// A DNS label: 1 to 63 letters, digits or hyphens, starting and ending with
/// a letter or digit.
pub open spec fn dns_label(l: Seq<char>) -> bool {
    1 <= l.len() <= 63 && in_class(CharClass::Alnum, l[0]) && in_class(CharClass::Alnum, l.last())
        && all_class(l, CharClass::LabelChar)
}

/// A top-level domain: two or more letters.
pub open spec fn top_level_domain(t: Seq<char>) -> bool {
    t.len() >= 2 && all_class(t, CharClass::Alpha)
}

/// `([a-zA-Z0-9]([a-zA-Z0-9-]{0,61}[a-zA-Z0-9])?\.)+[a-zA-Z]{2,}`: one or more
/// labels, each followed by a dot, then a top-level domain.
pub open spec fn dns_host(h: Seq<char>) -> bool {
    let p = split_on(h, '.');
    p.len() >= 2 && (forall|i: int| 0 <= i < p.len() - 1 ==> dns_label(#[trigger] p[i]))
        && top_level_domain(p.last())
}

/// One octet of a dotted IPv4 address: one to three digits, at most 255.
pub open spec fn ip_octet(o: Seq<char>) -> bool {
    1 <= o.len() <= 3 && all_class(o, CharClass::Digit) && digits_value(o) <= 255
}

/// A dotted IPv4 address of four octets.
pub open spec fn ip_host(h: Seq<char>) -> bool {
    let p = split_on(h, '.');
    p.len() == 4 && forall|i: int| 0 <= i < 4 ==> ip_octet(#[trigger] p[i])
}

/// `s[k..]` is empty (no port) or `:` followed by one to five digits.
pub open spec fn port_suffix_ok(s: Seq<char>, k: int) -> bool {
    k == s.len() || (1 <= s.len() - (k + 1) <= 5 && all_class(s.subrange(k + 1, s.len() as int),
        CharClass::Digit))
}

/// An RFC 3986 authority as SIWE accepts it: a DNS name, a dotted IPv4
/// address or `localhost`, with an optional port.
pub open spec fn authority_ok(s: Seq<char>) -> bool {
    let k = find_char_from(s, ':', 0);
    port_suffix_ok(s, k) && (dns_host(s.take(k)) || ip_host(s.take(k)) || s.take(k) == "localhost"@)
}

/// `^[a-zA-Z0-9]{8,}$`
pub open spec fn nonce_ok(n: Seq<char>) -> bool {
    n.len() >= 8 && all_class(n, CharClass::Alnum)
}

/// `^[a-zA-Z][a-zA-Z0-9+.-]*$`
pub open spec fn scheme_ok(s: Seq<char>) -> bool {
    s.len() >= 1 && in_class(CharClass::Alpha, s[0]) && all_class(s.skip(1), CharClass::SchemeChar)
}

fn dns_label_exec(l: &[char]) -> (r: bool)
    ensures
        r == dns_label(l@),
{
    let n = l.len();
    n >= 1 && n <= 63 && in_class_exec(CharClass::Alnum, l[0]) && in_class_exec(CharClass::Alnum, l[n - 1])
        && {
        let ok = all_class_exec(l, 0, n, CharClass::LabelChar);
        proof {
            assert(l@.subrange(0, n as int) =~= l@);
        }
        ok
    }
}

fn dns_host_exec(h: &[char]) -> (r: bool)
    ensures
        r == dns_host(h@),
{
    let p = split_chars(h, '.');
    let ghost dv = p.deep_view();
    if p.len() < 2 {
        return false;
    }
    let mut i: usize = 0;
    while i < p.len() - 1
        invariant
            2 <= p@.len(),
            dv == p.deep_view(),
            dv == split_on(h@, '.'),
            0 <= i <= p@.len() - 1,
            forall|j: int| 0 <= j < i ==> dns_label(#[trigger] dv[j]),
        decreases p@.len() - i,
    {
        proof {
            lemma_deep_view_chars(p@[i as int]);
            assert(dv[i as int] == p@[i as int].deep_view());
        }
        if !dns_label_exec(p[i].as_slice()) {
            return false;
        }
        i = i + 1;
    }
    let last = &p[p.len() - 1];
    proof {
        lemma_deep_view_chars(p@[p@.len() - 1]);
        assert(dv.last() == p@[p@.len() - 1].deep_view());
    }
    let ok = last.len() >= 2 && all_class_exec(last.as_slice(), 0, last.len(), CharClass::Alpha);
    proof {
        assert(last@.subrange(0, last@.len() as int) =~= last@);
    }
    ok
}

fn ip_octet_exec(o: &[char]) -> (r: bool)
    ensures
        r == ip_octet(o@),
{
    let n = o.len();
    if n < 1 || n > 3 {
        return false;
    }
    let digits = all_class_exec(o, 0, n, CharClass::Digit);
    proof {
        assert(o@.subrange(0, n as int) =~= o@);
    }
    if !digits {
        return false;
    }
    let v = parse_bounded(o, 255);
    proof {
        assert(in_class(CharClass::Digit, o@[0]));
    }
    v.is_some()
}

fn ip_host_exec(h: &[char]) -> (r: bool)
    ensures
        r == ip_host(h@),
{
    let p = split_chars(h, '.');
    let ghost dv = p.deep_view();
    if p.len() != 4 {
        return false;
    }
    let mut i: usize = 0;
    while i < 4
        invariant
            p@.len() == 4,
            dv == p.deep_view(),
            dv == split_on(h@, '.'),
            0 <= i <= 4,
            forall|j: int| 0 <= j < i ==> ip_octet(#[trigger] dv[j]),
        decreases 4 - i,
    {
        proof {
            lemma_deep_view_chars(p@[i as int]);
            assert(dv[i as int] == p@[i as int].deep_view());
        }
        if !ip_octet_exec(p[i].as_slice()) {
            return false;
        }
        i = i + 1;
    }
    true
}

fn authority_ok_exec(s: &[char]) -> (r: bool)
    ensures
        r == authority_ok(s@),
{
    let k = find_char(s, ':', 0);
    let port_ok = if k == s.len() {
        true
    } else {
        let n = s.len() - (k + 1);
        1 <= n && n <= 5 && all_class_exec(s, k + 1, s.len(), CharClass::Digit)
    };
    if !port_ok {
        return false;
    }
    let host = slice_chars(s, 0, k);
    proof {
        assert(host@ =~= s@.take(k as int));
    }
    let localhost = chars_of("localhost");
    dns_host_exec(host.as_slice()) || ip_host_exec(host.as_slice()) || chars_eq(host.as_slice(),
        localhost.as_slice())
}

/// A character that may not appear in a URI is present.
pub open spec fn has_illegal_uri_char(s: Seq<char>) -> bool {
    !all_class(s, CharClass::UriChar)
}

/// At `i`, a `%` is followed by a non-hex character, or by a hex digit that
/// is not followed by a second one (a `%` at the very end passes).
pub open spec fn bad_escape_at(s: Seq<char>, i: int) -> bool {
    0 <= i && i + 1 < s.len() && s[i] == '%' && (!is_hex(s[i + 1]) || i + 2 >= s.len() || !is_hex(
        s[i + 2]))
}

/// Components of a URI as RFC 3986 appendix B splits it: scheme (empty when
/// absent), authority, path, query and fragment.
pub open spec fn uri_parts(s: Seq<char>) -> (Seq<char>, Option<Seq<char>>, Seq<char>, Option<Seq<char>>, Option<Seq<char>>) {
    let e = first_in(s, ":/?#"@, 0);
    let has_scheme = 0 < e < s.len() && s[e] == ':';
    let scheme = if has_scheme { s.take(e) } else { Seq::<char>::empty() };
    let p0 = if has_scheme { e + 1 } else { 0 };
    let has_auth = p0 + 2 <= s.len() && s[p0] == '/' && s[p0 + 1] == '/';
    let a_end = if has_auth { first_in(s, "/?#"@, p0 + 2) } else { p0 };
    let authority = if has_auth { Some(s.subrange(p0 + 2, a_end)) } else { None };
    let path_end = first_in(s, "?#"@, a_end);
    let path = s.subrange(a_end, path_end);
    let has_query = path_end < s.len() && s[path_end] == '?';
    let q_end = if has_query { first_in(s, "#"@, path_end + 1) } else { path_end };
    let query = if has_query { Some(s.subrange(path_end + 1, q_end)) } else { None };
    let has_fragment = q_end < s.len() && s[q_end] == '#';
    let fragment = if has_fragment {
        Some(s.subrange(q_end + 1, first_in(s, "\n"@, q_end + 1)))
    } else {
        None
    };
    (scheme, authority, path, query, fragment)
}

/// A valid RFC 3986 URI: only URI characters, no broken percent escape, a
/// non-empty scheme of the scheme grammar, and a path that fits the authority.
pub open spec fn is_uri_spec(s: Seq<char>) -> bool {
    let (scheme, authority, path, query, fragment) = uri_parts(s);
    &&& !has_illegal_uri_char(s)
    &&& !(exists|i: int| bad_escape_at(s, i))
    &&& scheme.len() > 0
    &&& match authority {
        Some(a) => !(a.len() > 0 && path.len() > 0 && path[0] != '/'),
        None => !starts_with(path, "//"@),
    }
    &&& scheme_ok(scheme)
}

fn string_of(s: &[char], from: usize, to: usize) -> (r: String)
    requires
        from <= to <= s@.len(),
    ensures
        r@ == s@.subrange(from as int, to as int),
{
    let v = slice_chars(s, from, to);
    string_from_chars(v.as_slice())
}

/// Split a URI into scheme, authority, path, query and fragment (RFC 3986
/// appendix B); every string has a split, so the result is always `Some`.
pub fn split_uri(value: &str) -> (r: Option<(String, Option<String>, String, Option<String>, Option<String>)>)
    ensures
        r matches Some(p) && (p.0@, opt_view(p.1), p.2@, opt_view(p.3), opt_view(p.4)) == uri_parts(
            value@),
{
    let s = chars_of(value);
    let n = s.len();
    let delims = chars_of(":/?#");
    let e = first_in_exec(s.as_slice(), delims.as_slice(), 0);
    let has_scheme = 0 < e && e < n && s[e] == ':';
    let scheme = if has_scheme { string_of(s.as_slice(), 0, e) } else { String::new() };
    let p0 = if has_scheme { e + 1 } else { 0 };
    let has_auth = n >= 2 && p0 <= n - 2 && s[p0] == '/' && s[p0 + 1] == '/';
    let auth_delims = chars_of("/?#");
    let a_end = if has_auth { first_in_exec(s.as_slice(), auth_delims.as_slice(), p0 + 2) } else { p0 };
    let authority = if has_auth { Some(string_of(s.as_slice(), p0 + 2, a_end)) } else { None };
    let path_delims = chars_of("?#");
    let path_end = first_in_exec(s.as_slice(), path_delims.as_slice(), a_end);
    let path = string_of(s.as_slice(), a_end, path_end);
    let has_query = path_end < n && s[path_end] == '?';
    let hash = chars_of("#");
    let q_end = if has_query { first_in_exec(s.as_slice(), hash.as_slice(), path_end + 1) } else { path_end };
    let query = if has_query { Some(string_of(s.as_slice(), path_end + 1, q_end)) } else { None };
    let has_fragment = q_end < n && s[q_end] == '#';
    let newline = chars_of("\n");
    let fragment = if has_fragment {
        let f_end = first_in_exec(s.as_slice(), newline.as_slice(), q_end + 1);
        Some(string_of(s.as_slice(), q_end + 1, f_end))
    } else {
        None
    };
    proof {
        if has_scheme {
            assert(s@.subrange(0, e as int) =~= s@.take(e as int));
        }
    }
    Some((scheme, authority, path, query, fragment))
}

/// Whether some `%` at or after `from` starts a broken escape.
fn has_bad_escape(s: &[char]) -> (r: bool)
    ensures
        r == exists|i: int| bad_escape_at(s@, i),
{
    let n = s.len();
    let mut i: usize = 0;
    while i < n
        invariant
            n == s@.len(),
            0 <= i <= n,
            forall|j: int| 0 <= j < i ==> !bad_escape_at(s@, j),
        decreases n - i,
    {
        if s[i] == '%' && i + 1 < n {
            let h1 = in_class_exec(CharClass::Hex, s[i + 1]);
            if !h1 || i + 2 >= n || !in_class_exec(CharClass::Hex, s[i + 2]) {
                assert(bad_escape_at(s@, i as int));
                return true;
            }
        }
        i = i + 1;
    }
    false
}

/// Check if a value is a valid RFC 3986 URI.
pub fn is_uri(value: &str) -> (r: bool)
    ensures
        r == is_uri_spec(value@),
{
    let s = chars_of(value);
    let all_ok = all_class_exec(s.as_slice(), 0, s.len(), CharClass::UriChar);
    proof {
        assert(s@.subrange(0, s@.len() as int) =~= s@);
    }
    if !all_ok {
        return false;
    }
    if has_bad_escape(s.as_slice()) {
        return false;
    }
    let parts = split_uri(value);
    let (scheme, authority, path, _query, _fragment) = match parts {
        Some(p) => p,
        None => return false,
    };
    let sc = chars_of(scheme.as_str());
    if sc.len() == 0 {
        return false;
    }
    let pc = chars_of(path.as_str());
    match authority {
        Some(auth) => {
            let a = chars_of(auth.as_str());
            if a.len() > 0 && pc.len() > 0 && pc[0] != '/' {
                return false;
            }
        },
        None => {
            let slashes = chars_of("//");
            if crate::text::starts_with_exec(pc.as_slice(), slashes.as_slice()) {
                return false;
            }
        },
    }
    let first_ok = in_class_exec(CharClass::Alpha, sc[0]);
    let rest_ok = all_class_exec(sc.as_slice(), 1, sc.len(), CharClass::SchemeChar);
    proof {
        assert(sc@.subrange(1, sc@.len() as int) =~= sc@.skip(1));
    }
    first_ok && rest_ok
}

/// The first validation error of SIWE data, in the order the fields are checked.
pub open spec fn siwe_validation_error(d: EthereumSignInData) -> Option<Seq<char>> {
    if !address_ok(d.address@) {
        Some("address must be a hex value of 20 bytes (40 hex characters)."@)
    } else if !chain_id_roundtrips(d.chain_id) {
        Some("chainId must be a EIP-155 chain ID."@)
    } else if !authority_ok(d.domain@) {
        Some("domain must be an RFC 3986 authority."@)
    } else if !nonce_ok(d.nonce@) {
        Some("nonce must be at least 8 characters."@)
    } else if !is_uri_spec(d.uri@) {
        Some("uri must be a RFC 3986 URI referring to the resource that is the subject of the signing."@)
    } else if d.version@ != "1"@ {
        Some("version must be '1'."@)
    } else if d.scheme is Some && !scheme_ok(d.scheme.unwrap()@) {
        Some("scheme must be an RFC 3986 URI scheme."@)
    } else if d.statement is Some && has_char(d.statement.unwrap()@, '\n') {
        Some("statement must not include '\\n'."@)
    } else if d.resources is Some && exists|i: int|
        0 <= i < d.resources.unwrap().deep_view().len() && !is_uri_spec(
            #[trigger] d.resources.unwrap().deep_view()[i],
        ) {
        Some("resources must be RFC 3986 URIs."@)
    } else {
        None
    }
}

/// `label` followed by the value, or nothing when the value is absent.
pub open spec fn opt_line(label: Seq<char>, value: Option<Seq<char>>) -> Seq<char> {
    match value {
        Some(v) => label + v,
        None => Seq::<char>::empty(),
    }
}

/// One `\n- <resource>` line per resource.
pub open spec fn resource_lines(rs: Seq<Seq<char>>) -> Seq<char>
    decreases rs.len(),
{
    if rs.len() == 0 {
        Seq::<char>::empty()
    } else {
        resource_lines(rs.drop_last()) + "\n- "@ + rs.last()
    }
}

/// The header of the message: origin, address and the optional statement.
pub open spec fn siwe_prefix(d: EthereumSignInData) -> Seq<char> {
    let origin = match d.scheme {
        Some(sc) => sc@ + "://"@ + d.domain@,
        None => d.domain@,
    };
    let statement = match d.statement {
        Some(st) => st@ + "\n"@,
        None => Seq::<char>::empty(),
    };
    origin + " wants you to sign in with your Ethereum account:\n"@ + d.address@ + "\n\n"@ + statement
}

/// The field lines of the message.
pub open spec fn siwe_suffix(d: EthereumSignInData, issued_at: Seq<char>) -> Seq<char> {
    "URI: "@ + d.uri@ + "\nVersion: "@ + d.version@ + "\nChain ID: "@ + signed_decimal(d.chain_id as int)
        + "\nNonce: "@ + d.nonce@ + "\nIssued At: "@ + issued_at + opt_line(
        "\nExpiration Time: "@,
        opt_view(d.expiration_time),
    ) + opt_line("\nNot Before: "@, opt_view(d.not_before)) + opt_line(
        "\nRequest ID: "@,
        opt_view(d.request_id),
    ) + match d.resources {
        Some(rs) => "\nResources:"@ + resource_lines(rs.deep_view()),
        None => Seq::<char>::empty(),
    }
}

/// The EIP-4361 message text for valid data issued at `issued_at`.
pub open spec fn siwe_text(d: EthereumSignInData, issued_at: Seq<char>) -> Seq<char> {
    siwe_prefix(d) + "\n"@ + siwe_suffix(d, issued_at)
}

fn push_opt_line(out: &mut Vec<char>, label: &str, value: &Option<String>)
    ensures
        final(out)@ == old(out)@ + opt_line(label@, opt_view(*value)),
{
    match value {
        Some(v) => {
            push_str(out, label);
            push_str(out, v.as_str());
            proof {
                assert(out@ =~= old(out)@ + opt_line(label@, opt_view(*value)));
            }
        },
        None => {
            proof {
                assert(old(out)@ + Seq::<char>::empty() =~= old(out)@);
            }
        },
    }
}

fn push_resource_lines(out: &mut Vec<char>, rs: &Vec<String>)
    ensures
        final(out)@ == old(out)@ + resource_lines(rs.deep_view()),
{
    let ghost dv = rs.deep_view();
    let mut i: usize = 0;
    proof {
        assert(dv.take(0) =~= Seq::<Seq<char>>::empty());
        assert(old(out)@ + Seq::<char>::empty() =~= old(out)@);
    }
    while i < rs.len()
        invariant
            0 <= i <= rs@.len(),
            dv == rs.deep_view(),
            out@ == old(out)@ + resource_lines(dv.take(i as int)),
        decreases rs@.len() - i,
    {
        let ghost before = out@;
        push_str(out, "\n- ");
        push_str(out, rs[i].as_str());
        proof {
            assert(dv.take(i + 1).drop_last() =~= dv.take(i as int));
            assert(dv.take(i + 1).last() == rs@[i as int]@);
            assert(out@ =~= old(out)@ + resource_lines(dv.take(i + 1)));
        }
        i = i + 1;
    }
    proof {
        assert(dv.take(rs@.len() as int) =~= dv);
    }
}

/// Whether every resource is a URI.
fn resources_ok(rs: &Vec<String>) -> (r: bool)
    ensures
        r == forall|i: int| 0 <= i < rs.deep_view().len() ==> is_uri_spec(#[trigger] rs.deep_view()[i]),
{
    let ghost dv = rs.deep_view();
    let mut i: usize = 0;
    while i < rs.len()
        invariant
            0 <= i <= rs@.len(),
            dv == rs.deep_view(),
            forall|j: int| 0 <= j < i ==> is_uri_spec(#[trigger] dv[j]),
        decreases rs@.len() - i,
    {
        if !is_uri(rs[i].as_str()) {
            proof {
                assert(dv[i as int] == rs@[i as int]@);
            }
            return false;
        }
        i = i + 1;
    }
    true
}

/// The validation error of `data`, if any.
fn validation_error(data: &EthereumSignInData) -> (r: Option<String>)
    ensures
        opt_view(r) == siwe_validation_error(*data),
{
    let address = chars_of(data.address.as_str());
    let address_valid = address.len() == 42 && address[0] == '0' && address[1] == 'x'
        && all_class_exec(address.as_slice(), 2, 42, CharClass::Hex);
    if !address_valid {
        return Some(String::from_str("address must be a hex value of 20 bytes (40 hex characters)."));
    }
    if !chain_id_roundtrips_exec(data.chain_id) {
        return Some(String::from_str("chainId must be a EIP-155 chain ID."));
    }
    let domain = chars_of(data.domain.as_str());
    if !authority_ok_exec(domain.as_slice()) {
        return Some(String::from_str("domain must be an RFC 3986 authority."));
    }
    let nonce = chars_of(data.nonce.as_str());
    let nonce_valid = nonce.len() >= 8 && all_class_exec(nonce.as_slice(), 0, nonce.len(), CharClass::Alnum);
    proof {
        assert(nonce@.subrange(0, nonce@.len() as int) =~= nonce@);
    }
    if !nonce_valid {
        return Some(String::from_str("nonce must be at least 8 characters."));
    }
    if !is_uri(data.uri.as_str()) {
        return Some(
            String::from_str(
                "uri must be a RFC 3986 URI referring to the resource that is the subject of the signing.",
            ),
        );
    }
    if !crate::text::str_eq(data.version.as_str(), "1") {
        return Some(String::from_str("version must be '1'."));
    }
    if let Some(scheme) = &data.scheme {
        let sc = chars_of(scheme.as_str());
        let valid = sc.len() >= 1 && in_class_exec(CharClass::Alpha, sc[0]) && all_class_exec(
            sc.as_slice(),
            1,
            sc.len(),
            CharClass::SchemeChar,
        );
        proof {
            if sc@.len() >= 1 {
                assert(sc@.subrange(1, sc@.len() as int) =~= sc@.skip(1));
            }
        }
        if !valid {
            return Some(String::from_str("scheme must be an RFC 3986 URI scheme."));
        }
    }
    if let Some(statement) = &data.statement {
        let st = chars_of(statement.as_str());
        if has_char_exec(st.as_slice(), '\n') {
            return Some(String::from_str("statement must not include '\\n'."));
        }
    }
    if let Some(resources) = &data.resources {
        if !resources_ok(resources) {
            return Some(String::from_str("resources must be RFC 3986 URIs."));
        }
    }
    None
}

fn push_siwe_prefix(out: &mut Vec<char>, data: &EthereumSignInData)
    ensures
        final(out)@ == old(out)@ + siwe_prefix(*data),
{
    match &data.scheme {
        Some(sc) => {
            push_str(out, sc.as_str());
            push_str(out, "://");
            push_str(out, data.domain.as_str());
        },
        None => {
            push_str(out, data.domain.as_str());
        },
    }
    push_str(out, " wants you to sign in with your Ethereum account:\n");
    push_str(out, data.address.as_str());
    push_str(out, "\n\n");
    match &data.statement {
        Some(st) => {
            push_str(out, st.as_str());
            push_str(out, "\n");
        },
        None => {},
    }
    proof {
        assert(out@ =~= old(out)@ + siwe_prefix(*data));
    }
}

fn push_siwe_fields(out: &mut Vec<char>, data: &EthereumSignInData, issued_at: &str)
    ensures
        final(out)@ == old(out)@ + "URI: "@ + data.uri@ + "\nVersion: "@ + data.version@ + "\nChain ID: "@
            + signed_decimal(data.chain_id as int) + "\nNonce: "@ + data.nonce@ + "\nIssued At: "@
            + issued_at@,
{
    push_str(out, "URI: ");
    push_str(out, data.uri.as_str());
    push_str(out, "\nVersion: ");
    push_str(out, data.version.as_str());
    push_str(out, "\nChain ID: ");
    push_signed_decimal(out, data.chain_id);
    push_str(out, "\nNonce: ");
    push_str(out, data.nonce.as_str());
    push_str(out, "\nIssued At: ");
    push_str(out, issued_at);
}

fn push_siwe_suffix(out: &mut Vec<char>, data: &EthereumSignInData, issued_at: &str)
    ensures
        final(out)@ == old(out)@ + siwe_suffix(*data, issued_at@),
{
    push_siwe_fields(out, data, issued_at);
    let ghost fields = out@;
    push_opt_line(out, "\nExpiration Time: ", &data.expiration_time);
    push_opt_line(out, "\nNot Before: ", &data.not_before);
    push_opt_line(out, "\nRequest ID: ", &data.request_id);
    let ghost lines = out@;
    match &data.resources {
        Some(rs) => {
            push_str(out, "\nResources:");
            push_resource_lines(out, rs);
        },
        None => {},
    }
    proof {
        assert(out@ =~= old(out)@ + siwe_suffix(*data, issued_at@));
    }
}

/// Builds the EIP-4361 message for `data` issued at `issued_at`, or the
/// first validation error.
pub fn format_siwe_message(data: &EthereumSignInData, issued_at: &str) -> (r: Result<String, String>)
    ensures
        match siwe_validation_error(*data) {
            Some(e) => r matches Err(m) && m@ == e,
            None => r matches Ok(m) && m@ == siwe_text(*data, issued_at@),
        },
{
    if let Some(e) = validation_error(data) {
        return Err(e);
    }
    let mut out: Vec<char> = Vec::new();
    push_siwe_prefix(&mut out, data);
    push_str(&mut out, "\n");
    push_siwe_suffix(&mut out, data, issued_at);
    proof {
        assert(out@ =~= siwe_text(*data, issued_at@));
    }
    Ok(string_from_chars(out.as_slice()))
}

/// Every character of `t` from `a` up to `b` is an ASCII digit.
pub open spec fn digits_between(t: Seq<char>, a: int, b: int) -> bool {
    forall|i: int| a <= i < b ==> is_digit(#[trigger] t[i])
}

/// `t` is an RFC 3339 UTC time as chrono's `to_rfc3339` writes it, with a
/// year of `yl` characters and a fraction of `fl` characters:
/// `YYYY-MM-DDTHH:MM:SS`, then nothing or `.` and 3, 6 or 9 digits, then
/// `+00:00`. The year is four digits, or a sign and at least four digits
/// outside the years 0 to 9999.
pub open spec fn rfc3339_utc_at(t: Seq<char>, yl: int, fl: int) -> bool {
    &&& (fl == 0 || fl == 4 || fl == 7 || fl == 10)
    &&& t.len() == yl + 15 + fl + 6
    &&& ((yl == 4 && digits_between(t, 0, 4)) || (yl >= 5 && (t[0] == '+' || t[0] == '-') && digits_between(
        t,
        1,
        yl,
    )))
    &&& t[yl] == '-' && digits_between(t, yl + 1, yl + 3)
    &&& t[yl + 3] == '-' && digits_between(t, yl + 4, yl + 6)
    &&& t[yl + 6] == 'T' && digits_between(t, yl + 7, yl + 9)
    &&& t[yl + 9] == ':' && digits_between(t, yl + 10, yl + 12)
    &&& t[yl + 12] == ':' && digits_between(t, yl + 13, yl + 15)
    &&& fl > 0 ==> t[yl + 15] == '.' && digits_between(t, yl + 16, yl + 15 + fl)
    &&& t.subrange(yl + 15 + fl, t.len() as int) == "+00:00"@
}

/// `t` is an RFC 3339 UTC time as chrono's `to_rfc3339` writes it.
pub open spec fn is_rfc3339_utc(t: Seq<char>) -> bool {
    exists|yl: int, fl: int| #[trigger] rfc3339_utc_at(t, yl, fl)
}

/// The current time as an RFC 3339 string (chrono's
/// `Utc::now().to_rfc3339()`). Which time it is depends on the clock, so
/// only its form is claimed: chrono writes the date, `T`, the time with the
/// fraction of a second its nanoseconds need (none, or 3, 6 or 9 digits)
/// and the UTC offset `+00:00`.
#[verifier::external_body]
fn now_rfc3339() -> (r: String)
    ensures
        is_rfc3339_utc(r@),
{
    chrono::Utc::now().to_rfc3339()
}

/// Create an EIP-4361 Sign In With Ethereum message. The validation errors
/// are exact; the message is issued at `data.issued_at`, or at the current
/// time, an RFC 3339 UTC time, when that is absent.
pub fn create_siwe_message(data: &EthereumSignInData) -> (r: Result<String, String>)
    ensures
        match siwe_validation_error(*data) {
            Some(e) => r matches Err(m) && m@ == e,
            None => r matches Ok(m) && match data.issued_at {
                Some(t) => m@ == siwe_text(*data, t@),
                None => exists|t: Seq<char>| is_rfc3339_utc(t) && m@ == siwe_text(*data, t),
            },
        },
{
    let issued_at = match &data.issued_at {
        Some(t) => t.clone(),
        None => now_rfc3339(),
    };
    format_siwe_message(data, issued_at.as_str())
}

proof fn lemma_deep_view_len(v: Vec<String>)
    ensures
        v.deep_view().len() == v@.len(),
        forall|i: int| 0 <= i < v@.len() ==> v.deep_view()[i] == (#[trigger] v@[i])@,
{
}

proof fn lemma_resource_line(rs: Seq<Seq<char>>, i: int)
    requires
        0 <= i < rs.len(),
    ensures
        contains_seq(resource_lines(rs), "\n- "@ + rs[i]),
    decreases rs.len(),
{
    let before = resource_lines(rs.drop_last());
    if i == rs.len() - 1 {
        lemma_contains_last_two(before, "\n- "@, rs.last());
    } else {
        lemma_resource_line(rs.drop_last(), i);
        lemma_contains_append_right(before, "\n- "@, "\n- "@ + rs[i]);
        lemma_contains_append_right(before + "\n- "@, rs.last(), "\n- "@ + rs[i]);
    }
}

/// Every field of the data appears in the message on its own labelled line,
/// whatever the other fields are: the message opens with the origin and the
/// address; the URI, version, chain ID, nonce and issue time are always
/// there; the statement, expiration time, not-before time, request ID and
/// each resource appear exactly as given whenever they are present.
pub proof fn law_siwe_lines(d: EthereumSignInData, t: Seq<char>)
    ensures
        contains_seq(siwe_text(d, t), "URI: "@ + d.uri@),
        contains_seq(siwe_text(d, t), "\nVersion: "@ + d.version@),
        contains_seq(siwe_text(d, t), "\nChain ID: "@ + signed_decimal(d.chain_id as int)),
        contains_seq(siwe_text(d, t), "\nNonce: "@ + d.nonce@),
        contains_seq(siwe_text(d, t), "\nIssued At: "@ + t),
        d.statement matches Some(st) ==> contains_seq(siwe_text(d, t), "\n\n"@ + (st@ + "\n"@)),
        d.expiration_time matches Some(e) ==> contains_seq(siwe_text(d, t), "\nExpiration Time: "@ + e@),
        d.not_before matches Some(nb) ==> contains_seq(siwe_text(d, t), "\nNot Before: "@ + nb@),
        d.request_id matches Some(rq) ==> contains_seq(siwe_text(d, t), "\nRequest ID: "@ + rq@),
        starts_with(
            siwe_text(d, t),
            match d.scheme {
                Some(sc) => sc@ + "://"@ + d.domain@,
                None => d.domain@,
            } + " wants you to sign in with your Ethereum account:\n"@ + d.address@ + "\n\n"@,
        ),
        d.resources matches Some(rs) ==> forall|i: int|
            0 <= i < rs@.len() ==> contains_seq(siwe_text(d, t), "\n- "@ + (#[trigger] rs@[i])@),
{
    let s1 = "URI: "@ + d.uri@;
    let s2 = s1 + "\nVersion: "@;
    let s3 = s2 + d.version@;
    let s4 = s3 + "\nChain ID: "@;
    let s5 = s4 + signed_decimal(d.chain_id as int);
    let s6 = s5 + "\nNonce: "@;
    let s7 = s6 + d.nonce@;
    let s8 = s7 + "\nIssued At: "@;
    let s9 = s8 + t;
    let el = opt_line("\nExpiration Time: "@, opt_view(d.expiration_time));
    let nl = opt_line("\nNot Before: "@, opt_view(d.not_before));
    let rl = opt_line("\nRequest ID: "@, opt_view(d.request_id));
    let res = match d.resources {
        Some(rs) => "\nResources:"@ + resource_lines(rs.deep_view()),
        None => Seq::<char>::empty(),
    };
    let s10 = s9 + el;
    let s11 = s10 + nl;
    let s12 = s11 + rl;
    let suffix = siwe_suffix(d, t);
    assert(suffix == s12 + res);
    let head = siwe_prefix(d) + "\n"@;
    assert(siwe_text(d, t) == head + suffix);
    // Each line occurs in some s_k; what s_k contains, the text contains.
    assert forall|x: Seq<char>| #[trigger] contains_seq(s9, x) implies contains_seq(siwe_text(d, t), x) by {
        lemma_contains_append_right(s9, el, x);
        lemma_contains_append_right(s10, nl, x);
        lemma_contains_append_right(s11, rl, x);
        lemma_contains_append_right(s12, res, x);
        lemma_contains_append_left(head, suffix, x);
    }
    lemma_contains_self(s1);
    lemma_contains_append_right(s1, "\nVersion: "@, s1);
    lemma_contains_append_right(s2, d.version@, s1);
    lemma_contains_last_two(s1, "\nVersion: "@, d.version@);
    assert(forall|x: Seq<char>| contains_seq(s3, x) ==> contains_seq(s9, x)) by {
        assert forall|x: Seq<char>| contains_seq(s3, x) implies contains_seq(s9, x) by {
            lemma_contains_append_right(s3, "\nChain ID: "@, x);
            lemma_contains_append_right(s4, signed_decimal(d.chain_id as int), x);
            lemma_contains_append_right(s5, "\nNonce: "@, x);
            lemma_contains_append_right(s6, d.nonce@, x);
            lemma_contains_append_right(s7, "\nIssued At: "@, x);
            lemma_contains_append_right(s8, t, x);
        }
    }
    assert(contains_seq(s3, s1));
    assert(contains_seq(s9, s1));
    assert(contains_seq(s9, "\nVersion: "@ + d.version@));
    lemma_contains_last_two(s3, "\nChain ID: "@, signed_decimal(d.chain_id as int));
    lemma_contains_append_right(s5, "\nNonce: "@, "\nChain ID: "@ + signed_decimal(d.chain_id as int));
    lemma_contains_append_right(s6, d.nonce@, "\nChain ID: "@ + signed_decimal(d.chain_id as int));
    lemma_contains_append_right(s7, "\nIssued At: "@, "\nChain ID: "@ + signed_decimal(d.chain_id as int));
    lemma_contains_append_right(s8, t, "\nChain ID: "@ + signed_decimal(d.chain_id as int));
    assert(contains_seq(s9, "\nChain ID: "@ + signed_decimal(d.chain_id as int)));
    lemma_contains_last_two(s5, "\nNonce: "@, d.nonce@);
    lemma_contains_append_right(s7, "\nIssued At: "@, "\nNonce: "@ + d.nonce@);
    lemma_contains_append_right(s8, t, "\nNonce: "@ + d.nonce@);
    assert(contains_seq(s9, "\nNonce: "@ + d.nonce@));
    lemma_contains_last_two(s7, "\nIssued At: "@, t);
    assert(contains_seq(s9, "\nIssued At: "@ + t));
    if d.expiration_time is Some {
        lemma_contains_self(el);
        lemma_contains_append_left(s9, el, el);
        lemma_contains_append_right(s10, nl, el);
        lemma_contains_append_right(s11, rl, el);
        lemma_contains_append_right(s12, res, el);
        lemma_contains_append_left(head, suffix, el);
    }
    if d.not_before is Some {
        lemma_contains_self(nl);
        lemma_contains_append_left(s10, nl, nl);
        lemma_contains_append_right(s11, rl, nl);
        lemma_contains_append_right(s12, res, nl);
        lemma_contains_append_left(head, suffix, nl);
    }
    if d.request_id is Some {
        lemma_contains_self(rl);
        lemma_contains_append_left(s11, rl, rl);
        lemma_contains_append_right(s12, res, rl);
        lemma_contains_append_left(head, suffix, rl);
    }
    let origin = match d.scheme {
        Some(sc) => sc@ + "://"@ + d.domain@,
        None => d.domain@,
    };
    let greeting = origin + " wants you to sign in with your Ethereum account:\n"@ + d.address@ + "\n\n"@;
    let statement = match d.statement {
        Some(st) => st@ + "\n"@,
        None => Seq::<char>::empty(),
    };
    assert(siwe_text(d, t) =~= greeting + (statement + "\n"@ + suffix));
    assert(siwe_text(d, t).subrange(0, greeting.len() as int) =~= greeting);
    if d.resources is Some {
        let rs = d.resources.unwrap();
        let lines = resource_lines(rs.deep_view());
        assert(res == "\nResources:"@ + lines);
        assert forall|i: int| 0 <= i < rs@.len() implies contains_seq(siwe_text(d, t), "\n- "@ + (#[trigger] rs@[i])@)
            by {
            lemma_deep_view_len(rs);
            assert(rs.deep_view()[i] == rs@[i]@);
            lemma_resource_line(rs.deep_view(), i);
            lemma_contains_append_left("\nResources:"@, lines, "\n- "@ + rs@[i]@);
            lemma_contains_append_left(s12, res, "\n- "@ + rs@[i]@);
            lemma_contains_append_left(head, suffix, "\n- "@ + rs@[i]@);
        }
    }
    if d.statement is Some {
        let st = d.statement.unwrap()@;
        let a = origin + " wants you to sign in with your Ethereum account:\n"@ + d.address@;
        assert(siwe_prefix(d) == a + "\n\n"@ + (st + "\n"@));
        lemma_contains_last_two(a, "\n\n"@, st + "\n"@);
        lemma_contains_append_right(siwe_prefix(d), "\n"@, "\n\n"@ + (st + "\n"@));
        lemma_contains_append_right(head, suffix, "\n\n"@ + (st + "\n"@));
    }
}

} // verus!
