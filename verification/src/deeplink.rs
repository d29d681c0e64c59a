//! Deeplinks that open a page in the Phantom mobile app.
use vstd::prelude::*;
use vstd::utf8::encode_utf8;
use crate::text::{chars_of, push_str, starts_with, starts_with_exec, string_from_chars};
use crate::url::{KeepSet, percent_encode_with, percent_encoded};

verus! {

/// Percent encoding as JavaScript's `encodeURIComponent` does it.
pub open spec fn uri_component(s: Seq<char>) -> Seq<char> {
    percent_encoded(encode_utf8(s), KeepSet::Component)
}

/// Percent-encoding of a URL component (the subset of `encodeURIComponent`
/// that keeps `A-Z a-z 0-9 - _ . ! ~ * ' ( )`).
pub fn urlencoding_encode(s: &str) -> (r: String)
    ensures
        r@ == uri_component(s@),
{
    percent_encode_with(s, KeepSet::Component)
}

/// The deeplink for an HTTP(S) page, with an optional referrer.
pub open spec fn deeplink_text(href: Seq<char>, referrer: Option<Seq<char>>) -> Seq<char> {
    "https://phantom.app/ul/browse/"@ + uri_component(href) + match referrer {
        Some(r) => "?ref="@ + uri_component(r),
        None => Seq::<char>::empty(),
    }
}

/// Generate a deeplink URL to open a page in the Phantom mobile app; only
/// `http:` and `https:` URLs are accepted.
pub fn get_deeplink_to_phantom(current_href: &str, referrer: Option<&str>) -> (r: Result<String, String>)
    ensures
        if starts_with(current_href@, "http:"@) || starts_with(current_href@, "https:"@) {
            r matches Ok(u) && u@ == deeplink_text(current_href@, match referrer {
                Some(x) => Some(x@),
                None => None,
            })
        } else {
            r matches Err(e) && e@ == "Invalid URL protocol - only HTTP/HTTPS URLs are supported for deeplinks"@
        },
{
    let href = chars_of(current_href);
    let http = chars_of("http:");
    let https = chars_of("https:");
    if !starts_with_exec(href.as_slice(), http.as_slice()) && !starts_with_exec(
        href.as_slice(),
        https.as_slice(),
    ) {
        return Err(
            String::from_str("Invalid URL protocol - only HTTP/HTTPS URLs are supported for deeplinks"),
        );
    }
    let mut out = chars_of("https://phantom.app/ul/browse/");
    let encoded = urlencoding_encode(current_href);
    push_str(&mut out, encoded.as_str());
    let ghost before = out@;
    match referrer {
        Some(r) => {
            push_str(&mut out, "?ref=");
            let e = urlencoding_encode(r);
            push_str(&mut out, e.as_str());
        },
        None => {},
    }
    proof {
        assert(out@ =~= deeplink_text(current_href@, match referrer {
            Some(x) => Some(x@),
            None => None,
        }));
    }
    Ok(string_from_chars(out.as_slice()))
}

} // verus!
