//! The response header values that the media route sets.

use vstd::prelude::*;
use axum::http::header::InvalidHeaderValue;
use axum::http::HeaderValue;
use crate::config::{cache_control_of, cache_control_text};
use crate::decimal::{decimal_text, lemma_decimal_text_digits};

verus! {

#[verifier::external_type_specification]
#[verifier::external_body]
pub struct ExHeaderValue(HeaderValue);

#[verifier::external_type_specification]
#[verifier::external_body]
pub struct ExInvalidHeaderValue(InvalidHeaderValue);

/// A character that a header value built from text may hold: a tab, or any
/// character from the space upwards except DEL.
pub open spec fn is_header_char(c: char) -> bool {
    c == '\t' || (' ' <= c && c != '\x7f')
}

/// A character that a header value built from a static text may hold: a tab
/// or visible ASCII.
pub open spec fn is_visible_header_char(c: char) -> bool {
    c == '\t' || (' ' <= c && c < '\x7f')
}

/// The header value that `HeaderValue::from_str` builds from a text.
pub uninterp spec fn header_from_text(s: Seq<char>) -> HeaderValue;

/// The header value that `HeaderValue::from_static` builds from a text.
pub uninterp spec fn header_from_static(s: Seq<char>) -> HeaderValue;

/// Relies on http's `HeaderValue::from_str`: it fails exactly when a byte
/// of the text is below 32 (other than a tab) or is 127; otherwise it holds
/// the text.
#[verifier::external_body]
fn header_value_from_str(s: &str) -> (r: Result<HeaderValue, InvalidHeaderValue>)
    ensures
        r is Ok <==> forall|i: int| 0 <= i < s@.len() ==> is_header_char(#[trigger] s@[i]),
        r is Ok ==> r->Ok_0 == header_from_text(s@),
{
    HeaderValue::from_str(s)
}

/// Relies on http's `HeaderValue::from_static`: it holds the text, and
/// panics unless every byte is a tab or visible ASCII.
#[verifier::external_body]
fn header_value_from_static(s: &'static str) -> (r: HeaderValue)
    requires
        forall|i: int| 0 <= i < s@.len() ==> is_visible_header_char(#[trigger] s@[i]),
    ensures
        r == header_from_static(s@),
{
    HeaderValue::from_static(s)
}

/// The `Cache-Control` header value `public, max-age=<max_age>`. Its text
/// always holds valid header characters, so the fixed fallback
/// `public, max-age=3600` is never needed.
pub fn cache_control_header(max_age: u64) -> (r: HeaderValue)
    ensures
        r == header_from_text(cache_control_of(max_age as nat)),
{
    let text = cache_control_text(max_age);
    proof {
        reveal_strlit("public, max-age=");
        lemma_decimal_text_digits(max_age as nat);
        let t = cache_control_of(max_age as nat);
        let p = "public, max-age="@;
        assert forall|i: int| 0 <= i < t.len() implies is_header_char(#[trigger] t[i]) by {
            if i >= p.len() {
                assert(t[i] == decimal_text(max_age as nat)[i - p.len()]);
            }
        }
    }
    match header_value_from_str(text.as_str()) {
        Ok(h) => h,
        Err(_) => {
            proof {
                reveal_strlit("public, max-age=3600");
            }
            header_value_from_static("public, max-age=3600")
        },
    }
}

/// The `Access-Control-Allow-Origin` value `*`, which admits every origin.
pub fn allow_any_origin_header() -> (r: HeaderValue)
    ensures
        r == header_from_static("*"@),
{
    proof {
        reveal_strlit("*");
    }
    header_value_from_static("*")
}

} // verus!
