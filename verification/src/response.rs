//! Normalizing a raw transport response into the record handed back to the
//! caller: the standard reason phrase for the status code (with a fixed
//! fallback when there is none), header values that could not be decoded as
//! text degraded to empty strings, and the body passed through unchanged.
use vstd::prelude::*;

verus! {

/// The normalized response record: status code, reason phrase, headers and
/// the fully buffered body, all as plain text.
pub struct HttpResponse {
    pub status: u16,
    pub status_text: String,
    pub headers: Vec<(String, String)>,
    pub body: String,
}

/// The standard reason phrase of a status code, if it has one. It is a
/// fixed table keyed by the code alone.
pub uninterp spec fn reason_phrase(status: u16) -> Option<Seq<char>>;

/// Relies on reqwest::StatusCode::canonical_reason: the standard reason
/// phrase is a fixed table keyed by the status code alone, and codes with
/// no standard phrase (including everything outside 100..=999, which
/// StatusCode::from_u16 rejects) have none.
#[verifier::external_body]
fn canonical_reason_of(status: u16) -> (r: Option<&'static str>)
    ensures
        match r {
            Some(p) => reason_phrase(status) == Some(p@),
            None => reason_phrase(status) is None,
        },
{
    match reqwest::StatusCode::from_u16(status) {
        Ok(code) => code.canonical_reason(),
        Err(_) => None,
    }
}

/// The reason phrase reported for a status code: the standard one where it
/// exists, the fixed fallback otherwise.
pub open spec fn status_text_spec(status: u16) -> Seq<char> {
    match reason_phrase(status) {
        Some(p) => p,
        None => "Unknown"@,
    }
}

/// Turns an optional reason phrase into the reported text: the phrase
/// itself when there is one, the fixed fallback otherwise.
pub fn status_text_from_reason(reason: Option<&str>) -> (r: String)
    ensures
        r@ == match reason {
            Some(p) => p@,
            None => "Unknown"@,
        },
{
    match reason {
        Some(p) => p.to_owned(),
        None => "Unknown".to_owned(),
    }
}

/// The reported reason phrase of a status code.
pub fn status_text_of(status: u16) -> (r: String)
    ensures
        r@ == status_text_spec(status),
{
    status_text_from_reason(canonical_reason_of(status))
}

/// The text recorded for a header value: the decoded text where decoding
/// succeeded, an empty string where it did not. A bad header value degrades
/// rather than failing the whole call.
pub open spec fn header_value_text(v: Option<Seq<char>>) -> Seq<char> {
    match v {
        Some(s) => s,
        None => Seq::<char>::empty(),
    }
}

/// Normalizes decoded response headers: every header the server returned is
/// kept, in order, and a value that could not be decoded as text (`None`)
/// is recorded as an empty string.
pub fn normalize_headers(raw: &Vec<(String, Option<String>)>) -> (r: Vec<(String, String)>)
    ensures
        r@.len() == raw@.len(),
        forall|i: int|
            0 <= i < raw@.len() ==> #[trigger] r@[i].0@ == raw@[i].0@ && r@[i].1@
                == header_value_text(option_view(raw@[i].1)),
{
    let mut out: Vec<(String, String)> = Vec::new();
    let mut i: usize = 0;
    while i < raw.len()
        invariant
            0 <= i <= raw@.len(),
            out@.len() == i,
            forall|j: int|
                0 <= j < i ==> #[trigger] out@[j].0@ == raw@[j].0@ && out@[j].1@
                    == header_value_text(option_view(raw@[j].1)),
        decreases raw@.len() - i,
    {
        let name = raw[i].0.clone();
        let value = match &raw[i].1 {
            Some(v) => v.clone(),
            None => String::new(),
        };
        out.push((name, value));
        i = i + 1;
    }
    out
}

/// The view of an optional string: the character sequence where one is
/// present.
pub open spec fn option_view(v: Option<String>) -> Option<Seq<char>> {
    match v {
        Some(s) => Some(s@),
        None => None,
    }
}

/// Composes the normalized response from the pieces the transport produced:
/// the status code unchanged, its reported reason phrase, the normalized
/// headers, and the body unchanged.
pub fn normalize_response(
    status: u16,
    raw_headers: &Vec<(String, Option<String>)>,
    body: String,
) -> (r: HttpResponse)
    ensures
        r.status == status,
        r.status_text@ == status_text_spec(status),
        r.headers@.len() == raw_headers@.len(),
        forall|i: int|
            0 <= i < raw_headers@.len() ==> #[trigger] r.headers@[i].0@ == raw_headers@[i].0@
                && r.headers@[i].1@ == header_value_text(option_view(raw_headers@[i].1)),
        r.body == body,
{
    HttpResponse {
        status,
        status_text: status_text_of(status),
        headers: normalize_headers(raw_headers),
        body,
    }
}

} // verus!
