//! Building an outbound request from a caller-supplied description: the
//! method string is resolved (case-insensitively) to a supported method,
//! and the URL, every header pair and the optional body are carried over
//! unchanged. An unsupported method is a configuration error, reported
//! before any network work is done.
use vstd::prelude::*;
use vstd::string::StringExecFns;
use crate::method::HttpMethod;
use crate::method::method_from_str;
use crate::method::parse_method_spec;

verus! {

/// A caller-supplied request description, as it crosses the command
/// boundary: a method string, header pairs (names unique, order
/// irrelevant), and an optional body.
#[derive(Debug)]
pub struct HttpOptions {
    pub method: String,
    pub headers: Vec<(String, String)>,
    pub body: Option<String>,
}

/// A validated request, ready for the transport: the resolved method, the
/// URL, and the headers and body exactly as supplied.
#[derive(Debug)]
pub struct PreparedRequest {
    pub method: HttpMethod,
    pub url: String,
    pub headers: Vec<(String, String)>,
    pub body: Option<String>,
}

/// The error reported when the method string names no supported method.
pub fn unsupported_method_message(method: &str) -> (r: String)
    ensures
        r@ == "Unsupported HTTP method: "@ + method@,
{
    "Unsupported HTTP method: ".to_owned().concat(method)
}

/// The error reported when the transport client cannot be built.
pub fn client_build_error_message(detail: &str) -> (r: String)
    ensures
        r@ == "Failed to create HTTP client: "@ + detail@,
{
    "Failed to create HTTP client: ".to_owned().concat(detail)
}

/// The error reported when sending the request fails (DNS, connect, TLS,
/// timeout).
pub fn transport_error_message(detail: &str) -> (r: String)
    ensures
        r@ == "HTTP request failed: "@ + detail@,
{
    "HTTP request failed: ".to_owned().concat(detail)
}

/// The error reported when the response body cannot be decoded as text.
pub fn body_read_error_message(detail: &str) -> (r: String)
    ensures
        r@ == "Failed to read response body: "@ + detail@,
{
    "Failed to read response body: ".to_owned().concat(detail)
}

/// Validates and assembles one outbound request. Exactly the supported
/// methods (ignoring ASCII case) are accepted; on success the URL, every
/// header pair and the body are carried over unchanged, and no header is
/// dropped, added or reordered. A body is attached whenever one is
/// supplied, whatever the method. Any other method string yields the
/// configuration error, and nothing is sent.
pub fn build_request(url: String, options: HttpOptions) -> (r: Result<PreparedRequest, String>)
    ensures
        match parse_method_spec(options.method@) {
            Some(m) => r is Ok && r->Ok_0.method == m && r->Ok_0.url == url && r->Ok_0.headers
                == options.headers && r->Ok_0.body == options.body,
            None => r is Err && r->Err_0@ == "Unsupported HTTP method: "@ + options.method@,
        },
{
    let HttpOptions { method, headers, body } = options;
    match method_from_str(method.as_str()) {
        Some(m) => Ok(PreparedRequest { method: m, url, headers, body }),
        None => Err(unsupported_method_message(method.as_str())),
    }
}

} // verus!
