//! A small HTTP request executor: it validates and assembles outbound
//! requests, normalizes responses, and decides reachability probes.
//! The transport itself (connections, TLS, redirects) is supplied by the
//! host; this library holds the logic around it and the contracts it keeps.
pub mod method;
pub mod probe;
pub mod request;
pub mod response;

pub use method::HttpMethod;
pub use method::method_from_str;
pub use method::method_name;
pub use probe::PROBE_TIMEOUT_SECS;
pub use probe::probe_reachable;
pub use request::HttpOptions;
pub use request::PreparedRequest;
pub use request::build_request;
pub use response::HttpResponse;
pub use response::normalize_response;
pub use response::status_text_of;
