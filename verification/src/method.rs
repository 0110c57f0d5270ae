//! The HTTP methods this executor supports, and case-insensitive parsing
//! of a caller-supplied method string into one of them.
use vstd::prelude::*;

verus! {

/// An HTTP method the executor is willing to send.
#[derive(Clone, Copy, Debug, PartialEq, Eq, Structural)]
pub enum HttpMethod {
    Get,
    Post,
    Put,
    Delete,
    Head,
}

/// A lower-case ASCII letter sits 32 code points above its upper-case form,
/// so a character matches an upper-case letter exactly when it is that
/// letter or its lower-case form.
pub open spec fn char_matches_upper(c: char, u: char) -> bool {
    c == u || c as u32 == u as u32 + 32
}

/// Case-insensitive match of `s` against an upper-case ASCII name.
pub open spec fn matches_upper_name(s: Seq<char>, name: Seq<char>) -> bool {
    s.len() == name.len() && forall|i: int| 0 <= i < s.len() ==> char_matches_upper(s[i], name[i])
}

/// The canonical (upper-case) name of a method.
pub open spec fn method_name_spec(m: HttpMethod) -> Seq<char> {
    match m {
        HttpMethod::Get => "GET"@,
        HttpMethod::Post => "POST"@,
        HttpMethod::Put => "PUT"@,
        HttpMethod::Delete => "DELETE"@,
        HttpMethod::Head => "HEAD"@,
    }
}

/// Which method, if any, a caller-supplied string selects: the one whose
/// canonical name it matches ignoring ASCII case. Any other string selects
/// none and is a configuration error.
pub open spec fn parse_method_spec(s: Seq<char>) -> Option<HttpMethod> {
    if matches_upper_name(s, "GET"@) {
        Some(HttpMethod::Get)
    } else if matches_upper_name(s, "POST"@) {
        Some(HttpMethod::Post)
    } else if matches_upper_name(s, "PUT"@) {
        Some(HttpMethod::Put)
    } else if matches_upper_name(s, "DELETE"@) {
        Some(HttpMethod::Delete)
    } else if matches_upper_name(s, "HEAD"@) {
        Some(HttpMethod::Head)
    } else {
        None
    }
}

fn str_matches_upper_name(s: &str, name: &str) -> (r: bool)
    ensures
        r == matches_upper_name(s@, name@),
{
    let n = s.unicode_len();
    if n != name.unicode_len() {
        return false;
    }
    let mut i: usize = 0;
    while i < n
        invariant
            n == s@.len(),
            n == name@.len(),
            0 <= i <= n,
            forall|j: int| 0 <= j < i ==> char_matches_upper(s@[j], name@[j]),
        decreases n - i,
    {
        let c = s.get_char(i) as u32;
        let u = name.get_char(i) as u32;
        if !(c == u || (c >= 32 && c - 32 == u)) {
            assert(!char_matches_upper(s@[i as int], name@[i as int]));
            return false;
        }
        i = i + 1;
    }
    true
}

/// Parses a method string, ignoring ASCII case.
pub fn method_from_str(s: &str) -> (r: Option<HttpMethod>)
    ensures
        r == parse_method_spec(s@),
{
    if str_matches_upper_name(s, "GET") {
        Some(HttpMethod::Get)
    } else if str_matches_upper_name(s, "POST") {
        Some(HttpMethod::Post)
    } else if str_matches_upper_name(s, "PUT") {
        Some(HttpMethod::Put)
    } else if str_matches_upper_name(s, "DELETE") {
        Some(HttpMethod::Delete)
    } else if str_matches_upper_name(s, "HEAD") {
        Some(HttpMethod::Head)
    } else {
        None
    }
}

/// The canonical name of a method, as sent on the wire.
pub fn method_name(m: HttpMethod) -> (r: &'static str)
    ensures
        r@ == method_name_spec(m),
{
    match m {
        HttpMethod::Get => "GET",
        HttpMethod::Post => "POST",
        HttpMethod::Put => "PUT",
        HttpMethod::Delete => "DELETE",
        HttpMethod::Head => "HEAD",
    }
}

/// A string selects a method exactly when it matches that method's
/// canonical name ignoring ASCII case; in particular every case variant of
/// a supported method's name is accepted and selects that method, and no
/// string selects two methods.
pub proof fn lemma_parse_method_case_insensitive(s: Seq<char>, m: HttpMethod)
    ensures
        parse_method_spec(s) == Some(m) <==> matches_upper_name(s, method_name_spec(m)),
{
    reveal_strlit("GET");
    reveal_strlit("POST");
    reveal_strlit("PUT");
    reveal_strlit("DELETE");
    reveal_strlit("HEAD");
    if matches_upper_name(s, "GET"@) && matches_upper_name(s, "PUT"@) {
        assert(char_matches_upper(s[0], 'G') && char_matches_upper(s[0], 'P'));
        assert(false);
    }
    if matches_upper_name(s, "POST"@) && matches_upper_name(s, "HEAD"@) {
        assert(char_matches_upper(s[0], 'P') && char_matches_upper(s[0], 'H'));
        assert(false);
    }
}

} // verus!
