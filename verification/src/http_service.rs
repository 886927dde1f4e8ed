//! Preparing an HTTP request from the front end's request description, and
//! turning the transport's outcome into the answer handed back.
//!
//! The request itself is sent by the application; this module decides which
//! method, headers, query, body and timeout it carries, and which error is
//! reported for a description that cannot be sent.
use vstd::prelude::*;
use vstd::utf8::*;

verus! {

// ---------------------------------------------------------------------------
// Character classes and text transformations
// ---------------------------------------------------------------------------

/// A `tchar` of RFC 9110: the characters an HTTP token (a method, a header
/// name) may hold.
pub open spec fn is_tchar(c: char) -> bool {
    ||| ('a' <= c && c <= 'z')
    ||| ('A' <= c && c <= 'Z')
    ||| ('0' <= c && c <= '9')
    ||| c == '!' || c == '#' || c == '$' || c == '%' || c == '&' || c == '\''
    ||| c == '*' || c == '+' || c == '-' || c == '.' || c == '^' || c == '_'
    ||| c == '`' || c == '|' || c == '~'
}

/// A non-empty sequence of `tchar`s.
pub open spec fn is_token(s: Seq<char>) -> bool {
    &&& s.len() > 0
    &&& forall|i: int| 0 <= i < s.len() ==> is_tchar(#[trigger] s[i])
}

/// Text accepted as an HTTP method: a token (methods are case-sensitive).
pub open spec fn is_method(s: Seq<char>) -> bool {
    is_token(s)
}

/// Text accepted as a header name: a token of at most 65535 characters.
pub open spec fn is_header_name(s: Seq<char>) -> bool {
    is_token(s) && s.len() <= 65535
}

/// A character allowed in a header value given as text: a tab, or anything
/// from the space upwards except DEL.
pub open spec fn is_header_value_char(c: char) -> bool {
    c == '\t' || (' ' <= c && c != '\u{7f}')
}

/// Text accepted as a header value.
pub open spec fn is_header_value(s: Seq<char>) -> bool {
    forall|i: int| 0 <= i < s.len() ==> is_header_value_char(#[trigger] s[i])
}

pub open spec fn ascii_upper_char(c: char) -> char {
    if 'a' <= c && c <= 'z' {
        ((c as u32) - 32) as char
    } else {
        c
    }
}

pub open spec fn ascii_lower_char(c: char) -> char {
    if 'A' <= c && c <= 'Z' {
        ((c as u32) + 32) as char
    } else {
        c
    }
}

/// `a`..`z` mapped to `A`..`Z`, every other character kept.
pub open spec fn ascii_upper(s: Seq<char>) -> Seq<char> {
    s.map_values(|c: char| ascii_upper_char(c))
}

/// `A`..`Z` mapped to `a`..`z`, every other character kept.
pub open spec fn ascii_lower(s: Seq<char>) -> Seq<char> {
    s.map_values(|c: char| ascii_lower_char(c))
}

/// What `str::to_uppercase` gives for text that is not all ASCII (Unicode's
/// full case mapping, which can change the length).
pub uninterp spec fn unicode_uppercase(s: Seq<char>) -> Seq<char>;

/// The uppercase form of a text: the ASCII mapping for ASCII text, Unicode's
/// case mapping otherwise.
pub open spec fn uppercase(s: Seq<char>) -> Seq<char> {
    if is_ascii_chars(s) {
        ascii_upper(s)
    } else {
        unicode_uppercase(s)
    }
}

// ---------------------------------------------------------------------------
// Trusted calls
// ---------------------------------------------------------------------------

/// `InvalidHeaderName`, the error of `HeaderName::from_bytes`.
#[verifier::external_type_specification]
#[verifier::external_body]
pub struct ExInvalidHeaderName(reqwest::header::InvalidHeaderName);

/// `InvalidHeaderValue`, the error of `HeaderValue::from_str`.
#[verifier::external_type_specification]
#[verifier::external_body]
pub struct ExInvalidHeaderValue(reqwest::header::InvalidHeaderValue);

/// Calls std's `str::to_uppercase`. Claimed: for ASCII text the result maps
/// `a`..`z` to `A`..`Z` and keeps every other character (Unicode gives every
/// ASCII character an ASCII uppercase); for other text the result is a
/// function of the text alone, named `unicode_uppercase`.
#[verifier::external_body]
fn to_uppercase(s: &str) -> (r: String)
    ensures
        is_ascii_chars(s@) ==> r@ == ascii_upper(s@),
        !is_ascii_chars(s@) ==> r@ == unicode_uppercase(s@),
{
    s.to_uppercase()
}

/// Calls `reqwest::Method::from_str` (the `http` crate's `Method`). Its source
/// accepts exactly the non-empty byte strings made of `tchar`s; `tchar`s are
/// ASCII, so this is the same as a non-empty text of `tchar` characters.
/// On success the method's text (`as_str`) is the input itself. The outside
/// error carries nothing and is dropped.
#[verifier::external_body]
fn parse_method(s: &str) -> (r: Option<String>)
    ensures
        r is Some <==> is_method(s@),
        r matches Some(m) ==> m@ == s@,
{
    <reqwest::Method as std::str::FromStr>::from_str(s).ok().map(|m| m.as_str().to_string())
}

/// Calls `reqwest::header::HeaderName::from_bytes` on the text's bytes. Its
/// source accepts exactly 1 to 65535 bytes that are all `tchar`s (so ASCII),
/// and normalises the name by lowercasing `A`..`Z`. Claimed: success exactly
/// on `is_header_name`, and the name's text is the ASCII lowercase input.
#[verifier::external_body]
fn parse_header_name(key: &str) -> (r: Result<String, reqwest::header::InvalidHeaderName>)
    ensures
        r is Ok <==> is_header_name(key@),
        r matches Ok(n) ==> n@ == ascii_lower(key@),
{
    reqwest::header::HeaderName::from_bytes(key.as_bytes()).map(|n| n.as_str().to_string())
}

/// Calls `reqwest::header::HeaderValue::from_str`. Its source accepts a text
/// exactly when every byte is a tab or at least 32 and not 127; bytes of
/// non-ASCII characters are all at least 128, so this is `is_header_value` on
/// the characters. The value keeps the input's bytes, so its text is the input.
#[verifier::external_body]
fn parse_header_value(value: &str) -> (r: Result<String, reqwest::header::InvalidHeaderValue>)
    ensures
        r is Ok <==> is_header_value(value@),
        r matches Ok(v) ==> v@ == value@,
{
    reqwest::header::HeaderValue::from_str(value).map(
        |v| String::from_utf8_lossy(v.as_bytes()).into_owned(),
    )
}

/// Calls `to_string` on an `InvalidHeaderName`; its `Display` writes
/// "invalid HTTP header name".
#[verifier::external_body]
fn header_name_error_text(e: reqwest::header::InvalidHeaderName) -> (r: String)
    ensures
        r@ == "invalid HTTP header name"@,
{
    e.to_string()
}

/// Calls `to_string` on an `InvalidHeaderValue`; its `Display` writes
/// "failed to parse header value".
#[verifier::external_body]
fn header_value_error_text(e: reqwest::header::InvalidHeaderValue) -> (r: String)
    ensures
        r@ == "failed to parse header value"@,
{
    e.to_string()
}

// ---------------------------------------------------------------------------
// Request description and prepared request
// ---------------------------------------------------------------------------

/// What the front end asks for. Header and query pairs are listed in the
/// order in which the caller's map was walked: that order is the caller's
/// (a hash map is walked in no fixed order), so it is an argument here, and
/// every contract below holds for each order. Pairs taken from a map have
/// distinct keys; nothing here relies on that, and repeated keys are checked
/// and kept in order like any others.
pub struct RequestConfig {
    pub url: String,
    pub method: Option<String>,
    pub headers: Option<Vec<(String, String)>>,
    pub params: Option<Vec<(String, String)>>,
    pub data: Option<String>,
    pub timeout: Option<u64>,
}

/// What is sent: a validated method, the URL, validated headers with
/// normalised names (in the order given; a later header of the same name
/// replaces an earlier one when they are put in a header map), the query
/// pairs, the body and the timeout in milliseconds.
pub struct PreparedRequest {
    pub method: String,
    pub url: String,
    pub headers: Vec<(String, String)>,
    pub query: Vec<(String, String)>,
    pub body: String,
    pub timeout_ms: u64,
}

/// The timeout used when the description gives none, in milliseconds.
pub const DEFAULT_TIMEOUT_MS: u64 = 30000;

/// The method text that is checked: the requested method, or `GET`, in
/// uppercase.
pub open spec fn requested_method(method: Option<String>) -> Seq<char> {
    match method {
        Some(m) => uppercase(m@),
        None => uppercase("GET"@),
    }
}

/// A header pair that is accepted as it stands.
pub open spec fn header_pair_ok(p: (String, String)) -> bool {
    is_header_name(p.0@) && is_header_value(p.1@)
}

/// The error reported for a header pair that is not accepted: the name is
/// checked before the value.
pub open spec fn header_pair_error(p: (String, String)) -> Seq<char> {
    if !is_header_name(p.0@) {
        "invalid HTTP header name"@
    } else {
        "failed to parse header value"@
    }
}

/// Every pair is accepted, and `out` holds them in order with lowercase
/// names and unchanged values.
pub open spec fn headers_accepted(pairs: Seq<(String, String)>, out: Seq<(String, String)>) -> bool {
    &&& forall|i: int| 0 <= i < pairs.len() ==> header_pair_ok(#[trigger] pairs[i])
    &&& out.len() == pairs.len()
    &&& forall|i: int|
        0 <= i < pairs.len() ==> {
            &&& (#[trigger] out[i]).0@ == ascii_lower(pairs[i].0@)
            &&& out[i].1@ == pairs[i].1@
        }
}

/// Pair `i` is the first one that is not accepted, and `e` is its error.
pub open spec fn headers_rejected_at(pairs: Seq<(String, String)>, i: int, e: Seq<char>) -> bool {
    &&& 0 <= i < pairs.len()
    &&& forall|j: int| 0 <= j < i ==> header_pair_ok(#[trigger] pairs[j])
    &&& !header_pair_ok(pairs[i])
    &&& e == header_pair_error(pairs[i])
}

/// Some pair is not accepted, and `e` is the error of the first such pair.
pub open spec fn headers_rejected(pairs: Seq<(String, String)>, e: Seq<char>) -> bool {
    exists|i: int| headers_rejected_at(pairs, i, e)
}

/// The header pairs of a description (none when it gives none).
pub open spec fn given_headers(config: RequestConfig) -> Seq<(String, String)> {
    match config.headers {
        Some(h) => h@,
        None => Seq::empty(),
    }
}

/// `prepared` is what the description asks for, once method and headers
/// have been accepted.
pub open spec fn prepared_from(config: RequestConfig, prepared: PreparedRequest) -> bool {
    &&& is_method(requested_method(config.method))
    &&& prepared.method@ == requested_method(config.method)
    &&& prepared.url == config.url
    &&& headers_accepted(given_headers(config), prepared.headers@)
    &&& prepared.query@ == match config.params {
        Some(p) => p@,
        None => Seq::empty(),
    }
    &&& prepared.body@ == match config.data {
        Some(d) => d@,
        None => Seq::empty(),
    }
    &&& prepared.timeout_ms == match config.timeout {
        Some(t) => t,
        None => DEFAULT_TIMEOUT_MS,
    }
}

/// Checks an uppercased method text. `Err` carries "Invalid HTTP method".
pub fn check_method(upper: &str) -> (r: Result<String, String>)
    ensures
        r is Ok <==> is_method(upper@),
        r matches Ok(m) ==> m@ == upper@,
        r matches Err(e) ==> e@ == "Invalid HTTP method"@,
{
    match parse_method(upper) {
        Some(m) => Ok(m),
        None => Err(String::from_str("Invalid HTTP method")),
    }
}

/// Uppercases the requested method (`GET` when none is given) and checks it.
pub fn resolve_method(method: &Option<String>) -> (r: Result<String, String>)
    ensures
        r is Ok <==> is_method(requested_method(*method)),
        r matches Ok(m) ==> m@ == requested_method(*method),
        r matches Err(e) ==> e@ == "Invalid HTTP method"@,
{
    let upper = match method {
        Some(m) => to_uppercase(m.as_str()),
        None => to_uppercase("GET"),
    };
    check_method(upper.as_str())
}

/// Checks the header pairs in order and normalises their names. The first
/// pair that is not accepted decides the error: its name's error if the name
/// is refused, its value's error otherwise.
pub fn check_headers(pairs: &Vec<(String, String)>) -> (r: Result<Vec<(String, String)>, String>)
    ensures
        r matches Ok(out) ==> headers_accepted(pairs@, out@),
        r matches Err(e) ==> headers_rejected(pairs@, e@),
{
    let mut out: Vec<(String, String)> = Vec::new();
    let mut i: usize = 0;
    while i < pairs.len()
        invariant
            i <= pairs.len(),
            out.len() == i,
            forall|j: int| 0 <= j < i ==> header_pair_ok(#[trigger] pairs@[j]),
            forall|j: int|
                0 <= j < i ==> {
                    &&& (#[trigger] out@[j]).0@ == ascii_lower(pairs@[j].0@)
                    &&& out@[j].1@ == pairs@[j].1@
                },
        decreases pairs.len() - i,
    {
        let name = match parse_header_name(pairs[i].0.as_str()) {
            Ok(n) => n,
            Err(e) => {
                let text = header_name_error_text(e);
                assert(headers_rejected_at(pairs@, i as int, text@));
                return Err(text);
            },
        };
        let value = match parse_header_value(pairs[i].1.as_str()) {
            Ok(v) => v,
            Err(e) => {
                let text = header_value_error_text(e);
                assert(headers_rejected_at(pairs@, i as int, text@));
                return Err(text);
            },
        };
        out.push((name, value));
        i = i + 1;
    }
    Ok(out)
}

/// Decides what is sent for a request description. Fails with
/// "Invalid HTTP method" when the (uppercased, defaulted) method is not a
/// token; otherwise with the error of the first refused header pair.
pub fn prepare_http_request(config: RequestConfig) -> (r: Result<PreparedRequest, String>)
    ensures
        r matches Ok(p) ==> prepared_from(config, p),
        r matches Err(e) ==> {
            ||| !is_method(requested_method(config.method)) && e@ == "Invalid HTTP method"@
            ||| is_method(requested_method(config.method)) && headers_rejected(given_headers(config), e@)
        },
{
    let method = match resolve_method(&config.method) {
        Ok(m) => m,
        Err(e) => return Err(e),
    };
    let headers = match &config.headers {
        Some(h) => match check_headers(h) {
            Ok(out) => out,
            Err(e) => return Err(e),
        },
        None => Vec::new(),
    };
    let query = match config.params {
        Some(p) => p,
        None => Vec::new(),
    };
    let body = match config.data {
        Some(d) => d,
        None => String::new(),
    };
    let timeout_ms = match config.timeout {
        Some(t) => t,
        None => DEFAULT_TIMEOUT_MS,
    };
    Ok(PreparedRequest { method, url: config.url, headers, query, body, timeout_ms })
}

/// The answer for a sent request: the body text, or the failure with the
/// stage at which it happened. `sent` is `Err` when sending failed, and
/// `Ok` of the body read's outcome otherwise.
pub fn http_response_outcome(sent: Result<Result<String, String>, String>) -> (r: Result<String, String>)
    ensures
        sent matches Ok(Ok(body)) ==> r == Ok::<String, String>(body),
        sent matches Ok(Err(e)) ==> r matches Err(m) && m@ == "Failed to read response body: "@ + e@,
        sent matches Err(e) ==> r matches Err(m) && m@ == "HTTP request failed: "@ + e@,
{
    match sent {
        Ok(Ok(body)) => Ok(body),
        Ok(Err(e)) => Err(String::from_str("Failed to read response body: ").concat(e.as_str())),
        Err(e) => Err(String::from_str("HTTP request failed: ").concat(e.as_str())),
    }
}

// ---------------------------------------------------------------------------
// Laws
// ---------------------------------------------------------------------------

/// A description without a method asks for `GET`, which is a valid method.
pub proof fn lemma_absent_method_is_get()
    ensures
        requested_method(None) == "GET"@,
        is_method(requested_method(None)),
{
    reveal_strlit("GET");
    assert(is_ascii_chars("GET"@));
    assert(ascii_upper("GET"@) =~= "GET"@);
}

/// For ASCII text the method is matched without regard to case: two texts
/// that differ only in the case of ASCII letters ask for the same method,
/// and uppercasing a resolved method again changes nothing.
pub proof fn lemma_ascii_method_case_insensitive(a: Seq<char>, b: Seq<char>)
    requires
        is_ascii_chars(a),
        is_ascii_chars(b),
        ascii_upper(a) == ascii_upper(b),
    ensures
        uppercase(a) == uppercase(b),
        is_ascii_chars(uppercase(a)),
        uppercase(uppercase(a)) == uppercase(a),
{
    let u = uppercase(a);
    assert(is_ascii_chars(u));
    assert(ascii_upper(u) =~= u);
}

/// Headers that were accepted are accepted again unchanged: normalising
/// names is idempotent and keeps them valid.
pub proof fn lemma_accepted_headers_are_stable(
    pairs: Seq<(String, String)>,
    out: Seq<(String, String)>,
    again: Seq<(String, String)>,
)
    requires
        headers_accepted(pairs, out),
    ensures
        forall|i: int| 0 <= i < out.len() ==> header_pair_ok(#[trigger] out[i]),
        headers_accepted(out, again) ==> forall|i: int|
            0 <= i < out.len() ==> (#[trigger] again[i]).0@ == out[i].0@ && again[i].1@ == out[i].1@,
{
    assert forall|i: int| 0 <= i < out.len() implies header_pair_ok(#[trigger] out[i])
        && ascii_lower(out[i].0@) == out[i].0@ by {
        let k = pairs[i].0@;
        assert(header_pair_ok(pairs[i]));
        let l = out[i].0@;
        assert(l =~= ascii_lower(k));
        assert forall|j: int| 0 <= j < l.len() implies is_tchar(#[trigger] l[j]) by {
            assert(is_tchar(k[j]));
        }
        assert(ascii_lower(l) =~= l);
    }
}

/// Uppercasing an ASCII method before asking changes nothing: the two
/// descriptions lead to the same request, or to the same error.
pub proof fn lemma_uppercased_method_same_request(c1: RequestConfig, c2: RequestConfig, m: String, u: String)
    requires
        c1.method == Some(m),
        c2.method == Some(u),
        is_ascii_chars(m@),
        u@ == uppercase(m@),
        c2.url == c1.url,
        c2.headers == c1.headers,
        c2.params == c1.params,
        c2.data == c1.data,
        c2.timeout == c1.timeout,
    ensures
        requested_method(c2.method) == requested_method(c1.method),
        given_headers(c2) == given_headers(c1),
        forall|p: PreparedRequest| prepared_from(c1, p) <==> prepared_from(c2, p),
{
    lemma_ascii_method_case_insensitive(m@, m@);
}

} // verus!
