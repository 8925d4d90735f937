//! The calls this library makes into other crates, with what it relies on
//! of each.
use base64::engine::general_purpose::STANDARD;
use base64::Engine;
use netrc::Netrc;
use reqwest::header::HeaderValue;
use reqwest::Request;
use url::Url;
use vstd::prelude::*;
use vstd::utf8::{decode_utf8, encode_utf8, valid_utf8};

verus! {

#[verifier::external_type_specification]
#[verifier::external_body]
pub struct ExNetrc(netrc::Netrc);

#[verifier::external_type_specification]
#[verifier::external_body]
pub struct ExUrl(url::Url);

#[verifier::external_type_specification]
#[verifier::external_body]
pub struct ExRequest(reqwest::Request);

#[verifier::external_type_specification]
#[verifier::external_body]
pub struct ExHeaderValue(reqwest::header::HeaderValue);

/// The padded standard-alphabet base64 text of some bytes.
pub uninterp spec fn base64_encoding(bytes: Seq<u8>) -> Seq<u8>;

/// The bytes that some base64 text decodes to, if it is valid.
pub uninterp spec fn base64_decoding(text: Seq<u8>) -> Option<Seq<u8>>;

/// The value of a hexadecimal digit, either case.
pub open spec fn hex_value(b: u8) -> Option<u8> {
    if 48 <= b <= 57 {
        Some((b - 48) as u8)
    } else if 65 <= b <= 70 {
        Some((b - 55) as u8)
    } else if 97 <= b <= 102 {
        Some((b - 87) as u8)
    } else {
        None
    }
}

/// Percent-decoding of bytes: a `%` and two hexadecimal digits stand for the
/// byte they spell; every other byte stands for itself.
pub open spec fn percent_decode_bytes(b: Seq<u8>) -> Seq<u8>
    decreases b.len(),
{
    if b.len() == 0 {
        Seq::empty()
    } else if b[0] == 37 && b.len() >= 3 && hex_value(b[1]) is Some && hex_value(b[2]) is Some {
        seq![(hex_value(b[1])->0 * 16 + hex_value(b[2])->0) as u8] + percent_decode_bytes(
            b.subrange(3, b.len() as int),
        )
    } else {
        seq![b[0]] + percent_decode_bytes(b.subrange(1, b.len() as int))
    }
}

/// The percent-decoding of URL text, if the decoded bytes are UTF-8.
pub open spec fn percent_decoding(text: Seq<char>) -> Option<Seq<char>> {
    let bytes = percent_decode_bytes(encode_utf8(text));
    if valid_utf8(bytes) {
        Some(decode_utf8(bytes))
    } else {
        None
    }
}

/// The host table of a parsed netrc file: host name to login and password.
pub uninterp spec fn netrc_hosts(netrc: Netrc) -> Map<Seq<char>, (Seq<char>, Seq<char>)>;

/// The bytes that a header value holds.
pub uninterp spec fn header_value_content(header: HeaderValue) -> Seq<u8>;

/// Whether a header value is marked sensitive.
pub uninterp spec fn header_value_sensitive(header: HeaderValue) -> bool;

/// The headers of a request: each lower-case header name to its values, in
/// order, each as its bytes and its sensitive flag.
pub uninterp spec fn request_headers(request: Request) -> Map<Seq<char>, Seq<(Seq<u8>, bool)>>;

/// The URL that a request targets.
pub uninterp spec fn request_target(request: Request) -> Url;

/// The method of a request, as its text.
pub uninterp spec fn request_method_text(request: Request) -> Seq<char>;

/// The host of a URL, if it has one.
pub uninterp spec fn url_host_text(url: Url) -> Option<Seq<char>>;

/// The percent-encoded user name of a URL, empty if it has none.
pub uninterp spec fn url_username_text(url: Url) -> Seq<char>;

/// The percent-encoded password of a URL, if it has one.
pub uninterp spec fn url_password_text(url: Url) -> Option<Seq<char>>;

/// The name under which a request's `Authorization` headers are kept.
pub open spec fn authorization_name() -> Seq<char> {
    seq!['a', 'u', 't', 'h', 'o', 'r', 'i', 'z', 'a', 't', 'i', 'o', 'n']
}

/// The bytes that an optional buffer holds.
pub open spec fn bytes_view(r: Option<Vec<u8>>) -> Option<Seq<u8>> {
    match r {
        Some(v) => Some(v@),
        None => None,
    }
}

/// A byte of the standard base64 alphabet, padding included.
pub open spec fn is_base64_symbol(b: u8) -> bool {
    (65 <= b <= 90) || (97 <= b <= 122) || (48 <= b <= 57) || b == 43 || b == 47 || b == 61
}

/// A byte that an HTTP header value may hold.
pub open spec fn is_header_byte(b: u8) -> bool {
    (b >= 32 && b != 127) || b == 9
}

/// Relies on base64's `STANDARD` engine `encode`: padded text over the
/// standard alphabet.
#[verifier::external_body]
pub(crate) fn base64_encode(bytes: &[u8]) -> (r: Vec<u8>)
    ensures
        r@ == base64_encoding(bytes@),
        forall|i: int| 0 <= i < r@.len() ==> is_base64_symbol(#[trigger] r@[i]),
{
    STANDARD.encode(bytes).into_bytes()
}

/// Relies on base64's `STANDARD` engine `decode`; the encoding of some bytes
/// decodes back to those bytes.
#[verifier::external_body]
pub(crate) fn base64_decode(text: &[u8]) -> (r: Option<Vec<u8>>)
    ensures
        bytes_view(r) == base64_decoding(text@),
        forall|b: Seq<u8>| #[trigger] base64_encoding(b) == text@ ==> bytes_view(r) == Some(b),
{
    match STANDARD.decode(text) {
        Ok(v) => Some(v),
        Err(_) => None,
    }
}

/// Relies on `String::from_utf8`: it accepts exactly the valid UTF-8 byte
/// sequences, and decodes them.
#[verifier::external_body]
pub(crate) fn string_from_utf8(bytes: Vec<u8>) -> (r: Option<String>)
    ensures
        r is Some <==> valid_utf8(bytes@),
        r is Some ==> r->0@ == decode_utf8(bytes@),
{
    String::from_utf8(bytes).ok()
}

/// Relies on `urlencoding::decode` (through `decode_binary`): `%` and two
/// hexadecimal digits become that byte, other bytes stay, and the result is
/// read as UTF-8, which fails where it is not valid.
#[verifier::external_body]
pub(crate) fn percent_decode(text: &str) -> (r: Option<String>)
    ensures
        r.deep_view() == percent_decoding(text@),
{
    match urlencoding::decode(text) {
        Ok(d) => Some(d.into_owned()),
        Err(_) => None,
    }
}

/// Relies on the `hosts` map of `netrc::Netrc`: the login and password of
/// the entry stored under `host`, if there is one.
#[verifier::external_body]
pub(crate) fn netrc_entry(netrc: &Netrc, host: &str) -> (r: Option<(String, String)>)
    ensures
        match r {
            Some(e) => {
                &&& netrc_hosts(*netrc).contains_key(host@)
                &&& netrc_hosts(*netrc)[host@] == (e.0@, e.1@)
            },
            None => !netrc_hosts(*netrc).contains_key(host@),
        },
{
    netrc.hosts.get(host).map(|a| (a.login.clone(), a.password.clone()))
}

/// Relies on `Url::host_str`: the URL's host, if it has one.
#[verifier::external_body]
pub(crate) fn url_host(url: &Url) -> (r: Option<String>)
    ensures
        r.deep_view() == url_host_text(*url),
{
    url.host_str().map(String::from)
}

/// Relies on `Url::username`: the percent-encoded user name, empty if none.
#[verifier::external_body]
pub(crate) fn url_username(url: &Url) -> (r: String)
    ensures
        r@ == url_username_text(*url),
{
    url.username().to_string()
}

/// Relies on `Url::password`: the percent-encoded password, if any.
#[verifier::external_body]
pub(crate) fn url_password(url: &Url) -> (r: Option<String>)
    ensures
        r.deep_view() == url_password_text(*url),
{
    url.password().map(String::from)
}

/// Relies on `reqwest::Request::url`: the request's target.
#[verifier::external_body]
pub(crate) fn request_url(request: &Request) -> (r: &Url)
    ensures
        *r == request_target(*request),
{
    request.url()
}

/// The first `Authorization` header value of a request, if it has one.
pub open spec fn first_authorization(request: Request) -> Option<Seq<u8>> {
    let headers = request_headers(request);
    if headers.contains_key(authorization_name()) && headers[authorization_name()].len() > 0 {
        Some(headers[authorization_name()][0].0)
    } else {
        None
    }
}

/// Relies on `reqwest::Request::headers` and `HeaderMap::get`: the bytes of
/// the request's first `Authorization` header, if it has one.
#[verifier::external_body]
pub(crate) fn request_authorization(request: &Request) -> (r: Option<Vec<u8>>)
    ensures
        bytes_view(r) == first_authorization(*request),
{
    request.headers().get(reqwest::header::AUTHORIZATION).map(|h| h.as_bytes().to_vec())
}

/// Relies on `HeaderValue::as_bytes`: the header's bytes.
#[verifier::external_body]
pub(crate) fn header_value_bytes(header: &HeaderValue) -> (r: Vec<u8>)
    ensures
        r@ == header_value_content(*header),
{
    header.as_bytes().to_vec()
}

/// Relies on `HeaderValue::from_bytes`, which accepts every sequence of
/// header bytes and gives a value that is not marked sensitive.
#[verifier::external_body]
pub(crate) fn header_value_from_bytes(bytes: &[u8]) -> (r: HeaderValue)
    requires
        forall|i: int| 0 <= i < bytes@.len() ==> is_header_byte(#[trigger] bytes@[i]),
    ensures
        header_value_content(r) == bytes@,
        !header_value_sensitive(r),
{
    HeaderValue::from_bytes(bytes).expect("header bytes form a header value")
}

/// Relies on `HeaderValue::set_sensitive`: it sets the flag that keeps the
/// value out of debug renderings, and leaves the bytes as they are.
pub assume_specification[ reqwest::header::HeaderValue::set_sensitive ](
    h: &mut HeaderValue,
    val: bool,
)
    ensures
        header_value_content(*final(h)) == header_value_content(*old(h)),
        header_value_sensitive(*final(h)) == val,
;

/// Relies on `reqwest::Request::headers_mut` and `HeaderMap::try_insert`: on
/// success the new `Authorization` value replaces every earlier one; it fails,
/// changing nothing, where the header map is at its largest size. The URL and
/// the method are not touched.
#[verifier::external_body]
pub(crate) fn set_authorization(request: &mut Request, value: HeaderValue) -> (r: bool)
    ensures
        r ==> request_headers(*final(request)) == request_headers(*old(request)).insert(
            authorization_name(),
            seq![(header_value_content(value), header_value_sensitive(value))],
        ),
        !r ==> request_headers(*final(request)) == request_headers(*old(request)),
        request_target(*final(request)) == request_target(*old(request)),
        request_method_text(*final(request)) == request_method_text(*old(request)),
{
    request.headers_mut().try_insert(reqwest::header::AUTHORIZATION, value).is_ok()
}

} // verus!
