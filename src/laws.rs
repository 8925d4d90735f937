//! Laws of reading credentials, stated over the models of `credentials`.
use crate::credentials::{
    default_host, netrc_credentials, new_view, parse_userinfo, CredentialsError, CredentialsView,
};
use crate::outside::{percent_decode_bytes, percent_decoding};
use vstd::utf8::{
    encode_scalar, encode_utf8, encode_utf8_decode_utf8, encode_utf8_valid_utf8, has_width_1_encoding,
    has_width_2_encoding, has_width_3_encoding, leading_byte_width_1, leading_byte_width_2,
    leading_byte_width_3, leading_byte_width_4, last_continuation_byte,
    second_last_continuation_byte, third_last_continuation_byte,
};
use vstd::prelude::*;

verus! {

/// Userinfo with an empty user name and no password holds no credentials.
pub proof fn lemma_no_userinfo_no_credentials()
    ensures
        parse_userinfo(Seq::empty(), None) == Ok::<Option<CredentialsView>, CredentialsError>(None),
{
}

/// A user name and a password that both decode give credentials holding
/// exactly their decodings.
pub proof fn lemma_userinfo_decoded(username: Seq<char>, password: Seq<char>)
    requires
        username.len() > 0,
        percent_decoding(username) is Some,
        percent_decoding(password) is Some,
    ensures
        parse_userinfo(username, Some(password)) == Ok::<_, CredentialsError>(
            Some(new_view(percent_decoding(username), percent_decoding(password))),
        ),
{
}

/// Bytes without `%` percent-decode to themselves.
pub proof fn lemma_decode_bytes_without_percent(b: Seq<u8>)
    requires
        forall|i: int| 0 <= i < b.len() ==> #[trigger] b[i] != 37,
    ensures
        percent_decode_bytes(b) == b,
    decreases b.len(),
{
    if b.len() > 0 {
        lemma_decode_bytes_without_percent(b.subrange(1, b.len() as int));
        assert(seq![b[0]] + b.subrange(1, b.len() as int) =~= b);
    }
}

/// The UTF-8 encoding of a character other than `%` holds no `%` byte.
proof fn lemma_scalar_without_percent(c: char)
    requires
        c != '%',
    ensures
        forall|i: int| 0 <= i < encode_scalar(c as u32).len() ==> #[trigger] encode_scalar(c as u32)[i] != 37,
{
    let v = c as u32;
    if has_width_1_encoding(v) {
        assert(v != 37u32);
        assert(leading_byte_width_1(v) != 37u8) by (bit_vector)
            requires
                v <= 0x7F,
                v != 37u32,
        ;
    } else {
        assert(last_continuation_byte(v) >= 0x80) by (bit_vector);
        assert(second_last_continuation_byte(v) >= 0x80) by (bit_vector);
        assert(third_last_continuation_byte(v) >= 0x80) by (bit_vector);
        assert(leading_byte_width_2(v) >= 0xC0) by (bit_vector);
        assert(leading_byte_width_3(v) >= 0xE0) by (bit_vector);
        assert(leading_byte_width_4(v) >= 0xF0) by (bit_vector);
    }
}

/// The UTF-8 encoding of a text without `%` holds no `%` byte.
proof fn lemma_encoding_without_percent(t: Seq<char>)
    requires
        !t.contains('%'),
    ensures
        forall|i: int| 0 <= i < encode_utf8(t).len() ==> #[trigger] encode_utf8(t)[i] != 37,
    decreases t.len(),
{
    if t.len() > 0 {
        assert(t[0] != '%') by {
            assert(t.contains(t[0]));
        }
        lemma_scalar_without_percent(t[0]);
        let rest = t.drop_first();
        assert(!rest.contains('%')) by {
            if rest.contains('%') {
                let j = choose|j: int| 0 <= j < rest.len() && rest[j] == '%';
                assert(t[j + 1] == '%');
            }
        }
        lemma_encoding_without_percent(rest);
        let e = encode_utf8(t);
        let head = encode_scalar(t[0] as u32);
        assert(e == head + encode_utf8(rest));
        assert forall|i: int| 0 <= i < e.len() implies e[i] != 37 by {
            if i >= head.len() {
                assert(e[i] == encode_utf8(rest)[i - head.len()]);
            }
        }
    }
}

/// Text that needed no percent-encoding decodes to itself.
pub proof fn lemma_plain_text_decodes_to_itself(t: Seq<char>)
    requires
        !t.contains('%'),
    ensures
        percent_decoding(t) == Some(t),
{
    lemma_encoding_without_percent(t);
    lemma_decode_bytes_without_percent(encode_utf8(t));
    encode_utf8_valid_utf8(t);
    encode_utf8_decode_utf8(t);
}

/// A user name and a password that needed no percent-encoding are read back
/// exactly.
pub proof fn lemma_plain_userinfo_read_back(username: Seq<char>, password: Seq<char>)
    requires
        username.len() > 0,
        !username.contains('%'),
        !password.contains('%'),
    ensures
        parse_userinfo(username, Some(password)) == Ok::<_, CredentialsError>(
            Some(CredentialsView { username: Some(username), password: Some(password) }),
        ),
{
    lemma_plain_text_decodes_to_itself(username);
    lemma_plain_text_decodes_to_itself(password);
}

/// A password with no user name gives credentials with no user name and
/// the decoded password.
pub proof fn lemma_password_without_username(password: Seq<char>)
    requires
        percent_decoding(password) is Some,
    ensures
        parse_userinfo(Seq::empty(), Some(password)) == Ok::<_, CredentialsError>(
            Some(CredentialsView { username: None, password: percent_decoding(password) }),
        ),
{
}

/// A netrc table with neither the host nor a `default` entry offers nothing.
pub proof fn lemma_netrc_unknown_host(
    hosts: Map<Seq<char>, (Seq<char>, Seq<char>)>,
    host: Seq<char>,
    expected: Option<Seq<char>>,
)
    requires
        !hosts.contains_key(host),
        !hosts.contains_key(default_host()),
    ensures
        netrc_credentials(hosts, Some(host), expected) is None,
{
}

/// An expected user name that is not the login of the entry found (the
/// host's own, else the `default` one) gets nothing.
pub proof fn lemma_netrc_login_mismatch(
    hosts: Map<Seq<char>, (Seq<char>, Seq<char>)>,
    host: Seq<char>,
    expected: Seq<char>,
)
    requires
        hosts.contains_key(host) ==> hosts[host].0 != expected,
        !hosts.contains_key(host) && hosts.contains_key(default_host()) ==> hosts[default_host()].0
            != expected,
    ensures
        netrc_credentials(hosts, Some(host), Some(expected)) is None,
{
}

} // verus!
