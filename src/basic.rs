//! The `Basic` scheme of the HTTP `Authorization` header: the bytes
//! `Basic ` followed by the base64 of `user:password`.
use crate::credentials::{nonempty, result_view, Credentials, CredentialsError, CredentialsView};
use crate::outside::{
    base64_decode, base64_decoding, base64_encode, base64_encoding, header_value_bytes,
    header_value_content, header_value_sensitive,
    header_value_from_bytes, is_base64_symbol, is_header_byte, string_from_utf8,
};
use reqwest::header::HeaderValue;
use vstd::prelude::*;
use vstd::utf8::{decode_utf8, encode_utf8, encode_utf8_decode_utf8, encode_utf8_valid_utf8, valid_utf8};

verus! {

/// The bytes `Basic ` that open a header value of this scheme.
pub open spec fn basic_prefix() -> Seq<u8> {
    seq![66u8, 97u8, 115u8, 105u8, 99u8, 32u8]
}

/// A field's text, empty where the field is absent.
pub open spec fn or_empty(s: Option<Seq<char>>) -> Seq<char> {
    match s {
        Some(v) => v,
        None => Seq::empty(),
    }
}

/// The text `user:password` that a header value encodes.
pub open spec fn basic_payload(c: CredentialsView) -> Seq<char> {
    or_empty(c.username) + seq![':'] + or_empty(c.password)
}

/// The `Authorization` header value that carries some credentials.
pub open spec fn basic_header(c: CredentialsView) -> Seq<u8> {
    basic_prefix() + base64_encoding(encode_utf8(basic_payload(c)))
}

/// `i` is the position of the first `:` in `s`.
pub open spec fn is_first_colon(s: Seq<char>, i: int) -> bool {
    0 <= i < s.len() && s[i] == ':' && forall|j: int| 0 <= j < i ==> s[j] != ':'
}

/// The credentials that a decoded `user:password` text holds, split at its
/// first `:`; an empty part is absent.
pub open spec fn split_payload(s: Seq<char>) -> Result<Option<CredentialsView>, CredentialsError> {
    if exists|i: int| is_first_colon(s, i) {
        let i = choose|i: int| is_first_colon(s, i);
        Ok(
            Some(
                CredentialsView {
                    username: nonempty(Some(s.subrange(0, i))),
                    password: nonempty(Some(s.subrange(i + 1, s.len() as int))),
                },
            ),
        )
    } else {
        Err(CredentialsError::MissingSeparator)
    }
}

/// Whether a header value names the `Basic` scheme.
pub open spec fn is_basic(value: Seq<u8>) -> bool {
    value.len() >= 6 && value.subrange(0, 6) == basic_prefix()
}

/// What an `Authorization` header value holds: nothing under another scheme,
/// else the decoded `user:password` text.
pub open spec fn parse_header(value: Seq<u8>) -> Result<Option<CredentialsView>, CredentialsError> {
    if !is_basic(value) {
        Ok(None)
    } else {
        match base64_decoding(value.subrange(6, value.len() as int)) {
            None => Err(CredentialsError::InvalidBase64),
            Some(bytes) => if valid_utf8(bytes) {
                split_payload(decode_utf8(bytes))
            } else {
                Err(CredentialsError::InvalidUtf8)
            },
        }
    }
}

/// Credentials that a header value carries unchanged: a user name, if any,
/// that is not empty and holds no `:`, and a password, if any, that is not
/// empty (an empty field reads back as absent).
pub open spec fn survives_header(c: CredentialsView) -> bool {
    &&& c.username is Some ==> c.username->0.len() > 0 && !c.username->0.contains(':')
    &&& c.password is Some ==> c.password->0.len() > 0
}

/// Splitting the payload of such credentials gives them back.
pub proof fn lemma_split_payload(c: CredentialsView)
    requires
        survives_header(c),
    ensures
        split_payload(basic_payload(c)) == Ok::<_, CredentialsError>(Some(c)),
{
    let s = basic_payload(c);
    let u = or_empty(c.username);
    let n = u.len() as int;
    assert(s[n] == ':');
    assert forall|j: int| 0 <= j < n implies s[j] != ':' by {
        assert(s[j] == u[j]);
        if c.username is Some {
            assert(u.contains(u[j]));
        }
    }
    assert(is_first_colon(s, n));
    assert forall|k: int| is_first_colon(s, k) implies k == n by {
        if k < n {
            assert(s[k] == u[k]);
        }
    }
    let i = choose|i: int| is_first_colon(s, i);
    assert(i == n);
    assert(s.subrange(0, n) =~= u);
    assert(s.subrange(n + 1, s.len() as int) =~= or_empty(c.password));
}

impl Credentials {
    /// The bytes of the `Authorization` header value for these credentials:
    /// `Basic ` and the base64 of `user:password`, an absent part written
    /// empty.
    pub fn header_bytes(&self) -> (r: Vec<u8>)
        ensures
            r@ == basic_header(self@),
            forall|i: int| 0 <= i < r@.len() ==> is_header_byte(#[trigger] r@[i]),
    {
        let mut payload = String::new();
        if let Some(u) = &self.username {
            payload.append(u.as_str());
        }
        proof {
            reveal_strlit(":");
        }
        payload.append(":");
        if let Some(p) = &self.password {
            payload.append(p.as_str());
        }
        assert(payload@ =~= basic_payload(self@));
        let mut encoded = base64_encode(payload.as_str().as_bytes());
        let mut r: Vec<u8> = vec![66u8, 97u8, 115u8, 105u8, 99u8, 32u8];
        let ghost prefix = r@;
        let ghost enc = encoded@;
        r.append(&mut encoded);
        assert(prefix =~= basic_prefix());
        assert forall|i: int| 0 <= i < r@.len() implies is_header_byte(#[trigger] r@[i]) by {
            if i >= 6 {
                assert(r@[i] == enc[i - 6]);
                assert(is_base64_symbol(enc[i - 6]));
            }
        }
        r
    }

    /// The `Authorization` header value for these credentials, marked
    /// sensitive so that it is left out of debug renderings.
    pub fn to_header_value(&self) -> (r: HeaderValue)
        ensures
            header_value_content(r) == basic_header(self@),
            header_value_sensitive(r),
    {
        let bytes = self.header_bytes();
        let mut header = header_value_from_bytes(bytes.as_slice());
        header.set_sensitive(true);
        header
    }

    /// Splits a decoded `user:password` text at its first `:`.
    fn from_payload(text: &str) -> (r: Result<Option<Self>, CredentialsError>)
        ensures
            result_view(r) == split_payload(text@),
            r matches Ok(Some(c)) ==> c.wf(),
    {
        let n = text.unicode_len();
        let mut i: usize = 0;
        while i < n && text.get_char(i) != ':'
            invariant
                n == text@.len(),
                0 <= i <= n,
                forall|j: int| 0 <= j < i ==> text@[j] != ':',
            decreases n - i,
        {
            i = i + 1;
        }
        if i == n {
            return Err(CredentialsError::MissingSeparator);
        }
        assert(is_first_colon(text@, i as int));
        assert forall|k: int| is_first_colon(text@, k) implies k == i by {}
        let user = text.substring_char(0, i).to_owned();
        let pass = text.substring_char(i + 1, n).to_owned();
        let username = if user.as_str().is_empty() {
            None
        } else {
            Some(user)
        };
        let password = if pass.as_str().is_empty() {
            None
        } else {
            Some(pass)
        };
        Ok(Some(Self::new(username, password)))
    }

    /// Credentials from the bytes of an `Authorization` header value: none
    /// under a scheme other than `Basic`, else the base64 `user:password`
    /// that follows, split at its first `:`, an empty part absent.
    pub fn from_header_bytes(value: &[u8]) -> (r: Result<Option<Self>, CredentialsError>)
        ensures
            result_view(r) == parse_header(value@),
            !is_basic(value@) ==> r matches Ok(None),
            r matches Ok(Some(c)) ==> c.wf(),
            forall|c: CredentialsView|
                survives_header(c) && value@ == #[trigger] basic_header(c) ==> result_view(r)
                    == Ok::<_, CredentialsError>(Some(c)),
    {
        let basic = value.len() >= 6 && value[0] == 66u8 && value[1] == 97u8 && value[2] == 115u8
            && value[3] == 105u8 && value[4] == 99u8 && value[5] == 32u8;
        if !basic {
            proof {
                if value@.len() >= 6 && value@.subrange(0, 6) == basic_prefix() {
                    assert(value@.subrange(0, 6)[0] == value@[0]);
                    assert(value@.subrange(0, 6)[1] == value@[1]);
                    assert(value@.subrange(0, 6)[2] == value@[2]);
                    assert(value@.subrange(0, 6)[3] == value@[3]);
                    assert(value@.subrange(0, 6)[4] == value@[4]);
                    assert(value@.subrange(0, 6)[5] == value@[5]);
                }
                assert forall|c: CredentialsView| value@ == #[trigger] basic_header(c) implies false by {
                    assert(basic_header(c).subrange(0, 6) =~= basic_prefix());
                }
            }
            return Ok(None);
        }
        assert(value@.subrange(0, 6) =~= basic_prefix());
        let rest = vstd::slice::slice_subrange(value, 6, value.len());
        let decoded = base64_decode(rest);
        proof {
            assert forall|c: CredentialsView|
                survives_header(c) && value@ == #[trigger] basic_header(c) implies parse_header(
                value@,
            ) == Ok::<_, CredentialsError>(Some(c)) by {
                let bytes = encode_utf8(basic_payload(c));
                assert(rest@ =~= base64_encoding(bytes));
                encode_utf8_valid_utf8(basic_payload(c));
                encode_utf8_decode_utf8(basic_payload(c));
                lemma_split_payload(c);
            }
        }
        let bytes = match decoded {
            Some(b) => b,
            None => return Err(CredentialsError::InvalidBase64),
        };
        let text = match string_from_utf8(bytes) {
            Some(t) => t,
            None => return Err(CredentialsError::InvalidUtf8),
        };
        Self::from_payload(text.as_str())
    }

    /// Credentials from an `Authorization` header value; see
    /// [`Credentials::from_header_bytes`].
    pub fn from_header_value(header: &HeaderValue) -> (r: Result<Option<Self>, CredentialsError>)
        ensures
            result_view(r) == parse_header(header_value_content(*header)),
            !is_basic(header_value_content(*header)) ==> r matches Ok(None),
            r matches Ok(Some(c)) ==> c.wf(),
            forall|c: CredentialsView|
                survives_header(c) && header_value_content(*header) == #[trigger] basic_header(c)
                    ==> result_view(r) == Ok::<_, CredentialsError>(Some(c)),
    {
        let bytes = header_value_bytes(header);
        Self::from_header_bytes(bytes.as_slice())
    }
}

} // verus!
