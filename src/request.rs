//! Credentials read from, and attached to, outgoing HTTP requests.
use crate::basic::{basic_header, parse_header};
use crate::credentials::{parse_userinfo, prefer_url, result_view, Credentials, CredentialsError};
use crate::outside::{
    authorization_name, bytes_view, first_authorization, request_authorization, request_headers,
    request_method_text, request_target, request_url, set_authorization, url_password_text,
    url_username_text,
};
use reqwest::Request;
use vstd::prelude::*;

verus! {

/// The bytes of an optional header value.
pub open spec fn slice_view(header: Option<&[u8]>) -> Option<Seq<u8>> {
    match header {
        Some(h) => Some(h@),
        None => None,
    }
}

/// What an optional `Authorization` header value holds, if there is one.
pub open spec fn parse_optional_header(header: Option<Seq<u8>>) -> Option<
    Result<Option<crate::credentials::CredentialsView>, CredentialsError>,
> {
    match header {
        Some(h) => Some(parse_header(h)),
        None => None,
    }
}

impl Credentials {
    /// The credentials of a request, given what its URL held and the bytes of
    /// its `Authorization` header: the URL's when it has any (or fails to
    /// read), else the header's.
    pub fn from_url_or_header(
        url_credentials: Result<Option<Self>, CredentialsError>,
        header: Option<&[u8]>,
    ) -> (r: Result<Option<Self>, CredentialsError>)
        requires
            url_credentials matches Ok(Some(c)) ==> c.wf(),
        ensures
            result_view(r) == prefer_url(
                result_view(url_credentials),
                parse_optional_header(slice_view(header)),
            ),
            r matches Ok(Some(c)) ==> c.wf(),
    {
        match url_credentials {
            Ok(None) => {},
            other => return other,
        }
        match header {
            Some(bytes) => Self::from_header_bytes(bytes),
            None => Ok(None),
        }
    }

    /// The credentials of a request: those of its URL, else those of its
    /// `Authorization` header (`Basic` only).
    pub fn from_request(request: &Request) -> (r: Result<Option<Self>, CredentialsError>)
        ensures
            result_view(r) == prefer_url(
                parse_userinfo(
                    url_username_text(request_target(*request)),
                    url_password_text(request_target(*request)),
                ),
                parse_optional_header(first_authorization(*request)),
            ),
            r matches Ok(Some(c)) ==> c.wf(),
    {
        let from_url = Self::from_url(request_url(request));
        let request_authorization_bytes = request_authorization(request);
        let header = match &request_authorization_bytes {
            Some(h) => Some(h.as_slice()),
            None => None,
        };
        assert(slice_view(header) == bytes_view(request_authorization_bytes));
        Self::from_url_or_header(from_url, header)
    }

    /// The request with these credentials as its only `Authorization`
    /// header, marked sensitive; any earlier one is replaced, and the rest of
    /// the headers, the URL and the method stay as they were. Fails, with the
    /// request dropped, where its header map is full.
    pub fn authenticate(&self, request: Request) -> (r: Result<Request, CredentialsError>)
        ensures
            match r {
                Ok(q) => {
                    &&& request_headers(q) == request_headers(request).insert(
                        authorization_name(),
                        seq![(basic_header(self@), true)],
                    )
                    &&& request_target(q) == request_target(request)
                    &&& request_method_text(q) == request_method_text(request)
                },
                Err(e) => e == CredentialsError::TooManyHeaders,
            },
    {
        let mut request = request;
        if set_authorization(&mut request, self.to_header_value()) {
            Ok(request)
        } else {
            Err(CredentialsError::TooManyHeaders)
        }
    }
}

} // verus!
