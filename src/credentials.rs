use crate::outside::{
    netrc_entry, netrc_hosts, percent_decode, percent_decoding, url_host, url_host_text, url_password,
    url_password_text, url_username, url_username_text,
};
use netrc::Netrc;
use url::Url;
use vstd::prelude::*;

verus! {

/// The mathematical value of a [`Credentials`]: an optional user name and an
/// optional password, as character sequences.
pub struct CredentialsView {
    pub username: Option<Seq<char>>,
    pub password: Option<Seq<char>>,
}

/// Why credentials that were present could not be read.
#[derive(Debug, Clone, Copy, PartialEq, Eq)]
pub enum CredentialsError {
    /// URL userinfo whose percent-decoding is not valid UTF-8.
    InvalidPercentEncoding,
    /// A `Basic` header whose payload is not valid base64.
    InvalidBase64,
    /// A `Basic` header whose decoded payload is not valid UTF-8.
    InvalidUtf8,
    /// A `Basic` header whose decoded payload holds no `:`.
    MissingSeparator,
    /// A request whose header map is full, so that no header can be set.
    TooManyHeaders,
}

/// A user name and password for HTTP Basic Authentication.
///
/// An empty user name is never stored: it is held as an absent one.
#[derive(Clone, Debug, PartialEq)]
pub struct Credentials {
    pub(crate) username: Option<String>,
    pub(crate) password: Option<String>,
}

/// An empty name stands for no name at all.
pub open spec fn nonempty(s: Option<Seq<char>>) -> Option<Seq<char>> {
    if s is Some && s->0.len() > 0 {
        s
    } else {
        None
    }
}

/// The credentials that `new` builds from these two fields.
pub open spec fn new_view(username: Option<Seq<char>>, password: Option<Seq<char>>) -> CredentialsView {
    CredentialsView { username: nonempty(username), password }
}

/// The mathematical value of an optional result.
pub open spec fn option_view(r: Option<Credentials>) -> Option<CredentialsView> {
    match r {
        Some(c) => Some(c@),
        None => None,
    }
}

/// The mathematical value of a reading that may fail.
pub open spec fn result_view(r: Result<Option<Credentials>, CredentialsError>) -> Result<
    Option<CredentialsView>,
    CredentialsError,
> {
    match r {
        Ok(o) => Ok(option_view(o)),
        Err(e) => Err(e),
    }
}

/// Credentials whose user name, if any, is not empty.
pub open spec fn valid_view(c: CredentialsView) -> bool {
    c.username is Some ==> c.username->0.len() > 0
}

/// What the percent-encoded userinfo of a URL holds: nothing where the user
/// name is empty and no password is given, else each given part decoded.
pub open spec fn parse_userinfo(username: Seq<char>, password: Option<Seq<char>>) -> Result<
    Option<CredentialsView>,
    CredentialsError,
> {
    if username.len() == 0 && password is None {
        Ok(None)
    } else if username.len() > 0 && percent_decoding(username) is None {
        Err(CredentialsError::InvalidPercentEncoding)
    } else if password is Some && percent_decoding(password->0) is None {
        Err(CredentialsError::InvalidPercentEncoding)
    } else {
        Ok(
            Some(
                new_view(
                    if username.len() == 0 {
                        None
                    } else {
                        percent_decoding(username)
                    },
                    match password {
                        Some(p) => percent_decoding(p),
                        None => None,
                    },
                ),
            ),
        )
    }
}

/// The key of the netrc entry that serves every host without one of its own.
pub open spec fn default_host() -> Seq<char> {
    seq!['d', 'e', 'f', 'a', 'u', 'l', 't']
}

/// The netrc entry for a host: its own, else the default one.
pub open spec fn netrc_lookup(hosts: Map<Seq<char>, (Seq<char>, Seq<char>)>, host: Seq<char>) -> Option<
    (Seq<char>, Seq<char>),
> {
    if hosts.contains_key(host) {
        Some(hosts[host])
    } else if hosts.contains_key(default_host()) {
        Some(hosts[default_host()])
    } else {
        None
    }
}

/// The credentials that a netrc table offers for a host, if its login is the
/// expected user name (when one is expected).
pub open spec fn netrc_credentials(
    hosts: Map<Seq<char>, (Seq<char>, Seq<char>)>,
    host: Option<Seq<char>>,
    expected: Option<Seq<char>>,
) -> Option<CredentialsView> {
    match host {
        None => None,
        Some(h) => match netrc_lookup(hosts, h) {
            None => None,
            Some(e) => if expected is Some && expected->0 != e.0 {
                None
            } else {
                Some(new_view(Some(e.0), Some(e.1)))
            },
        },
    }
}

/// Where a request's credentials come from: its URL first, then its
/// `Authorization` header.
pub open spec fn prefer_url(
    from_url: Result<Option<CredentialsView>, CredentialsError>,
    from_header: Option<Result<Option<CredentialsView>, CredentialsError>>,
) -> Result<Option<CredentialsView>, CredentialsError> {
    match from_url {
        Ok(None) => match from_header {
            Some(h) => h,
            None => Ok(None),
        },
        other => other,
    }
}

impl View for Credentials {
    type V = CredentialsView;

    open(crate) spec fn view(&self) -> CredentialsView {
        CredentialsView { username: self.username.deep_view(), password: self.password.deep_view() }
    }
}

impl Credentials {
    /// A stored user name is never empty.
    pub open(crate) spec fn wf(&self) -> bool {
        valid_view(self@)
    }

    /// Credentials from a user name and a password; an empty user name is
    /// stored as an absent one.
    pub fn new(username: Option<String>, password: Option<String>) -> (r: Self)
        ensures
            r@ == new_view(username.deep_view(), password.deep_view()),
            r.wf(),
    {
        let username = match username {
            Some(u) => if u.as_str().unicode_len() == 0 {
                None
            } else {
                Some(u)
            },
            None => None,
        };
        Credentials { username, password }
    }

    /// The user name, if any.
    pub fn username(&self) -> (r: Option<&str>)
        ensures
            r.deep_view() == self@.username,
    {
        match &self.username {
            Some(u) => Some(u.as_str()),
            None => None,
        }
    }

    /// The password, if any.
    pub fn password(&self) -> (r: Option<&str>)
        ensures
            r.deep_view() == self@.password,
    {
        match &self.password {
            Some(p) => Some(p.as_str()),
            None => None,
        }
    }

    /// Whether neither a user name nor a password is held.
    pub fn is_empty(&self) -> (r: bool)
        ensures
            r == (self@.username is None && self@.password is None),
    {
        self.password.is_none() && self.username.is_none()
    }

    /// Credentials from the userinfo of a URL, both parts percent-encoded;
    /// an empty user name with no password means there are none.
    pub fn from_userinfo(username: &str, password: Option<&str>) -> (r: Result<
        Option<Self>,
        CredentialsError,
    >)
        ensures
            result_view(r) == parse_userinfo(username@, password.deep_view()),
            r matches Ok(Some(c)) ==> c.wf(),
    {
        if username.is_empty() && password.is_none() {
            return Ok(None);
        }
        let user = if username.is_empty() {
            None
        } else {
            match percent_decode(username) {
                Some(u) => Some(u),
                None => return Err(CredentialsError::InvalidPercentEncoding),
            }
        };
        let pass = match password {
            Some(p) => match percent_decode(p) {
                Some(d) => Some(d),
                None => return Err(CredentialsError::InvalidPercentEncoding),
            },
            None => None,
        };
        Ok(Some(Self::new(user, pass)))
    }

    /// Credentials from the userinfo of a URL, if it has any.
    pub fn from_url(url: &Url) -> (r: Result<Option<Self>, CredentialsError>)
        ensures
            result_view(r) == parse_userinfo(url_username_text(*url), url_password_text(*url)),
            r matches Ok(Some(c)) ==> c.wf(),
    {
        let username = url_username(url);
        let password = url_password(url);
        let password = match &password {
            Some(p) => Some(p.as_str()),
            None => None,
        };
        Self::from_userinfo(username.as_str(), password)
    }

    /// Credentials that a netrc table offers for a host (its own entry, else
    /// the `default` one), if there is a host, and if the entry's login is the
    /// expected user name where one is given.
    pub fn from_netrc_host(netrc: &Netrc, host: Option<&str>, username: Option<&str>) -> (r: Option<
        Self,
    >)
        ensures
            option_view(r) == netrc_credentials(
                netrc_hosts(*netrc),
                host.deep_view(),
                username.deep_view(),
            ),
            r matches Some(c) ==> c.wf(),
    {
        let host = match host {
            Some(h) => h,
            None => return None,
        };
        let entry = match netrc_entry(netrc, host) {
            Some(e) => e,
            None => {
                proof {
                    reveal_strlit("default");
                    assert("default"@ =~= default_host());
                }
                match netrc_entry(netrc, "default") {
                    Some(e) => e,
                    None => return None,
                }
            },
        };
        if let Some(expected) = username {
            let expected = expected.to_owned();
            if expected != entry.0 {
                assert(expected@ != entry.0@);
                return None;
            }
        }
        Some(Self::new(Some(entry.0), Some(entry.1)))
    }

    /// Credentials for a URL's host from a netrc table; see
    /// [`Credentials::from_netrc_host`].
    pub fn from_netrc(netrc: &Netrc, url: &Url, username: Option<&str>) -> (r: Option<Self>)
        ensures
            option_view(r) == netrc_credentials(
                netrc_hosts(*netrc),
                url_host_text(*url),
                username.deep_view(),
            ),
            r matches Some(c) ==> c.wf(),
    {
        let host = url_host(url);
        let host = match &host {
            Some(h) => Some(h.as_str()),
            None => None,
        };
        Self::from_netrc_host(netrc, host, username)
    }
}

} // verus!
