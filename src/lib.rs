//! HTTP Basic Authentication credentials: read from URL userinfo, from a
//! netrc host table and from `Authorization` headers, and written back onto
//! outgoing requests.
use vstd::prelude::*;

pub mod credentials;
pub mod basic;
pub mod request;
pub mod laws;
pub mod outside;

pub use credentials::{Credentials, CredentialsError, CredentialsView};
