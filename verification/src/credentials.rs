//! Credential values: an authentication scheme together with the data it
//! needs, how it renders as a transport header, and the key under which it
//! is stored durably.

use base64::Engine;
use vstd::prelude::*;
use vstd::string::StringExecFns;

verus! {

/// Authentication schemes understood by the daemon.
#[derive(Debug, Clone, Copy, PartialEq, Eq, Structural)]
pub enum CredentialsType {
    /// HTTP Basic Authentication (username:password, base64-encoded).
    Basic,
    /// Bearer token authentication.
    Bearer,
}

/// Authentication credentials for the daemon or for an individual remote.
#[derive(Debug)]
pub struct Credentials {
    /// The scheme these credentials belong to.
    pub auth_type: CredentialsType,
    /// Username for Basic authentication; empty for Bearer.
    pub username: String,
    /// Password for Basic authentication, or the token for Bearer.
    pub password: String,
    /// The remote these credentials are for; `None` means daemon-wide.
    pub remote: Option<String>,
}

/// The text that base64's standard-alphabet encoder produces for a string's
/// UTF-8 bytes. The encoding is a pure function of its input, so it only
/// gets a name here; `base64_standard` is the one place that computes it.
pub uninterp spec fn base64_of(s: Seq<char>) -> Seq<char>;

/// Relies on `base64::engine::general_purpose::STANDARD.encode`: encodes the
/// argument's bytes with the standard alphabet, a pure function of the input.
#[verifier::external_body]
fn base64_standard(s: &str) -> (r: String)
    ensures
        r@ == base64_of(s@),
{
    base64::engine::general_purpose::STANDARD.encode(s)
}

impl Clone for Credentials {
    fn clone(&self) -> (res: Self)
        ensures
            res == *self,
    {
        Credentials {
            auth_type: self.auth_type,
            username: self.username.clone(),
            password: self.password.clone(),
            remote: match &self.remote {
                Some(r) => Some(r.clone()),
                None => None,
            },
        }
    }
}

impl Credentials {
    /// New Basic Auth credentials.
    pub fn basic(username: String, password: String, remote: Option<String>) -> (c: Credentials)
        ensures
            c.auth_type == CredentialsType::Basic,
            c.username == username,
            c.password == password,
            c.remote == remote,
    {
        Credentials { auth_type: CredentialsType::Basic, username, password, remote }
    }

    /// New Bearer token credentials.
    pub fn bearer(token: String, remote: Option<String>) -> (c: Credentials)
        ensures
            c.auth_type == CredentialsType::Bearer,
            c.username@ == Seq::<char>::empty(),
            c.password == token,
            c.remote == remote,
    {
        Credentials {
            auth_type: CredentialsType::Bearer,
            username: String::new(),
            password: token,
            remote,
        }
    }

    /// The `Authorization` header value for these credentials.
    pub fn auth_header(&self) -> (h: String)
        ensures
            self.auth_type == CredentialsType::Basic ==> h@ == "Basic "@ + base64_of(
                self.username@ + ":"@ + self.password@,
            ),
            self.auth_type == CredentialsType::Bearer ==> h@ == "Bearer "@ + self.password@,
    {
        match self.auth_type {
            CredentialsType::Basic => {
                let mut combined = self.username.clone();
                combined.append(":");
                combined.append(self.password.as_str());
                assert(combined@ =~= self.username@ + ":"@ + self.password@);
                let encoded = base64_standard(combined.as_str());
                let mut h = "Basic ".to_owned();
                h.append(encoded.as_str());
                h
            },
            CredentialsType::Bearer => {
                let mut h = "Bearer ".to_owned();
                h.append(self.password.as_str());
                h
            },
        }
    }

    /// The unique key under which these credentials are stored durably:
    /// a fixed daemon-wide key, or one derived from the remote's name.
    pub fn keyring_key(&self) -> (k: String)
        ensures
            self.remote matches Some(r) ==> k@ == "lazyfile-"@ + r@,
            self.remote is None ==> k@ == "lazyfile-daemon"@,
    {
        match &self.remote {
            Some(remote) => {
                let mut k = "lazyfile-".to_owned();
                k.append(remote.as_str());
                k
            },
            None => "lazyfile-daemon".to_owned(),
        }
    }
}

} // verus!
