//! The API client: credential storage, URL normalization, and request
//! preparation.
//!
//! A client holds the base URL and an immutable credential set. Preparing a
//! request composes the final URL (appending the serialized query string for
//! GET requests with parameters) and resolves the authentication artifact;
//! the network transport itself lives outside this crate.

use vstd::prelude::*;

use crate::auth::ResolvedAuth;
use crate::auth::compute_basic_credential;
use crate::auth::compute_hmac_header;
use crate::auth::spec_resolved_auth;
use crate::serializer::serialize;
use crate::serializer::spec_serialize;
use crate::types::Params;

verus! {

use vstd::string::StrSliceExecFns;
use vstd::string::StringExecFns;

/// The HTTP method of a request.
#[derive(Clone, Copy, Debug, PartialEq, Eq)]
pub enum Method {
    Get,
    Post,
    Put,
    Delete,
}

/// The upper-case verb of each method, as it appears in the HMAC signing
/// string.
pub open spec fn spec_verb(m: Method) -> Seq<char> {
    match m {
        Method::Get => "GET"@,
        Method::Post => "POST"@,
        Method::Put => "PUT"@,
        Method::Delete => "DELETE"@,
    }
}

impl Method {
    /// The upper-case verb of this method.
    pub fn verb(&self) -> (r: &'static str)
        ensures
            r@ == spec_verb(*self),
    {
        match self {
            Method::Get => "GET",
            Method::Post => "POST",
            Method::Put => "PUT",
            Method::Delete => "DELETE",
        }
    }
}

/// A client for the remote API: the base URL and the credential set.
///
/// Credentials are set at construction time and are not mutated afterwards;
/// every setter consumes the client and returns the updated one.
#[derive(Debug, PartialEq, Eq)]
pub struct EspoApiClient {
    pub url: String,
    pub username: Option<String>,
    pub password: Option<String>,
    pub api_key: Option<String>,
    pub secret_key: Option<String>,
    pub url_path: String,
}

/// The mathematical model of an [`EspoApiClient`].
pub struct ClientView {
    pub url: Seq<char>,
    pub username: Option<Seq<char>>,
    pub password: Option<Seq<char>>,
    pub api_key: Option<Seq<char>>,
    pub secret_key: Option<Seq<char>>,
    pub url_path: Seq<char>,
}

impl View for EspoApiClient {
    type V = ClientView;

    open spec fn view(&self) -> ClientView {
        ClientView {
            url: self.url@,
            username: match self.username {
                Some(s) => Some(s@),
                None => None,
            },
            password: match self.password {
                Some(s) => Some(s@),
                None => None,
            },
            api_key: match self.api_key {
                Some(s) => Some(s@),
                None => None,
            },
            secret_key: match self.secret_key {
                Some(s) => Some(s@),
                None => None,
            },
            url_path: self.url_path@,
        }
    }
}

impl ClientView {
    /// A client is well formed when its URL path is the fixed API prefix.
    pub open spec fn wf(self) -> bool {
        self.url_path == "/api/v1/"@
    }
}

/// A base URL with one trailing slash removed: the stored form of a URL
/// handed to [`EspoApiClient::set_url`].
pub open spec fn spec_strip_trailing_slash(url: Seq<char>) -> Seq<char> {
    if url.len() > 0 && url.last() == '/' {
        url.drop_last()
    } else {
        url
    }
}

/// The fully qualified URL of an action: base URL, then the API prefix, then
/// the action path.
pub open spec fn spec_normalize_url(c: ClientView, action: Seq<char>) -> Seq<char> {
    c.url + c.url_path + action
}

/// Law: a base URL with a trailing slash is stored without it. This holds
/// for every URL that does not end in two slashes; of such a URL only the
/// last slash is removed.
pub proof fn lemma_stored_url_has_no_trailing_slash(url: Seq<char>)
    requires
        url.len() < 2 || url[url.len() - 2] != '/',
    ensures
        spec_strip_trailing_slash(url).len() == 0 || spec_strip_trailing_slash(url).last() != '/',
{
}

/// Law: on a well-formed client, normalizing an action path always yields
/// the base URL, then `/api/v1/`, then the action path.
pub proof fn lemma_normalize_url(c: ClientView, action: Seq<char>)
    requires
        c.wf(),
    ensures
        spec_normalize_url(c, action) == c.url + "/api/v1/"@ + action,
{
}

/// A prepared request: the full URL to contact and the authentication
/// artifact to attach. Sending it is the transport's business.
#[derive(Debug, PartialEq, Eq)]
pub struct PreparedRequest {
    pub url: String,
    pub auth: ResolvedAuth,
}

impl EspoApiClient {
    /// Creates a client for the API at `url`. The URL is stored as given;
    /// [`Self::set_url`] strips a trailing slash.
    pub fn new(url: &str) -> (r: EspoApiClient)
        ensures
            r@.url == url@,
            r@.username is None,
            r@.password is None,
            r@.api_key is None,
            r@.secret_key is None,
            r@.wf(),
    {
        let r = EspoApiClient {
            url: String::from_str(url),
            username: None,
            password: None,
            api_key: None,
            secret_key: None,
            url_path: String::from_str("/api/v1/"),
        };
        r
    }

    /// Freezes the client: the built value is the client itself.
    pub fn build(self) -> (r: Self)
        ensures
            r == self,
    {
        self
    }

    /// Sets the base URL, stripping one trailing slash if present.
    pub fn set_url(self, url: &str) -> (r: EspoApiClient)
        ensures
            r@ == (ClientView { url: spec_strip_trailing_slash(url@), ..self@ }),
    {
        let n = url.unicode_len();
        let stored = if n > 0 && url.get_char(n - 1) == '/' {
            String::from_str(url.substring_char(0, n - 1))
        } else {
            String::from_str(url)
        };
        proof {
            assert(stored@ =~= spec_strip_trailing_slash(url@));
        }
        EspoApiClient { url: stored, ..self }
    }

    /// Sets the username for Basic authentication; pair it with
    /// [`Self::set_password`].
    pub fn set_username(self, username: &str) -> (r: EspoApiClient)
        ensures
            r@ == (ClientView { username: Some(username@), ..self@ }),
    {
        EspoApiClient { username: Some(String::from_str(username)), ..self }
    }

    /// Sets the password for Basic authentication; pair it with
    /// [`Self::set_username`].
    pub fn set_password(self, password: &str) -> (r: EspoApiClient)
        ensures
            r@ == (ClientView { password: Some(password@), ..self@ }),
    {
        EspoApiClient { password: Some(String::from_str(password)), ..self }
    }

    /// Sets the API key; alone it selects plain key authentication, and
    /// together with [`Self::set_secret_key`] it selects HMAC.
    pub fn set_api_key(self, api_key: &str) -> (r: EspoApiClient)
        ensures
            r@ == (ClientView { api_key: Some(api_key@), ..self@ }),
    {
        EspoApiClient { api_key: Some(String::from_str(api_key)), ..self }
    }

    /// Sets the secret key for HMAC authentication; pair it with
    /// [`Self::set_api_key`].
    pub fn set_secret_key(self, secret_key: &str) -> (r: EspoApiClient)
        ensures
            r@ == (ClientView { secret_key: Some(secret_key@), ..self@ }),
    {
        EspoApiClient { secret_key: Some(String::from_str(secret_key)), ..self }
    }

    /// The fully qualified URL of an action: base URL, URL path, action.
    pub fn normalize_url(&self, action: &str) -> (r: String)
        ensures
            r@ == spec_normalize_url(self@, action@),
    {
        let r = self.url.clone().concat(self.url_path.as_str()).concat(action);
        proof {
            assert(r@ =~= spec_normalize_url(self@, action@));
        }
        r
    }

    /// Chooses the authentication artifact for a request, by the fixed
    /// precedence: Basic, then HMAC, then API key, then none.
    pub fn resolve_auth(&self, method: Method, action: &str) -> (r: ResolvedAuth)
        ensures
            r@ == spec_resolved_auth(
                self@.username,
                self@.password,
                self@.api_key,
                self@.secret_key,
                method,
                action@,
            ),
    {
        if self.username.is_some() && self.password.is_some() {
            let username = self.username.as_ref().unwrap();
            let password = self.password.as_ref().unwrap();
            ResolvedAuth::Basic(compute_basic_credential(username.as_str(), password.as_str()))
        } else if self.api_key.is_some() && self.secret_key.is_some() {
            let api_key = self.api_key.as_ref().unwrap();
            let secret_key = self.secret_key.as_ref().unwrap();
            ResolvedAuth::Hmac(
                compute_hmac_header(api_key.as_str(), secret_key.as_str(), method, action),
            )
        } else if self.api_key.is_some() {
            let api_key = self.api_key.as_ref().unwrap();
            ResolvedAuth::ApiKey(api_key.clone())
        } else {
            ResolvedAuth::NoAuth
        }
    }

    /// Composes a request: the full URL — with the serialized query string
    /// appended for a GET request with parameters — and the authentication
    /// artifact. The parameters, if given, must be well formed.
    pub fn prepare_request(&self, method: Method, action: &str, data_get: Option<Params>) -> (r:
        PreparedRequest)
        requires
            (data_get matches Some(p) ==> p@.wf()),
        ensures
            r.url@ == (if method is Get && data_get is Some {
                spec_normalize_url(self@, action@) + "?"@ + spec_serialize(data_get->0@)
            } else {
                spec_normalize_url(self@, action@)
            }),
            r.auth@ == spec_resolved_auth(
                self@.username,
                self@.password,
                self@.api_key,
                self@.secret_key,
                method,
                action@,
            ),
    {
        let base = self.normalize_url(action);
        let is_get = match method {
            Method::Get => true,
            _ => false,
        };
        let url = if is_get && data_get.is_some() {
            let params = data_get.unwrap();
            match serialize(params) {
                Ok(query) => base.concat("?").concat(query.as_str()),
                Err(_) => base,
            }
        } else {
            base
        };
        let auth = self.resolve_auth(method, action);
        PreparedRequest { url, auth }
    }
}

} // verus!
