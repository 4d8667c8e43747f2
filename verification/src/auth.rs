//! Authentication resolution: from a credential set and the outgoing
//! method and action path, select exactly one of Basic, HMAC or API-key
//! authentication and compute its header value.
//!
//! Precedence is fixed: username and password together win over an API key
//! with a secret key (HMAC), which wins over an API key alone; with no
//! credentials the request goes out unauthenticated.

use vstd::prelude::*;

use crate::client::Method;
use crate::client::spec_verb;
use crate::encoding::b64_of;
use crate::encoding::base64_encode;

verus! {

use hmac::Mac;
use vstd::string::StringExecFns;

/// What HMAC-SHA256 returns for a key and a message. The algorithm is not
/// written out here: the name only fixes that the result is a function of
/// the key and the message alone.
pub uninterp spec fn hmac_sha256(key: Seq<u8>, msg: Seq<u8>) -> Seq<u8>;

/// Relies on hmac's `Hmac<sha2::Sha256>`: a deterministic MAC of the message
/// under the key, 32 bytes long; keys of any length are accepted.
#[verifier::external_body]
fn hmac_sha256_sign(key: &[u8], msg: &[u8]) -> (r: Vec<u8>)
    ensures
        r@ == hmac_sha256(key@, msg@),
        r@.len() == 32,
{
    let mut mac = <hmac::Hmac<sha2::Sha256> as hmac::KeyInit>::new_from_slice(key).unwrap();
    mac.update(msg);
    mac.finalize().into_bytes().to_vec()
}

/// The one authentication artifact chosen for a request.
#[derive(Debug, PartialEq, Eq)]
pub enum ResolvedAuth {
    /// HTTP Basic authentication: the value is `base64(username:password)`.
    Basic(String),
    /// HMAC authentication: the value of the `X-Hmac-Authorization` header.
    Hmac(String),
    /// Plain API-key authentication: the value of the `X-Api-Key` header.
    ApiKey(String),
    /// No credentials: the request is sent unauthenticated.
    NoAuth,
}

/// The mathematical model of a [`ResolvedAuth`].
pub enum ResolvedAuthView {
    Basic(Seq<char>),
    Hmac(Seq<char>),
    ApiKey(Seq<char>),
    NoAuth,
}

impl View for ResolvedAuth {
    type V = ResolvedAuthView;

    open spec fn view(&self) -> ResolvedAuthView {
        match self {
            ResolvedAuth::Basic(s) => ResolvedAuthView::Basic(s@),
            ResolvedAuth::Hmac(s) => ResolvedAuthView::Hmac(s@),
            ResolvedAuth::ApiKey(s) => ResolvedAuthView::ApiKey(s@),
            ResolvedAuth::NoAuth => ResolvedAuthView::NoAuth,
        }
    }
}

/// The Basic credential: base64 of the UTF-8 bytes of `username:password`.
pub open spec fn spec_basic_credential(username: Seq<char>, password: Seq<char>) -> Seq<char> {
    b64_of(vstd::utf8::encode_utf8(username + ":"@ + password))
}

/// The canonical string signed for HMAC authentication: the upper-case verb,
/// a space, a slash, then the action path as given.
pub open spec fn spec_signing_string(method: Method, action: Seq<char>) -> Seq<char> {
    spec_verb(method) + " /"@ + action
}

/// The `X-Hmac-Authorization` value: base64 of the API key's bytes, a literal
/// colon, then base64 of the MAC of the signing string under the secret key.
pub open spec fn spec_hmac_header(
    api_key: Seq<char>,
    secret_key: Seq<char>,
    method: Method,
    action: Seq<char>,
) -> Seq<char> {
    b64_of(vstd::utf8::encode_utf8(api_key)) + ":"@ + b64_of(
        hmac_sha256(
            vstd::utf8::encode_utf8(secret_key),
            vstd::utf8::encode_utf8(spec_signing_string(method, action)),
        ),
    )
}

/// The authentication artifact chosen for a credential set and a request,
/// by fixed precedence: Basic, then HMAC, then API key, then none.
pub open spec fn spec_resolved_auth(
    username: Option<Seq<char>>,
    password: Option<Seq<char>>,
    api_key: Option<Seq<char>>,
    secret_key: Option<Seq<char>>,
    method: Method,
    action: Seq<char>,
) -> ResolvedAuthView {
    if username is Some && password is Some {
        ResolvedAuthView::Basic(spec_basic_credential(username->0, password->0))
    } else if api_key is Some && secret_key is Some {
        ResolvedAuthView::Hmac(spec_hmac_header(api_key->0, secret_key->0, method, action))
    } else if api_key is Some {
        ResolvedAuthView::ApiKey(api_key->0)
    } else {
        ResolvedAuthView::NoAuth
    }
}

/// Computes the Basic credential for a username and password.
pub(crate) fn compute_basic_credential(username: &str, password: &str) -> (r: String)
    ensures
        r@ == spec_basic_credential(username@, password@),
{
    let joined = String::from_str(username).concat(":").concat(password);
    proof {
        assert(joined@ =~= username@ + ":"@ + password@);
    }
    let bytes = joined.as_str().as_bytes_vec();
    base64_encode(bytes.as_slice())
}

/// Computes the `X-Hmac-Authorization` value for an API key, a secret key,
/// and the outgoing method and action path.
pub(crate) fn compute_hmac_header(api_key: &str, secret_key: &str, method: Method, action: &str) -> (r:
    String)
    ensures
        r@ == spec_hmac_header(api_key@, secret_key@, method, action@),
{
    let signing = String::from_str(method.verb()).concat(" /").concat(action);
    proof {
        assert(signing@ =~= spec_signing_string(method, action@));
    }
    let msg = signing.as_str().as_bytes_vec();
    let key = secret_key.as_bytes_vec();
    let mac = hmac_sha256_sign(key.as_slice(), msg.as_slice());
    let api_bytes = api_key.as_bytes_vec();
    let r = base64_encode(api_bytes.as_slice()).concat(":").concat(
        base64_encode(mac.as_slice()).as_str(),
    );
    proof {
        assert(r@ =~= spec_hmac_header(api_key@, secret_key@, method, action@));
    }
    r
}

/// Law: the precedence among authentication schemes is fixed. Username and
/// password together always give Basic; otherwise an API key with a secret
/// key gives HMAC; otherwise an API key alone gives plain key authentication;
/// otherwise no artifact is produced.
pub proof fn lemma_auth_precedence(
    username: Option<Seq<char>>,
    password: Option<Seq<char>>,
    api_key: Option<Seq<char>>,
    secret_key: Option<Seq<char>>,
    method: Method,
    action: Seq<char>,
)
    ensures
        (username is Some && password is Some) ==> spec_resolved_auth(
            username,
            password,
            api_key,
            secret_key,
            method,
            action,
        ) is Basic,
        (!(username is Some && password is Some) && api_key is Some && secret_key is Some)
            ==> spec_resolved_auth(username, password, api_key, secret_key, method, action)
            is Hmac,
        (!(username is Some && password is Some) && api_key is Some && secret_key is None)
            ==> spec_resolved_auth(username, password, api_key, secret_key, method, action)
            is ApiKey,
        (api_key is None && !(username is Some && password is Some)) ==> spec_resolved_auth(
            username,
            password,
            api_key,
            secret_key,
            method,
            action,
        ) is NoAuth,
{
}

/// Law: the HMAC artifact is a function of the API key, the secret key, the
/// method and the action path alone; in particular two credential sets that
/// agree on those fields sign identically, whatever else differs around them.
pub proof fn lemma_hmac_artifact_deterministic(
    api_key: Seq<char>,
    secret_key: Seq<char>,
    method: Method,
    action: Seq<char>,
    password_a: Option<Seq<char>>,
    password_b: Option<Seq<char>>,
)
    ensures
        spec_resolved_auth(None, password_a, Some(api_key), Some(secret_key), method, action)
            == spec_resolved_auth(
            None,
            password_b,
            Some(api_key),
            Some(secret_key),
            method,
            action,
        ),
        spec_resolved_auth(None, password_a, Some(api_key), Some(secret_key), method, action)
            == ResolvedAuthView::Hmac(spec_hmac_header(api_key, secret_key, method, action)),
{
}

} // verus!
