//! The credential provider: validating the two client secrets, describing
//! the token request, and deciding what the token endpoint's response means.
//!
//! The provider performs a fresh OAuth2 client-credentials exchange on every
//! call: the caller sends the request described by [`token_url`] and
//! [`Config::form_fields`], and hands the response status and body to
//! [`token_from_response`], which either extracts the bearer token or reports
//! a typed error. No retry, no caching, and no stale or empty token is ever
//! substituted for a failure.

use vstd::prelude::*;
use vstd::string::*;

use crate::errors::ConfigError;
use crate::errors::TokenError;

verus! {

/// The `access_token` string field of `body` read as a JSON object, if `body`
/// is valid JSON whose top level is an object with a string under that key.
/// The value depends on the body text alone; it is given meaning only by the
/// contract of [`extract_access_token`].
pub uninterp spec fn access_token_of(body: Seq<char>) -> Option<Seq<char>>;

/// Relies on `serde_json::from_str::<Value>`, `Value::get` and
/// `Value::as_str`: together they read the `access_token` string field of a
/// JSON object, returning `None` when the body is not JSON, not an object,
/// or has no string under that key. The result is a function of the body
/// text alone, named by [`access_token_of`].
#[verifier::external_body]
fn extract_access_token(body: &str) -> (r: Option<String>)
    ensures
        r is Some <==> access_token_of(body@) is Some,
        r matches Some(t) ==> access_token_of(body@) == Some(t@),
{
    match serde_json::from_str::<serde_json::Value>(body) {
        Ok(doc) => doc.get("access_token").and_then(|f| f.as_str()).map(|s| s.to_string()),
        Err(_) => None,
    }
}

/// A validated client configuration: both secrets are known to be non-empty,
/// so a request built from it is never sent with a missing credential.
#[derive(Debug, Clone, PartialEq, Eq)]
pub struct Config {
    client_id: String,
    client_secret: String,
}

/// Whether `status` is a success HTTP status code.
pub open spec fn status_is_success(status: u16) -> bool {
    200 <= status < 300
}

impl Config {
    /// The client identifier this configuration was validated with.
    pub closed spec fn id_view(self) -> Seq<char> {
        self.client_id@
    }

    /// The client secret this configuration was validated with.
    pub closed spec fn secret_view(self) -> Seq<char> {
        self.client_secret@
    }

    /// Both secrets are present: the invariant every `Config` satisfies.
    pub open spec fn wf(self) -> bool {
        self.id_view().len() > 0 && self.secret_view().len() > 0
    }

    /// Validates the two secrets. Fails exactly when one is missing (empty),
    /// naming the client id first, so that a caller aborts before any network
    /// activity rather than attempting an exchange with an incomplete
    /// configuration.
    pub fn new(client_id: String, client_secret: String) -> (r: Result<Config, ConfigError>)
        ensures
            r is Ok <==> client_id@.len() > 0 && client_secret@.len() > 0,
            r matches Ok(c) ==> c.wf() && c.id_view() == client_id@ && c.secret_view()
                == client_secret@,
            client_id@.len() == 0 ==> r matches Err(ConfigError::MissingClientId),
            client_id@.len() > 0 && client_secret@.len() == 0 ==> r matches Err(
                ConfigError::MissingClientSecret,
            ),
    {
        if client_id.as_str().unicode_len() == 0 {
            Err(ConfigError::MissingClientId)
        } else if client_secret.as_str().unicode_len() == 0 {
            Err(ConfigError::MissingClientSecret)
        } else {
            Ok(Config { client_id, client_secret })
        }
    }

    /// The form fields of the client-credentials exchange, in order:
    /// `grant_type=client_credentials`, the client id, the client secret,
    /// and `scope=ais`.
    pub fn form_fields(&self) -> (r: Vec<(String, String)>)
        ensures
            r@.len() == 4,
            r@[0].0@ == "grant_type"@ && r@[0].1@ == "client_credentials"@,
            r@[1].0@ == "client_id"@ && r@[1].1@ == self.id_view(),
            r@[2].0@ == "client_secret"@ && r@[2].1@ == self.secret_view(),
            r@[3].0@ == "scope"@ && r@[3].1@ == "ais"@,
    {
        let mut fields: Vec<(String, String)> = Vec::new();
        fields.push(
            (String::from_str("grant_type"), String::from_str("client_credentials")),
        );
        fields.push((String::from_str("client_id"), self.client_id.clone()));
        fields.push((String::from_str("client_secret"), self.client_secret.clone()));
        fields.push((String::from_str("scope"), String::from_str("ais")));
        fields
    }
}

/// The fixed token endpoint of the exchange.
pub fn token_url() -> (r: &'static str)
    ensures
        r@ == "https://id.barentswatch.no/connect/token"@,
{
    "https://id.barentswatch.no/connect/token"
}

/// The content type declared on both the token request and the stream request.
pub fn form_content_type() -> (r: &'static str)
    ensures
        r@ == "application/x-www-form-urlencoded"@,
{
    "application/x-www-form-urlencoded"
}

/// Decides what the token endpoint's response means.
///
/// On a success status whose body is a JSON object carrying a non-empty
/// `access_token` string, returns exactly that token. A non-success status is
/// a `Status` error carrying the code; a success status whose body does not
/// have that shape (or carries an empty token, which is never returned as a
/// credential) is a `Parse` error carrying the raw body.
pub fn token_from_response(status: u16, body: String) -> (r: Result<String, TokenError>)
    ensures
        r is Ok <==> status_is_success(status) && (access_token_of(body@) matches Some(t)
            && t.len() > 0),
        r matches Ok(tok) ==> Some(tok@) == access_token_of(body@) && tok@.len() > 0,
        !status_is_success(status) ==> (r matches Err(TokenError::Status(s)) && s == status),
        status_is_success(status) && !(access_token_of(body@) matches Some(t) && t.len() > 0)
            ==> (r matches Err(TokenError::Parse(b)) && b@ == body@),
{
    if !(200 <= status && status < 300) {
        return Err(TokenError::Status(status));
    }
    match extract_access_token(body.as_str()) {
        Some(tok) => {
            if tok.as_str().unicode_len() > 0 {
                Ok(tok)
            } else {
                Err(TokenError::Parse(body))
            }
        },
        None => Err(TokenError::Parse(body)),
    }
}

} // verus!
