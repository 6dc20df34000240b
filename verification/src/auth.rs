//! The exchange of a one-time authorization code for an access token.

use crate::json::{json_reading, parse, Json, JsonModel};
use crate::request::{is_success, pair, pairs, status_ok};
use crate::request::{Body, BodyModel, Method, Request, RequestModel};
use vstd::prelude::*;

verus! {

/// A configuration value that the run needs.
#[derive(Debug, PartialEq, Eq, Clone, Copy)]
pub enum Setting {
    ClientId,
    ClientSecret,
    RedirectUri,
    AuthCode,
    PlaylistId,
}

/// The name of the environment variable that holds a setting.
pub open spec fn variable_name(s: Setting) -> Seq<char> {
    match s {
        Setting::ClientId => "SPOTIFY_CLIENT_ID"@,
        Setting::ClientSecret => "SPOTIFY_CLIENT_SECRET"@,
        Setting::RedirectUri => "SPOTIFY_REDIRECT_URI"@,
        Setting::AuthCode => "SPOTIFY_AUTH_CODE"@,
        Setting::PlaylistId => "SPOTIFY_PLAYLIST_ID"@,
    }
}

impl Setting {
    /// The name of the environment variable that holds the setting.
    pub fn variable(self) -> (r: String)
        ensures
            r@ == variable_name(self),
    {
        match self {
            Setting::ClientId => "SPOTIFY_CLIENT_ID".to_owned(),
            Setting::ClientSecret => "SPOTIFY_CLIENT_SECRET".to_owned(),
            Setting::RedirectUri => "SPOTIFY_REDIRECT_URI".to_owned(),
            Setting::AuthCode => "SPOTIFY_AUTH_CODE".to_owned(),
            Setting::PlaylistId => "SPOTIFY_PLAYLIST_ID".to_owned(),
        }
    }
}

/// A required configuration value is absent.
#[derive(Debug, PartialEq, Eq, Clone, Copy)]
pub enum ConfigError {
    Missing(Setting),
}

/// What the credential exchange needs to know.
#[derive(Debug, PartialEq, Eq)]
pub struct Config {
    pub client_id: String,
    pub client_secret: String,
    pub redirect_uri: String,
    pub auth_code: String,
}

/// The configuration as a mathematical value.
pub struct ConfigModel {
    pub client_id: Seq<char>,
    pub client_secret: Seq<char>,
    pub redirect_uri: Seq<char>,
    pub auth_code: Seq<char>,
}

impl View for Config {
    type V = ConfigModel;

    open spec fn view(&self) -> ConfigModel {
        ConfigModel {
            client_id: self.client_id@,
            client_secret: self.client_secret@,
            redirect_uri: self.redirect_uri@,
            auth_code: self.auth_code@,
        }
    }
}

/// The first of the four values that is absent, in the order client id,
/// client secret, redirect URI, authorization code.
pub open spec fn first_missing(
    client_id: Option<String>,
    client_secret: Option<String>,
    redirect_uri: Option<String>,
    auth_code: Option<String>,
) -> Option<Setting> {
    if client_id.is_none() {
        Some(Setting::ClientId)
    } else if client_secret.is_none() {
        Some(Setting::ClientSecret)
    } else if redirect_uri.is_none() {
        Some(Setting::RedirectUri)
    } else if auth_code.is_none() {
        Some(Setting::AuthCode)
    } else {
        None
    }
}

impl Config {
    /// Gathers the configuration from the four values as they were found,
    /// and names the first that is absent.
    pub fn gather(
        client_id: Option<String>,
        client_secret: Option<String>,
        redirect_uri: Option<String>,
        auth_code: Option<String>,
    ) -> (r: Result<Config, ConfigError>)
        ensures
            match first_missing(client_id, client_secret, redirect_uri, auth_code) {
                Some(s) => r == Err::<Config, ConfigError>(ConfigError::Missing(s)),
                None => r == Ok::<Config, ConfigError>(
                    Config {
                        client_id: client_id.unwrap(),
                        client_secret: client_secret.unwrap(),
                        redirect_uri: redirect_uri.unwrap(),
                        auth_code: auth_code.unwrap(),
                    },
                ),
            },
    {
        let client_id = match client_id {
            Some(v) => v,
            None => {
                return Err(ConfigError::Missing(Setting::ClientId));
            },
        };
        let client_secret = match client_secret {
            Some(v) => v,
            None => {
                return Err(ConfigError::Missing(Setting::ClientSecret));
            },
        };
        let redirect_uri = match redirect_uri {
            Some(v) => v,
            None => {
                return Err(ConfigError::Missing(Setting::RedirectUri));
            },
        };
        let auth_code = match auth_code {
            Some(v) => v,
            None => {
                return Err(ConfigError::Missing(Setting::AuthCode));
            },
        };
        Ok(Config { client_id, client_secret, redirect_uri, auth_code })
    }
}

/// Why the credential exchange failed.
#[derive(Debug, PartialEq, Eq, Clone, Copy)]
pub enum AuthError {
    /// The client id and secret are too long to encode.
    Oversized,
    /// The request could not be sent or no reply came.
    Transport,
    /// The token endpoint answered with a status outside 200 to 299.
    Status(u16),
    /// The reply is not a JSON object with an access and a refresh token.
    Malformed,
}

/// The standard base64 text, with padding, of a sequence of bytes.
pub uninterp spec fn base64_text(bytes: Seq<u8>) -> Seq<char>;

/// The longest input that is handed to the base64 encoder.
pub open spec fn encodable(len: nat) -> bool {
    len <= usize::MAX / 2
}

/// Calls `base64::encode`. Trusted: the text depends on the bytes alone.
/// The encoder panics where the length of its output overflows `usize`,
/// which an input of at most half of `usize::MAX` bytes cannot cause.
#[verifier::external_body]
fn encode_base64(bytes: &[u8]) -> (r: String)
    requires
        encodable(bytes@.len()),
    ensures
        r@ == base64_text(bytes@),
{
    #[allow(deprecated)]
    base64::encode(bytes)
}

/// The text that is encoded for HTTP Basic authentication.
pub open spec fn basic_plain(client_id: Seq<char>, client_secret: Seq<char>) -> Seq<char> {
    client_id + ":"@ + client_secret
}

/// The value of the `Authorization` header for an encoded credential.
pub open spec fn basic_of(encoded: Seq<char>) -> Seq<char> {
    "Basic "@ + encoded
}

/// The value of the `Authorization` header for HTTP Basic authentication.
pub open spec fn basic_header(client_id: Seq<char>, client_secret: Seq<char>) -> Seq<char> {
    basic_of(base64_text(vstd::utf8::encode_utf8(basic_plain(client_id, client_secret))))
}

/// Builds the text that is encoded for HTTP Basic authentication: id,
/// colon, secret.
pub fn basic_text(client_id: &str, client_secret: &str) -> (r: String)
    ensures
        r@ == basic_plain(client_id@, client_secret@),
{
    client_id.to_owned().concat(":").concat(client_secret)
}

/// Builds the value of the `Authorization` header for an encoded
/// credential: `Basic`, a space, and the credential.
pub fn basic_value(encoded: &str) -> (r: String)
    ensures
        r@ == basic_of(encoded@),
{
    "Basic ".to_owned().concat(encoded)
}

/// Builds the HTTP Basic credential of a client: `Basic`, a space, and the
/// base64 text of id, colon and secret. `None` where the two are too long
/// to encode.
pub fn basic_credential(client_id: &str, client_secret: &str) -> (r: Option<String>)
    ensures
        match r {
            Some(h) => h@ == basic_header(client_id@, client_secret@),
            None => !encodable(
                vstd::utf8::encode_utf8(basic_plain(client_id@, client_secret@)).len(),
            ),
        },
{
    let plain = basic_text(client_id, client_secret);
    let bytes = plain.as_str().as_bytes();
    if bytes.len() > usize::MAX / 2 {
        return None;
    }
    let encoded = encode_base64(bytes);
    Some(basic_value(encoded.as_str()))
}

/// The request that exchanges the authorization code for a token.
pub open spec fn token_request_model(c: ConfigModel) -> RequestModel {
    RequestModel {
        method: Method::Post,
        url: "https://accounts.spotify.com/api/token"@,
        authorization: basic_header(c.client_id, c.client_secret),
        query: Seq::empty(),
        body: BodyModel::Form(
            seq![
                ("grant_type"@, "authorization_code"@),
                ("code"@, c.auth_code),
                ("redirect_uri"@, c.redirect_uri),
            ],
        ),
    }
}

/// Builds the one request of the credential exchange: a form-encoded POST
/// to the token endpoint under HTTP Basic authentication.
pub fn token_request(config: &Config) -> (r: Result<Request, AuthError>)
    ensures
        match r {
            Ok(req) => req@ == token_request_model(config@),
            Err(e) => e == AuthError::Oversized && !encodable(
                vstd::utf8::encode_utf8(
                    basic_plain(config.client_id@, config.client_secret@),
                ).len(),
            ),
        },
{
    let authorization = match basic_credential(
        config.client_id.as_str(),
        config.client_secret.as_str(),
    ) {
        Some(h) => h,
        None => {
            return Err(AuthError::Oversized);
        },
    };
    let mut form: Vec<(String, String)> = Vec::new();
    form.push(pair("grant_type", "authorization_code"));
    form.push(pair("code", config.auth_code.as_str()));
    form.push(pair("redirect_uri", config.redirect_uri.as_str()));
    let req = Request {
        method: Method::Post,
        url: "https://accounts.spotify.com/api/token".to_owned(),
        authorization,
        query: Vec::new(),
        body: Body::Form(form),
    };
    proof {
        assert(pairs(req.query@) =~= Seq::empty());
        assert(pairs(form@) =~= token_request_model(config@).body->Form_0);
    }
    Ok(req)
}

/// The credential that the exchange yields, as a mathematical value.
pub struct TokenModel {
    pub access_token: Seq<char>,
    pub refresh_token: Seq<char>,
}

/// The credential that the exchange yields.
#[derive(Debug, PartialEq, Eq)]
pub struct Token {
    pub access_token: String,
    pub refresh_token: String,
}

impl View for Token {
    type V = TokenModel;

    open spec fn view(&self) -> TokenModel {
        TokenModel { access_token: self.access_token@, refresh_token: self.refresh_token@ }
    }
}

/// The credential that a JSON document holds: an object with the string
/// members `access_token` and `refresh_token`, whatever else it holds.
pub open spec fn doc_token(d: JsonModel) -> Option<TokenModel> {
    match (d.get("access_token"@), d.get("refresh_token"@)) {
        (Some(JsonModel::Text(a)), Some(JsonModel::Text(r))) => Some(
            TokenModel { access_token: a, refresh_token: r },
        ),
        _ => None,
    }
}

/// What a reply of the token endpoint means.
pub open spec fn reply_token(status: u16, body: Seq<char>) -> Result<TokenModel, AuthError> {
    if !is_success(status) {
        Err(AuthError::Status(status))
    } else {
        match json_reading(body) {
            None => Err(AuthError::Malformed),
            Some(d) => match doc_token(d) {
                None => Err(AuthError::Malformed),
                Some(t) => Ok(t),
            },
        }
    }
}

/// Reads the credential from the document of a reply.
pub fn token_from_json(doc: &Json) -> (r: Option<Token>)
    ensures
        match r {
            Some(t) => doc_token(doc@) == Some(t@),
            None => doc_token(doc@).is_none(),
        },
{
    let access = match doc.get("access_token") {
        Some(a) => a.text(),
        None => None,
    };
    let refresh = match doc.get("refresh_token") {
        Some(r) => r.text(),
        None => None,
    };
    match (access, refresh) {
        (Some(a), Some(r)) => Some(Token { access_token: a.clone(), refresh_token: r.clone() }),
        _ => None,
    }
}

/// Reads the reply of the token endpoint: the credential where the status
/// reports success and the body holds both tokens, else the error.
pub fn token_from_response(status: u16, body: &str) -> (r: Result<Token, AuthError>)
    ensures
        match r {
            Ok(t) => reply_token(status, body@) == Ok::<TokenModel, AuthError>(t@),
            Err(e) => reply_token(status, body@) == Err::<TokenModel, AuthError>(e),
        },
{
    if !status_ok(status) {
        return Err(AuthError::Status(status));
    }
    let doc = match parse(body) {
        Some(d) => d,
        None => {
            return Err(AuthError::Malformed);
        },
    };
    match token_from_json(&doc) {
        Some(t) => Ok(t),
        None => Err(AuthError::Malformed),
    }
}

} // verus!
