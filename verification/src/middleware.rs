//! The authentication gate and the session settings shared by both front
//! doors.

use vstd::prelude::*;
use base64::Engine;
use http::HeaderMap;
use crate::headers::{header, header_is, lemma_plain_text, text_bytes};
use crate::response::{Response, ResponseView, UNAUTHORIZED};
use crate::router::Handler;
use crate::session::Session;

verus! {

/// The user that an authenticated request is made by.
#[derive(Clone, Copy, Debug, PartialEq, Eq)]
pub struct AuthedUser(pub i64);

/// Whether the request comes from the interactive client that swaps parts
/// of a page: its `hx-request` header is exactly `true`.
pub open spec fn wants_partial(headers: HeaderMap) -> bool {
    header(headers, "hx-request"@) == Some(text_bytes("true"@))
}

/// Whether the request declares a JSON body: its `content-type` header is
/// exactly `application/json`.
pub open spec fn declares_json(headers: HeaderMap) -> bool {
    header(headers, "content-type"@) == Some(text_bytes("application/json"@))
}

/// The answer to a request that is not authenticated. The interactive
/// client is told to navigate to the login page, a JSON caller gets a bare
/// "unauthorized", and anyone else is redirected to the login page.
pub open spec fn rejection(headers: HeaderMap) -> ResponseView {
    if wants_partial(headers) {
        ResponseView::empty(UNAUTHORIZED as int).with_header("hx-redirect"@, "/login"@)
    } else if declares_json(headers) {
        ResponseView::empty(UNAUTHORIZED as int)
    } else {
        ResponseView::redirect("/login"@)
    }
}

/// The user that a session authenticates, where there is a session.
pub open spec fn session_user(session: Option<&Session>) -> Option<i64> {
    match session {
        Some(s) => s@,
        None => None,
    }
}

impl AuthedUser {
    /// Admits a request if and only if its session is logged in, as the
    /// user of that session. A request without session, or with an
    /// anonymous one, is answered with the rejection that fits its
    /// headers.
    pub fn from_request_parts(session: Option<&Session>, headers: &HeaderMap) -> (r: Result<AuthedUser, Response>)
        ensures
            match r {
                Ok(user) => session_user(session) == Some(user.0),
                Err(resp) => session_user(session) is None && resp@ == rejection(*headers),
            },
    {
        let uid = match session {
            Some(s) => s.get(),
            None => None,
        };
        match uid {
            Some(uid) => Ok(AuthedUser(uid)),
            None => Err(unauthorized_redirect(headers)),
        }
    }
}

/// What the authentication check in front of `handler` decides for a
/// session logged in as `session`, if as anyone: the user that the handler
/// runs as, none for a handler that needs no user, or the answer that
/// turns the caller away.
pub open spec fn admission(handler: Handler, session: Option<i64>, headers: HeaderMap) -> Result<
    Option<i64>,
    ResponseView,
> {
    if handler.protected() {
        match session {
            Some(uid) => Ok(Some(uid)),
            None => Err(rejection(headers)),
        }
    } else {
        Ok(None)
    }
}

/// Mathematical value of an admission.
pub open spec fn admission_view(r: Result<Option<AuthedUser>, Response>) -> Result<Option<i64>, ResponseView> {
    match r {
        Ok(Some(user)) => Ok(Some(user.0)),
        Ok(None) => Ok(None),
        Err(resp) => Err(resp@),
    }
}

/// Passes a request through the authentication check in front of
/// `handler`. A protected handler is reached only with a logged-in session
/// and runs as its user; the others are open to everyone.
pub fn authorize(handler: Handler, session: Option<&Session>, headers: &HeaderMap) -> (r: Result<
    Option<AuthedUser>,
    Response,
>)
    ensures
        admission_view(r) == admission(handler, session_user(session), *headers),
{
    if handler.is_protected() {
        match AuthedUser::from_request_parts(session, headers) {
            Ok(user) => Ok(Some(user)),
            Err(resp) => Err(resp),
        }
    } else {
        Ok(None)
    }
}

/// The answer to a request that is not authenticated.
pub fn unauthorized_redirect(headers: &HeaderMap) -> (resp: Response)
    ensures
        resp@ == rejection(*headers),
{
    proof {
        reveal_strlit("hx-redirect");
        reveal_strlit("/login");
        lemma_plain_text("/login"@);
    }
    if is_htmx(headers) {
        return Response::empty(UNAUTHORIZED).with_header("hx-redirect", "/login");
    }
    if is_json(headers) {
        return Response::empty(UNAUTHORIZED);
    }
    Response::redirect("/login")
}

/// Whether the request comes from the interactive client that swaps parts
/// of a page.
pub fn is_htmx(headers: &HeaderMap) -> (htmx: bool)
    ensures
        htmx == wants_partial(*headers),
{
    proof {
        reveal_strlit("hx-request");
    }
    header_is(headers, "hx-request", "true")
}

/// Whether the request declares a JSON body. A request without
/// `content-type` does not.
pub fn is_json(headers: &HeaderMap) -> (json: bool)
    ensures
        json == declares_json(*headers),
{
    proof {
        reveal_strlit("content-type");
    }
    header_is(headers, "content-type", "application/json")
}

/// The `SameSite` attribute of the session cookie.
#[derive(Clone, Copy, Debug, PartialEq, Eq)]
pub enum SameSite {
    Strict,
    Lax,
    Unrestricted,
}

/// Where the key that signs the session cookie comes from.
#[derive(Debug, PartialEq, Eq)]
pub enum SessionKey {
    /// These bytes, of which there are at least [`MIN_KEY_LEN`].
    Provided(Vec<u8>),
    /// A key generated at startup.
    Generated,
}

/// Why a configured signing key cannot be used.
#[derive(Clone, Copy, Debug, PartialEq, Eq)]
pub enum KeyError {
    /// The configured text is not base64.
    InvalidBase64,
    /// The key has only this many bytes.
    TooShort(usize),
}

/// Fewest bytes a signing key may have.
pub const MIN_KEY_LEN: usize = 64;

/// Days after which a session expires.
pub const SESSION_DAYS: i64 = 30;

/// How the session layer is configured.
#[derive(Debug, PartialEq, Eq)]
pub struct SessionSettings {
    pub name: String,
    pub secure: bool,
    pub same_site: SameSite,
    pub http_only: bool,
    pub expiry_days: i64,
    pub key: SessionKey,
}

/// What the standard base64 alphabet, with padding, decodes `text` to;
/// nothing where `text` is not such an encoding.
pub uninterp spec fn base64_decoded(text: Seq<char>) -> Option<Seq<u8>>;

/// Mathematical value of optional bytes.
pub open spec fn opt_bytes(b: Option<Vec<u8>>) -> Option<Seq<u8>> {
    match b {
        Some(v) => Some(v@),
        None => None,
    }
}

/// `base64::engine::general_purpose::STANDARD.decode`: the decoded bytes,
/// or nothing where the engine reports an error.
#[verifier::external_body]
fn base64_decode(text: &str) -> (bytes: Option<Vec<u8>>)
    ensures
        opt_bytes(bytes) == base64_decoded(text@),
{
    base64::engine::general_purpose::STANDARD.decode(text).ok()
}

/// The key source that decoded key material stands for.
pub open spec fn key_from(decoded: Option<Seq<u8>>) -> Result<Seq<u8>, KeyError> {
    match decoded {
        Some(bytes) => if bytes.len() >= MIN_KEY_LEN {
            Ok(bytes)
        } else {
            Err(KeyError::TooShort(bytes.len() as usize))
        },
        None => Err(KeyError::InvalidBase64),
    }
}

/// Mathematical value of the outcome of loading a key: the bytes of a
/// provided key, nothing for a generated one.
pub open spec fn key_view(r: Result<SessionKey, KeyError>) -> Result<Option<Seq<u8>>, KeyError> {
    match r {
        Ok(SessionKey::Provided(bytes)) => Ok(Some(bytes@)),
        Ok(SessionKey::Generated) => Ok(None),
        Err(e) => Err(e),
    }
}

/// Accepts decoded key material if it is long enough to sign with.
pub fn session_key_from(decoded: Option<Vec<u8>>) -> (r: Result<SessionKey, KeyError>)
    ensures
        match key_from(opt_bytes(decoded)) {
            Ok(bytes) => key_view(r) == Ok::<Option<Seq<u8>>, KeyError>(Some(bytes)),
            Err(e) => key_view(r) == Err::<Option<Seq<u8>>, KeyError>(e),
        },
{
    match decoded {
        Some(bytes) => {
            if bytes.len() >= MIN_KEY_LEN {
                Ok(SessionKey::Provided(bytes))
            } else {
                Err(KeyError::TooShort(bytes.len()))
            }
        },
        None => Err(KeyError::InvalidBase64),
    }
}

/// Chooses the signing key: the configured one, decoded from base64, or a
/// generated one where none is configured. A configured key that does not
/// decode, or decodes to fewer than [`MIN_KEY_LEN`] bytes, is an error.
pub fn load_session_key(key_b64: Option<String>) -> (r: Result<SessionKey, KeyError>)
    ensures
        match key_b64 {
            Some(text) => match key_from(base64_decoded(text@)) {
                Ok(bytes) => key_view(r) == Ok::<Option<Seq<u8>>, KeyError>(Some(bytes)),
                Err(e) => key_view(r) == Err::<Option<Seq<u8>>, KeyError>(e),
            },
            None => key_view(r) == Ok::<Option<Seq<u8>>, KeyError>(None),
        },
{
    match key_b64 {
        Some(text) => session_key_from(base64_decode(text.as_str())),
        None => Ok(SessionKey::Generated),
    }
}

/// Whether the session cookie is marked secure: always, unless the
/// setting is exactly `false`.
pub open spec fn secure_flag(setting: Option<String>) -> bool {
    match setting {
        Some(text) => text@ != "false"@,
        None => true,
    }
}

/// The settings of the session layer: a cookie named `sample_session`,
/// lax same-site policy, hidden from scripts, valid for thirty days and
/// signed. `secure_session` and `key_b64` are the two configured values,
/// where they are set.
pub fn setup_sessions(secure_session: Option<String>, key_b64: Option<String>) -> (r: Result<
    SessionSettings,
    KeyError,
>)
    ensures
        match r {
            Ok(settings) => {
                &&& settings.name@ == "sample_session"@
                &&& settings.secure == secure_flag(secure_session)
                &&& settings.same_site == SameSite::Lax
                &&& settings.http_only
                &&& settings.expiry_days == SESSION_DAYS
                &&& match key_b64 {
                    Some(text) => key_from(base64_decoded(text@)) == Ok::<Seq<u8>, KeyError>(
                        settings.key->Provided_0@,
                    ) && settings.key is Provided,
                    None => settings.key is Generated,
                }
            },
            Err(e) => key_b64 matches Some(text) && key_from(base64_decoded(text@)) == Err::<
                Seq<u8>,
                KeyError,
            >(e),
        },
{
    let secure = match secure_session {
        Some(text) => {
            let off = "false".to_owned();
            !(text == off)
        },
        None => true,
    };
    match load_session_key(key_b64) {
        Ok(key) => Ok(
            SessionSettings {
                name: "sample_session".to_owned(),
                secure,
                same_site: SameSite::Lax,
                http_only: true,
                expiry_days: SESSION_DAYS,
                key,
            },
        ),
        Err(e) => Err(e),
    }
}

} // verus!
