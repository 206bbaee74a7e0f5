use http::{HeaderMap, HeaderValue};
use sample_app::db::memory::Database;
use sample_app::db::{seed_account, seed_done, seed_lookup, seed_user, StoreReply, StoreRequest, User};
use sample_app::middleware::{authorize, is_htmx, is_json, unauthorized_redirect, AuthedUser};
use sample_app::password::{hash_password, verify_password};
use sample_app::response::Body;
use sample_app::router::Handler;
use sample_app::session::{Session, SESSION_USER_ID};
use sample_app::templates::{base_ctx, BaseCtx, LoginTmpl, Page};
use sample_app::web::auth::{
    auth_check, login_get, login_lookup, login_outcome, login_post, logout, query_has, LoginForm,
};

const SALT: &str = "c29tZXNhbHRzb21lc2FsdA";

fn htmx() -> HeaderMap {
    let mut h = HeaderMap::new();
    h.insert("hx-request", HeaderValue::from_static("true"));
    h
}

fn json() -> HeaderMap {
    let mut h = HeaderMap::new();
    h.insert("content-type", HeaderValue::from_static("application/json"));
    h
}

fn header<'a>(headers: &'a HeaderMap, name: &str) -> Option<&'a str> {
    headers.get(name).map(|v| v.to_str().unwrap())
}

fn seeded() -> Database {
    let mut db = Database::new();
    let account = seed_user();
    let count = db.execute(seed_lookup(&account), "t0");
    match seed_account(account, count, SALT) {
        Ok(Some(insert)) => assert_eq!(seed_done(db.execute(insert, "t0")), Ok(())),
        other => panic!("seeding decided {:?}", other),
    }
    db
}

fn form(email: &str, password: &str) -> LoginForm {
    LoginForm { email: email.to_string(), password: password.to_string() }
}

const PROTECTED: [Handler; 12] = [
    Handler::ApiListSamples,
    Handler::ApiCreateSample,
    Handler::ApiGetSample,
    Handler::ApiUpdateSample,
    Handler::ApiDeleteSample,
    Handler::IndexPage,
    Handler::SamplesPage,
    Handler::CreatePage,
    Handler::CreateSample,
    Handler::EditPage,
    Handler::UpdateSample,
    Handler::DeleteSample,
];

const OPEN: [Handler; 4] = [Handler::LoginGet, Handler::LoginPost, Handler::Logout, Handler::AuthCheck];

#[test]
fn htmx_is_recognised_by_its_header_value() {
    assert!(is_htmx(&htmx()));
    assert!(!is_htmx(&HeaderMap::new()));
    let mut h = HeaderMap::new();
    h.insert("hx-request", HeaderValue::from_static("false"));
    assert!(!is_htmx(&h));
    let mut h = HeaderMap::new();
    h.insert("hx-request", HeaderValue::from_static("TRUE"));
    assert!(!is_htmx(&h));
    let mut h = HeaderMap::new();
    h.insert("HX-Request", HeaderValue::from_static("true"));
    assert!(is_htmx(&h));
    let mut h = HeaderMap::new();
    h.insert("x-other", HeaderValue::from_static("true"));
    assert!(!is_htmx(&h));
}

#[test]
fn json_is_recognised_by_exact_content_type() {
    assert!(is_json(&json()));
    assert!(!is_json(&HeaderMap::new()));
    let mut h = HeaderMap::new();
    h.insert("content-type", HeaderValue::from_static("application/json; charset=utf-8"));
    assert!(!is_json(&h));
    let mut h = HeaderMap::new();
    h.insert("content-type", HeaderValue::from_static("text/html"));
    assert!(!is_json(&h));
}

#[test]
fn rejection_for_the_interactive_client_is_a_client_side_redirect() {
    let resp = unauthorized_redirect(&htmx());
    assert_eq!(resp.status, 401);
    assert_eq!(header(&resp.headers, "hx-redirect"), Some("/login"));
    assert_eq!(resp.headers.len(), 1);
    assert_eq!(resp.body, Body::Empty);
}

#[test]
fn rejection_for_a_json_caller_is_bare_unauthorized() {
    let resp = unauthorized_redirect(&json());
    assert_eq!(resp.status, 401);
    assert!(resp.headers.is_empty());
    assert_eq!(resp.body, Body::Empty);
}

#[test]
fn rejection_for_a_browser_is_a_redirect_to_login() {
    let resp = unauthorized_redirect(&HeaderMap::new());
    assert_eq!(resp.status, 303);
    assert_eq!(header(&resp.headers, "location"), Some("/login"));
    assert_eq!(resp.headers.len(), 1);
    assert_eq!(resp.body, Body::Empty);
}

#[test]
fn rejection_prefers_the_interactive_shape_over_json() {
    let mut h = htmx();
    h.insert("content-type", HeaderValue::from_static("application/json"));
    let resp = unauthorized_redirect(&h);
    assert_eq!(resp.status, 401);
    assert_eq!(header(&resp.headers, "hx-redirect"), Some("/login"));
}

#[test]
fn anonymous_session_is_rejected_on_every_protected_route() {
    let session = Session::new();
    for handler in PROTECTED {
        assert!(handler.is_protected());
        match authorize(handler, Some(&session), &HeaderMap::new()) {
            Err(resp) => {
                assert_eq!(resp.status, 303);
                assert_eq!(header(&resp.headers, "location"), Some("/login"));
            }
            Ok(user) => panic!("{:?} admitted {:?}", handler, user),
        }
        assert!(authorize(handler, None, &json()).is_err());
    }
}

#[test]
fn open_routes_need_no_session() {
    for handler in OPEN {
        assert!(!handler.is_protected());
        assert_eq!(authorize(handler, None, &HeaderMap::new()).ok(), Some(None));
    }
}

#[test]
fn logged_in_session_passes_until_logout_or_expiry() {
    let mut session = Session::new();
    assert_eq!(AuthedUser::from_request_parts(Some(&session), &HeaderMap::new()).ok(), None);
    session.insert(17);
    for _ in 0..3 {
        for handler in PROTECTED {
            assert_eq!(authorize(handler, Some(&session), &htmx()).ok(), Some(Some(AuthedUser(17))));
        }
    }
    let resp = logout(&mut session, &HeaderMap::new());
    assert_eq!(resp.status, 303);
    assert_eq!(session.get(), None);
    assert!(authorize(Handler::SamplesPage, Some(&session), &HeaderMap::new()).is_err());
    session.insert(18);
    assert_eq!(
        AuthedUser::from_request_parts(Some(&session), &HeaderMap::new()).ok(),
        Some(AuthedUser(18))
    );
    session.expire();
    assert!(AuthedUser::from_request_parts(Some(&session), &HeaderMap::new()).is_err());
}

#[test]
fn session_remove_returns_the_user() {
    let mut session = Session::new();
    assert_eq!(session.remove(), None);
    session.insert(5);
    assert_eq!(session.get(), Some(5));
    assert_eq!(session.remove(), Some(5));
    assert_eq!(session.get(), None);
    assert_eq!(SESSION_USER_ID, "uid");
}

#[test]
fn seeded_user_logs_in_with_default_password() {
    let mut db = seeded();
    let attempt = form("user@example.com", "user123");
    let lookup = login_lookup(&attempt);
    assert_eq!(lookup, StoreRequest::SelectUserByEmail { email: "user@example.com".to_string() });
    let reply = db.execute(lookup, "t1");
    let outcome = login_post(&HeaderMap::new(), &attempt, reply);
    assert_eq!(outcome.login, Some(1));
    assert_eq!(outcome.response.status, 303);
    assert_eq!(header(&outcome.response.headers, "location"), Some("/samples"));
    let mut session = Session::new();
    if let Some(uid) = outcome.login {
        session.insert(uid);
    }
    assert_eq!(
        AuthedUser::from_request_parts(Some(&session), &HeaderMap::new()).ok(),
        Some(AuthedUser(1))
    );
}

#[test]
fn wrong_password_is_refused_without_a_session() {
    let mut db = seeded();
    let attempt = form("user@example.com", "user124");
    let reply = db.execute(login_lookup(&attempt), "t1");
    let outcome = login_post(&HeaderMap::new(), &attempt, reply);
    assert_eq!(outcome.login, None);
    assert_eq!(outcome.response.status, 303);
    assert_eq!(header(&outcome.response.headers, "location"), Some("/login?error=invalid"));
}

#[test]
fn wrong_password_from_the_interactive_client_shows_the_form_again() {
    let mut db = seeded();
    let attempt = form("user@example.com", "");
    let reply = db.execute(login_lookup(&attempt), "t1");
    let outcome = login_post(&htmx(), &attempt, reply);
    assert_eq!(outcome.login, None);
    assert_eq!(outcome.response.status, 401);
    assert!(outcome.response.headers.is_empty());
    assert_eq!(
        outcome.response.body,
        Body::Html(Page::Login(LoginTmpl { ctx: BaseCtx { is_authenticated: false }, error: true }))
    );
}

#[test]
fn unknown_email_is_refused() {
    let mut db = seeded();
    let attempt = form("nobody@example.com", "user123");
    let reply = db.execute(login_lookup(&attempt), "t1");
    assert_eq!(reply, StoreReply::UserRow(None));
    let outcome = login_post(&HeaderMap::new(), &attempt, reply);
    assert_eq!(outcome.login, None);
}

#[test]
fn store_failure_at_login_is_refused() {
    let attempt = form("user@example.com", "user123");
    let outcome = login_post(&HeaderMap::new(), &attempt, StoreReply::Failed("down".to_string()));
    assert_eq!(outcome.login, None);
    assert_eq!(header(&outcome.response.headers, "location"), Some("/login?error=invalid"));
}

#[test]
fn stored_text_that_is_no_hash_accepts_no_password() {
    let user = User {
        id: 3,
        email: "a@example.com".to_string(),
        password_hash: "user123".to_string(),
        created_at: "t".to_string(),
    };
    let outcome = login_post(&HeaderMap::new(), &form("a@example.com", "user123"), StoreReply::UserRow(Some(user)));
    assert_eq!(outcome.login, None);
}

#[test]
fn successful_login_from_the_interactive_client_navigates_to_the_list() {
    let outcome = login_outcome(true, Some(9));
    assert_eq!(outcome.login, Some(9));
    assert_eq!(outcome.response.status, 204);
    assert_eq!(header(&outcome.response.headers, "hx-redirect"), Some("/samples"));
    assert_eq!(header(&outcome.response.headers, "hx-replace-url"), Some("/samples"));
    assert_eq!(outcome.response.headers.len(), 2);
    assert_eq!(outcome.response.body, Body::Empty);
}

#[test]
fn logout_from_the_interactive_client_navigates_to_login() {
    let mut session = Session::new();
    session.insert(4);
    let resp = logout(&mut session, &htmx());
    assert_eq!(session.get(), None);
    assert_eq!(resp.status, 204);
    assert_eq!(header(&resp.headers, "hx-redirect"), Some("/login"));
    assert_eq!(header(&resp.headers, "hx-replace-url"), Some("/login"));
}

#[test]
fn auth_check_reports_the_session_state() {
    let mut session = Session::new();
    assert_eq!(auth_check(&session), 401);
    session.insert(1);
    assert_eq!(auth_check(&session), 204);
}

#[test]
fn login_form_shows_error_when_the_parameter_is_present() {
    let session = Session::new();
    let none: Vec<(String, String)> = vec![];
    assert_eq!(login_get(&none, &session), LoginTmpl { ctx: BaseCtx { is_authenticated: false }, error: false });
    let with = vec![("next".to_string(), "/".to_string()), ("error".to_string(), "invalid".to_string())];
    assert_eq!(login_get(&with, &session), LoginTmpl { ctx: BaseCtx { is_authenticated: false }, error: true });
    let empty_value = vec![("error".to_string(), "".to_string())];
    assert!(login_get(&empty_value, &session).error);
    let other = vec![("errors".to_string(), "1".to_string())];
    assert!(!query_has(&other, "error"));
}

#[test]
fn base_ctx_reflects_the_session() {
    let mut session = Session::new();
    assert_eq!(base_ctx(&session), BaseCtx { is_authenticated: false });
    assert_eq!(BaseCtx::default(), BaseCtx { is_authenticated: false });
    session.insert(2);
    assert_eq!(base_ctx(&session), BaseCtx { is_authenticated: true });
}

#[test]
fn hashed_password_verifies_and_others_do_not() {
    let hash = hash_password("admin123", SALT).expect("hash");
    assert_ne!(hash, "admin123");
    assert!(hash.starts_with("$argon2id$v=19$m=19456,t=2,p=1$c29tZXNhbHRzb21lc2FsdA$"));
    assert!(verify_password(&hash, "admin123"));
    assert!(!verify_password(&hash, "admin124"));
    assert!(!verify_password(&hash, ""));
    assert!(!verify_password("admin123", "admin123"));
    assert!(!verify_password("", "admin123"));
    assert_eq!(hash_password("admin123", SALT), Some(hash));
}

#[test]
fn password_is_not_hashed_with_a_bad_salt() {
    assert_eq!(hash_password("admin123", "not base64!"), None);
    assert_eq!(hash_password("admin123", ""), None);
}
