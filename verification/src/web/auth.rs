//! Login, logout and the session check.

use vstd::prelude::*;
use http::HeaderMap;
use crate::db::{StoreReply, StoreReplyView, StoreRequest, StoreRequestView};
use crate::headers::{is_header_value, lemma_plain_text, text_bytes};
use crate::middleware::{is_htmx, wants_partial};
use crate::password::{argon2_verifies, verify_password};
use crate::response::{Response, ResponseView, NO_CONTENT, UNAUTHORIZED};
use crate::router::{line, route, route_views, Handler, Method, Route, RouteView};
use crate::session::Session;
use crate::templates::{base_ctx, BaseCtx, LoginTmpl, Page, PageView};

verus! {

/// What the login form submits.
#[derive(Debug, PartialEq, Eq)]
pub struct LoginForm {
    pub email: String,
    pub password: String,
}

/// Whether a query string holds the parameter `name`.
pub open spec fn has_param(query: Seq<(String, String)>, name: Seq<char>) -> bool {
    exists|i: int| 0 <= i < query.len() && (#[trigger] query[i]).0@ == name
}

/// Whether a query string holds the parameter `name`.
pub fn query_has(query: &Vec<(String, String)>, name: &str) -> (found: bool)
    ensures
        found == has_param(query@, name@),
{
    let wanted = name.to_owned();
    let mut i: usize = 0;
    while i < query.len()
        invariant
            i <= query.len(),
            wanted@ == name@,
            forall|k: int| 0 <= k < i ==> (#[trigger] query[k]).0@ != name@,
        decreases query.len() - i,
    {
        if query[i].0 == wanted {
            return true;
        }
        i += 1;
    }
    false
}

/// The login form. It shows the notice of a failed attempt if and only if
/// the query string holds the parameter `error`, whatever its value.
pub fn login_get(query: &Vec<(String, String)>, session: &Session) -> (page: LoginTmpl)
    ensures
        page.ctx.is_authenticated == session@.is_some(),
        page.error == has_param(query@, "error"@),
{
    LoginTmpl { ctx: base_ctx(session), error: query_has(query, "error") }
}

/// The statement that looks up the user of a login attempt.
pub fn login_lookup(form: &LoginForm) -> (req: StoreRequest)
    ensures
        req@ == (StoreRequestView::SelectUserByEmail { email: form.email@ }),
{
    StoreRequest::SelectUserByEmail { email: form.email.clone() }
}

/// What a login attempt leads to: whom the session is logged in as, if
/// anyone, and the answer to the caller.
#[derive(Debug)]
pub struct LoginOutcome {
    pub login: Option<i64>,
    pub response: Response,
}

/// The answer that tells the interactive client to navigate to `to` and
/// to show that address.
pub open spec fn navigate(to: Seq<char>) -> ResponseView {
    ResponseView::empty(NO_CONTENT as int).with_header("hx-redirect"@, to).with_header("hx-replace-url"@, to)
}

/// The answer to a login attempt. `verified` is the user whose password
/// matched, if the attempt named a user and the password was right.
pub open spec fn login_response(partial: bool, verified: Option<i64>) -> ResponseView {
    if verified is Some {
        if partial {
            navigate("/samples"@)
        } else {
            ResponseView::redirect("/samples"@)
        }
    } else {
        if partial {
            ResponseView::html(
                UNAUTHORIZED as int,
                PageView::Login { ctx: BaseCtx { is_authenticated: false }, error: true },
            )
        } else {
            ResponseView::redirect("/login?error=invalid"@)
        }
    }
}

/// The user that a login attempt authenticates: the one that the store
/// returned, provided the submitted password verifies against its hash. A
/// store that returned no user, or anything else, authenticates nobody.
pub open spec fn verified_user(reply: StoreReplyView, password: Seq<char>) -> Option<i64> {
    match reply {
        StoreReplyView::UserRow(Some(user)) => if argon2_verifies(user.password_hash, text_bytes(password)) {
            Some(user.id as i64)
        } else {
            None
        },
        _ => None,
    }
}

/// Builds the answer that tells the interactive client to navigate to `to`.
fn navigate_to(to: &str) -> (resp: Response)
    requires
        is_header_value(text_bytes(to@)),
    ensures
        resp@ == navigate(to@),
{
    proof {
        reveal_strlit("hx-redirect");
        reveal_strlit("hx-replace-url");
    }
    Response::empty(NO_CONTENT).with_header("hx-redirect", to).with_header("hx-replace-url", to)
}

/// Decides a login attempt once it is known whether the password matched.
/// A successful attempt logs the session in and sends the caller to the
/// list of samples; a failed one leaves the session alone and sends the
/// caller back to the login form, marked as failed.
pub fn login_outcome(htmx: bool, verified: Option<i64>) -> (outcome: LoginOutcome)
    ensures
        outcome.login == verified,
        outcome.response@ == login_response(htmx, verified),
{
    proof {
        reveal_strlit("/samples");
        reveal_strlit("/login?error=invalid");
        lemma_plain_text("/samples"@);
        lemma_plain_text("/login?error=invalid"@);
    }
    let response = match verified {
        Some(_) => {
            if htmx {
                navigate_to("/samples")
            } else {
                Response::redirect("/samples")
            }
        },
        None => {
            if htmx {
                let page = LoginTmpl { error: true, ctx: BaseCtx { is_authenticated: false } };
                Response::html(UNAUTHORIZED, Page::Login(page))
            } else {
                Response::redirect("/login?error=invalid")
            }
        },
    };
    LoginOutcome { login: verified, response }
}

/// Handles a submitted login form, given what the store answered to
/// [`login_lookup`]. The attempt succeeds if and only if the store
/// returned a user and the submitted password verifies against that
/// user's hash.
pub fn login_post(headers: &HeaderMap, form: &LoginForm, user: StoreReply) -> (outcome: LoginOutcome)
    ensures
        outcome.login == verified_user(user@, form.password@),
        outcome.response@ == login_response(wants_partial(*headers), verified_user(user@, form.password@)),
{
    let verified = match user {
        StoreReply::UserRow(Some(u)) => {
            if verify_password(u.password_hash.as_str(), form.password.as_str()) {
                Some(u.id)
            } else {
                None
            }
        },
        _ => None,
    };
    login_outcome(is_htmx(headers), verified)
}

/// The answer to a logout.
pub open spec fn logout_response(partial: bool) -> ResponseView {
    if partial {
        navigate("/login"@)
    } else {
        ResponseView::redirect("/login"@)
    }
}

/// Logs the session out and sends the caller to the login form.
pub fn logout(session: &mut Session, headers: &HeaderMap) -> (resp: Response)
    ensures
        final(session)@ is None,
        resp@ == logout_response(wants_partial(*headers)),
{
    proof {
        reveal_strlit("/login");
        lemma_plain_text("/login"@);
    }
    let _ = session.remove();
    if is_htmx(headers) {
        navigate_to("/login")
    } else {
        Response::redirect("/login")
    }
}

/// Whether the session is logged in: "no content" if it is,
/// "unauthorized" if it is not.
pub fn auth_check(session: &Session) -> (status: u16)
    ensures
        status == if session@ is Some {
            NO_CONTENT
        } else {
            UNAUTHORIZED
        },
{
    match session.get() {
        Some(_) => NO_CONTENT,
        None => UNAUTHORIZED,
    }
}

/// The routes of login and session.
pub open spec fn routes() -> Seq<RouteView> {
    seq![
        line(Method::Get, "/login"@, Handler::LoginGet),
        line(Method::Post, "/login"@, Handler::LoginPost),
        line(Method::Post, "/logout"@, Handler::Logout),
        line(Method::Get, "/auth/check"@, Handler::AuthCheck),
    ]
}

/// The routes of login and session.
pub fn router() -> (table: Vec<Route>)
    ensures
        route_views(table@) == routes(),
{
    let mut table: Vec<Route> = Vec::new();
    table.push(route(Method::Get, "/login", Handler::LoginGet));
    table.push(route(Method::Post, "/login", Handler::LoginPost));
    table.push(route(Method::Post, "/logout", Handler::Logout));
    table.push(route(Method::Get, "/auth/check", Handler::AuthCheck));
    assert(route_views(table@) =~= routes());
    table
}

} // verus!
