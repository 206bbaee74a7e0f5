//! What holds across the entry points: of the authentication gate on every
//! route, and of commands against the HTTP interface.

use vstd::prelude::*;
use http::HeaderMap;
use crate::db::model::DatabaseView;
use crate::db::StoreReplyView;
use crate::kafka::command_call;
use crate::middleware::{admission, rejection};
use crate::models::kafka::KafkaCommandView;
use crate::models::state::spec_run;
use crate::response::ResponseView;
use crate::router::{Handler, RouteView};
use crate::services::sample::{DeliveryView, ServiceCallView};
use crate::web::auth::verified_user;

verus! {

/// The session after a login attempt that authenticated `login`.
pub open spec fn after_login(session: Option<i64>, login: Option<i64>) -> Option<i64> {
    match login {
        Some(uid) => Some(uid),
        None => session,
    }
}

/// A session that is not logged in is turned away at every protected
/// handler, with the rejection that fits the request. A login whose
/// password verifies logs the session in, and from then on every
/// protected handler admits it as that user, on every request, without
/// another login. A login that fails leaves the session as it was. Logout
/// and expiry both leave a session that is turned away again.
pub proof fn law_admission(
    handler: Handler,
    headers: HeaderMap,
    session: Option<i64>,
    reply: StoreReplyView,
    password: Seq<char>,
)
    requires
        handler.protected(),
    ensures
        admission(handler, None, headers) == Err::<Option<i64>, ResponseView>(rejection(headers)),
        verified_user(reply, password) matches Some(uid) ==> admission(
            handler,
            after_login(session, verified_user(reply, password)),
            headers,
        ) == Ok::<Option<i64>, ResponseView>(Some(uid)),
        verified_user(reply, password) is None ==> after_login(session, verified_user(reply, password))
            == session,
        admission(handler, session, headers) is Ok <==> session is Some,
{
}

/// Every route of the JSON interface and every route of the sample pages
/// sits behind the authentication check; the four routes of login, logout
/// and session check are open.
pub proof fn law_route_protection(route: RouteView)
    ensures
        crate::api::sample::routes().contains(route) ==> route.handler.protected(),
        crate::web::sample::routes().contains(route) ==> route.handler.protected(),
        crate::web::auth::routes().contains(route) ==> !route.handler.protected(),
{
    let api = crate::api::sample::routes();
    let pages = crate::web::sample::routes();
    let auth = crate::web::auth::routes();
    if api.contains(route) {
        let i = choose|i: int| 0 <= i < api.len() && api[i] == route;
        assert(api[i].handler.protected());
    }
    if pages.contains(route) {
        let i = choose|i: int| 0 <= i < pages.len() && pages[i] == route;
        assert(pages[i].handler.protected());
    }
    if auth.contains(route) {
        let i = choose|i: int| 0 <= i < auth.len() && auth[i] == route;
        assert(!auth[i].handler.protected());
    }
}

/// The call that the HTTP interface makes for the request that
/// corresponds to a command: the same input, the identifier from the
/// path, and the command's user as the caller.
pub open spec fn http_call(cmd: KafkaCommandView) -> ServiceCallView {
    match cmd {
        KafkaCommandView::CreateSample { input, user_id } => crate::api::sample::create_call(user_id, input),
        KafkaCommandView::UpdateSample { id, input, user_id } => crate::api::sample::update_call(
            user_id,
            id,
            input,
        ),
        KafkaCommandView::DeleteSample { id } => crate::api::sample::delete_call(id),
    }
}

/// A command read from the inbound topic goes through the service exactly
/// as the HTTP request with the same payload does: it issues the same
/// statement, leaves the same store, returns the same result and publishes
/// the same event.
pub proof fn law_command_matches_http(
    cmd: KafkaCommandView,
    db: DatabaseView,
    now: Seq<char>,
    delivery: DeliveryView,
)
    ensures
        command_call(cmd) == http_call(cmd),
        spec_run(db, command_call(cmd), now, delivery) == spec_run(db, http_call(cmd), now, delivery),
{
}

} // verus!
