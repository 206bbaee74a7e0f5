//! The pages that list, create, edit and delete samples.
//!
//! Each handler comes in two halves around the service call it makes: the
//! call itself, and the answer once the service has returned.

use vstd::prelude::*;
use vstd::string::StringExecFns;
use http::HeaderMap;
use crate::decimal::{decimal, decimal_string};
use crate::headers::{
    header_count, header_values, headers_get, headers_insert, headers_len, is_header_text,
    is_header_value, lemma_plain_text, text_bytes, MAX_HEADER_NAMES,
};
use crate::json::{json_object, member_views, object_to_string, JsonField, JsonFieldView};
use crate::middleware::{is_htmx, wants_partial, AuthedUser};
use crate::models::sample::{Sample, SampleInput};
use crate::response::{Response, ResponseView, INTERNAL_SERVER_ERROR, NO_CONTENT};
use crate::router::{line, route, route_views, Handler, Method, Route, RouteView};
use crate::services::sample::{msg_protocol, ServiceCall, ServiceResult, ServiceResultView};
use crate::session::Session;
use crate::templates::{
    base_ctx, BaseCtx, Error403Tmpl, Error404Tmpl, Error500Tmpl, Page, PageView, SampleFormTmpl,
    SamplesListTmpl,
};

verus! {

/// The routes of the sample pages.
pub open spec fn routes() -> Seq<RouteView> {
    seq![
        line(Method::Get, "/"@, Handler::IndexPage),
        line(Method::Get, "/samples"@, Handler::SamplesPage),
        line(Method::Get, "/samples/new"@, Handler::CreatePage),
        line(Method::Post, "/samples"@, Handler::CreateSample),
        line(Method::Get, "/samples/{id}"@, Handler::EditPage),
        line(Method::Post, "/samples/{id}"@, Handler::UpdateSample),
        line(Method::Delete, "/samples/{id}"@, Handler::DeleteSample),
    ]
}

/// The routes of the sample pages.
pub fn router() -> (table: Vec<Route>)
    ensures
        route_views(table@) == routes(),
{
    let mut table: Vec<Route> = Vec::new();
    table.push(route(Method::Get, "/", Handler::IndexPage));
    table.push(route(Method::Get, "/samples", Handler::SamplesPage));
    table.push(route(Method::Get, "/samples/new", Handler::CreatePage));
    table.push(route(Method::Post, "/samples", Handler::CreateSample));
    table.push(route(Method::Get, "/samples/{id}", Handler::EditPage));
    table.push(route(Method::Post, "/samples/{id}", Handler::UpdateSample));
    table.push(route(Method::Delete, "/samples/{id}", Handler::DeleteSample));
    assert(route_views(table@) =~= routes());
    table
}

/// The headers after `name` was given the value `value` unless it had one.
pub open spec fn with_default(headers: Map<Seq<char>, Seq<u8>>, name: Seq<char>, value: Seq<char>) -> Map<
    Seq<char>,
    Seq<u8>,
> {
    if headers.contains_key(name) {
        headers
    } else {
        headers.insert(name, text_bytes(value))
    }
}

/// The headers after caching was forbidden wherever the response did not
/// say otherwise.
pub open spec fn uncached(headers: Map<Seq<char>, Seq<u8>>) -> Map<Seq<char>, Seq<u8>> {
    with_default(
        with_default(headers, "cache-control"@, "no-store, max-age=0, must-revalidate"@),
        "pragma"@,
        "no-cache"@,
    )
}

/// Forbids caching of a response of this front door, given its headers:
/// `cache-control` and `pragma` are set, each unless the response already
/// carries it. Headers without room for two more names are left as they
/// are.
pub fn no_store(headers: &mut HeaderMap)
    ensures
        header_values(*final(headers)) == if header_count(*old(headers)) + 2 <= MAX_HEADER_NAMES {
            uncached(header_values(*old(headers)))
        } else {
            header_values(*old(headers))
        },
        header_count(*final(headers)) <= header_count(*old(headers)) + 2,
{
    proof {
        reveal_strlit("cache-control");
        reveal_strlit("pragma");
        reveal_strlit("no-store, max-age=0, must-revalidate");
        reveal_strlit("no-cache");
        lemma_plain_text("no-store, max-age=0, must-revalidate"@);
        lemma_plain_text("no-cache"@);
    }
    if headers_len(headers) <= MAX_HEADER_NAMES - 2 {
        if headers_get(headers, "cache-control").is_none() {
            headers_insert(headers, "cache-control", "no-store, max-age=0, must-revalidate");
        }
        if headers_get(headers, "pragma").is_none() {
            headers_insert(headers, "pragma", "no-cache");
        }
    }
}

/// The start page sends an authenticated caller to the list of samples.
pub fn index_page(user: AuthedUser) -> (resp: Response)
    ensures
        resp@ == ResponseView::redirect("/samples"@),
{
    proof {
        reveal_strlit("/samples");
        lemma_plain_text("/samples"@);
    }
    Response::redirect("/samples")
}

/// The list page, showing the samples that the service returned.
pub fn samples_page(user: AuthedUser, session: &Session, samples: Vec<Sample>) -> (page: SamplesListTmpl)
    ensures
        page.ctx.is_authenticated == session@.is_some(),
        page.samples@ == samples@,
{
    SamplesListTmpl { ctx: base_ctx(session), samples }
}

/// The empty form, which submits to the list address.
pub fn create_page(user: AuthedUser, session: &Session) -> (page: SampleFormTmpl)
    ensures
        page.ctx.is_authenticated == session@.is_some(),
        page.s is None,
        page.action@ == "/samples"@,
{
    SampleFormTmpl { ctx: base_ctx(session), s: None, action: "/samples".to_owned() }
}

/// The address of the page that edits the sample `id`.
pub open spec fn edit_address(id: int) -> Seq<char> {
    "/samples/"@ + decimal(id)
}

/// What the edit address shows: the form for a sample that the caller
/// created, "forbidden" for someone else's, "not found" where the service
/// found none.
pub open spec fn edit_view(ctx: BaseCtx, uid: i64, id: i64, sample: Option<Sample>) -> PageView {
    match sample {
        Some(s) => if s.created_by != uid {
            PageView::Error403 { ctx }
        } else {
            PageView::SampleForm { ctx, s: Some(s@), action: edit_address(id as int) }
        },
        None => PageView::Error404 { ctx },
    }
}

/// The edit page for the sample `id`, given what the service found under
/// that identifier. Only the user who created a sample gets its form.
pub fn edit_page(session: &Session, user: AuthedUser, id: i64, sample: Option<Sample>) -> (page: Page)
    ensures
        page@ == edit_view(BaseCtx { is_authenticated: session@.is_some() }, user.0, id, sample),
{
    let ctx = base_ctx(session);
    match sample {
        Some(s) => {
            if s.created_by != user.0 {
                Page::Error403(Error403Tmpl { ctx })
            } else {
                let action = "/samples/".to_owned().concat(decimal_string(id).as_str());
                Page::SampleForm(SampleFormTmpl { ctx, s: Some(s), action })
            }
        },
        None => Page::Error404(Error404Tmpl { ctx }),
    }
}

/// The service call behind a submitted creation form.
pub fn create_sample(user: AuthedUser, input: SampleInput) -> (call: ServiceCall)
    ensures
        call@ == crate::api::sample::create_call(user.0 as int, input@),
{
    ServiceCall::Create { input, uid: user.0 }
}

/// The service call behind a submitted edit form.
pub fn update_sample(user: AuthedUser, resource_id: i64, input: SampleInput) -> (call: ServiceCall)
    ensures
        call@ == crate::api::sample::update_call(user.0 as int, resource_id as int, input@),
{
    ServiceCall::Update { input, id: resource_id }
}

/// The service call behind a deletion.
pub fn delete_sample(user: AuthedUser, id: i64) -> (call: ServiceCall)
    ensures
        call@ == crate::api::sample::delete_call(id as int),
{
    ServiceCall::Delete { id }
}

/// The members of the instruction that sends the interactive client back
/// to the list.
pub open spec fn location_members() -> Seq<(Seq<char>, JsonFieldView)> {
    seq![
        ("path"@, JsonFieldView::Text("/samples"@)),
        ("target"@, JsonFieldView::Text("#shell"@)),
        ("select"@, JsonFieldView::Text("#shell"@)),
        ("swap"@, JsonFieldView::Text("outerHTML swap:200ms"@)),
        ("pushUrl"@, JsonFieldView::Flag(true)),
    ]
}

/// The instruction that sends the interactive client back to the list, as
/// JSON text.
pub open spec fn location_payload() -> Seq<char> {
    json_object(location_members())
}

/// Text of the failure shown when the navigation instruction cannot be
/// put into a header.
pub open spec fn msg_bad_location() -> Seq<char> {
    "failed to parse header value"@
}

/// The page that reports a failure on the server.
pub open spec fn failure(ctx: BaseCtx, message: Seq<char>) -> ResponseView {
    ResponseView::html(INTERNAL_SERVER_ERROR as int, PageView::Error500 { ctx, message })
}

/// The answer that carries a navigation instruction for the interactive
/// client.
pub open spec fn relocation(payload: Seq<char>) -> ResponseView {
    ResponseView::empty(NO_CONTENT as int).with_header("hx-location"@, payload)
}

/// The answer to a mutation that succeeded.
pub open spec fn saved(partial: bool, ctx: BaseCtx) -> ResponseView {
    if partial {
        if is_header_value(text_bytes(location_payload())) {
            relocation(location_payload())
        } else {
            failure(ctx, msg_bad_location())
        }
    } else {
        ResponseView::redirect("/samples"@)
    }
}

/// The answer to a create, update or delete, given how the service call
/// ended. Success sends the caller back to the list; failure shows the
/// error page with the text of the error.
pub open spec fn mutation_view(partial: bool, ctx: BaseCtx, result: ServiceResultView) -> ResponseView {
    match result {
        ServiceResultView::Created(_) => saved(partial, ctx),
        ServiceResultView::Updated(_) => saved(partial, ctx),
        ServiceResultView::Deleted => saved(partial, ctx),
        ServiceResultView::Failed(e) => failure(ctx, e.message()),
        _ => failure(ctx, msg_protocol()),
    }
}

/// Builds the page that reports a failure on the server.
fn failure_response(ctx: BaseCtx, message: String) -> (resp: Response)
    ensures
        resp@ == failure(ctx, message@),
{
    Response::html(INTERNAL_SERVER_ERROR, Page::Error500(Error500Tmpl { ctx, message }))
}

/// The answer that carries `payload` as navigation instruction for the
/// interactive client.
pub fn relocate(payload: &str) -> (resp: Response)
    requires
        is_header_value(text_bytes(payload@)),
    ensures
        resp@ == relocation(payload@),
{
    proof {
        reveal_strlit("hx-location");
    }
    Response::empty(NO_CONTENT).with_header("hx-location", payload)
}

/// The answer to a mutation that succeeded: the interactive client is
/// told to load the list into the page shell, anyone else is redirected to
/// it.
pub fn saved_response(htmx: bool, ctx: BaseCtx) -> (resp: Response)
    ensures
        resp@ == saved(htmx, ctx),
{
    if htmx {
        let mut members: Vec<(String, JsonField)> = Vec::new();
        members.push(("path".to_owned(), JsonField::Text("/samples".to_owned())));
        members.push(("target".to_owned(), JsonField::Text("#shell".to_owned())));
        members.push(("select".to_owned(), JsonField::Text("#shell".to_owned())));
        members.push(("swap".to_owned(), JsonField::Text("outerHTML swap:200ms".to_owned())));
        members.push(("pushUrl".to_owned(), JsonField::Flag(true)));
        assert(member_views(members@) =~= location_members());
        let payload = object_to_string(&members);
        if is_header_text(payload.as_str()) {
            relocate(payload.as_str())
        } else {
            failure_response(ctx, "failed to parse header value".to_owned())
        }
    } else {
        proof {
            reveal_strlit("/samples");
            lemma_plain_text("/samples"@);
        }
        Response::redirect("/samples")
    }
}

/// Answers a create, update or delete once the service call has returned.
pub fn mutation_response(headers: &HeaderMap, session: &Session, result: ServiceResult) -> (resp: Response)
    ensures
        resp@ == mutation_view(
            wants_partial(*headers),
            BaseCtx { is_authenticated: session@.is_some() },
            result@,
        ),
{
    let ctx = base_ctx(session);
    match result {
        ServiceResult::Created(_) | ServiceResult::Updated(_) | ServiceResult::Deleted => saved_response(
            is_htmx(headers),
            ctx,
        ),
        ServiceResult::Failed(e) => failure_response(ctx, e.message()),
        _ => failure_response(ctx, "unexpected reply from a collaborator".to_owned()),
    }
}

} // verus!
