use http::{HeaderMap, HeaderValue};
use sample_app::api;
use sample_app::decimal::{decimal_string, digits_string};
use sample_app::api::sample::{
    api_create_sample, api_create_sample_reply, api_delete_sample, api_delete_sample_reply,
    api_get_sample, api_get_sample_reply, api_list_samples, api_list_samples_reply,
    api_update_sample, api_update_sample_reply,
};
use sample_app::headers::{bytes_equal, header_is, is_header_text};
use sample_app::kafka::EventBus;
use sample_app::middleware::{authorize, AuthedUser};
use sample_app::models::sample::{Sample, SampleInput};
use sample_app::models::state::WebState;
use sample_app::response::{Body, Response};
use sample_app::router::{nest, route, Handler, Method, Route};
use sample_app::services::sample::{Delivery, ServiceCall, ServiceError, ServiceResult};
use sample_app::session::Session;
use sample_app::templates::{
    BaseCtx, Error403Tmpl, Error404Tmpl, Error500Tmpl, Page, SampleFormTmpl, SamplesListTmpl,
};
use sample_app::web;
use sample_app::web::sample::{
    create_page, create_sample, delete_sample, edit_page, index_page, mutation_response, no_store,
    relocate, samples_page, saved_response, update_sample,
};

fn htmx() -> HeaderMap {
    let mut h = HeaderMap::new();
    h.insert("hx-request", HeaderValue::from_static("true"));
    h
}

fn header<'a>(headers: &'a HeaderMap, name: &str) -> Option<&'a str> {
    headers.get(name).map(|v| v.to_str().unwrap())
}

fn input(name: &str, description: Option<&str>, status: &str) -> SampleInput {
    SampleInput {
        name: name.to_string(),
        description: description.map(|d| d.to_string()),
        status: status.to_string(),
    }
}

fn sample(id: i64, owner: i64) -> Sample {
    Sample {
        id,
        name: "n".to_string(),
        description: None,
        status: "open".to_string(),
        created_at: "t".to_string(),
        updated_at: None,
        created_by: owner,
    }
}

fn logged_in() -> Session {
    let mut s = Session::new();
    s.insert(1);
    s
}

fn line(method: Method, path: &str, handler: Handler) -> Route {
    Route { method, path: path.to_string(), handler }
}

#[test]
fn post_sample_as_authenticated_user_returns_the_created_sample() {
    let mut session = Session::new();
    session.insert(21);
    let user = match authorize(Handler::ApiCreateSample, Some(&session), &HeaderMap::new()) {
        Ok(Some(user)) => user,
        other => panic!("not admitted: {:?}", other),
    };
    let mut state = WebState::new(EventBus::new("127.0.0.1:19092", "sample-events"));
    let call = api_create_sample(user, input("x", None, "open"));
    let outcome = state.run(call, "2024-01-01 00:00:00", Delivery::Delivered);
    let created = api_create_sample_reply(outcome.result).expect("created");
    assert_eq!(created.id, 1);
    assert_eq!(created.created_by, 21);
    assert_eq!(created.status, "open");
    assert_eq!(created.name, "x");
    assert_eq!(created.description, None);
}

#[test]
fn api_calls_carry_the_request() {
    let user = AuthedUser(3);
    assert_eq!(api_create_sample(user, input("a", None, "s")), ServiceCall::Create { input: input("a", None, "s"), uid: 3 });
    assert_eq!(api_list_samples(user), ServiceCall::List);
    assert_eq!(api_get_sample(user, 9), ServiceCall::Get { id: 9 });
    assert_eq!(api_update_sample(user, 9, input("b", None, "s")), ServiceCall::Update { input: input("b", None, "s"), id: 9 });
    assert_eq!(api_delete_sample(user, 9), ServiceCall::Delete { id: 9 });
}

#[test]
fn api_replies_map_results_to_status_codes() {
    assert_eq!(api_create_sample_reply(ServiceResult::Created(sample(1, 1))), Ok(sample(1, 1)));
    assert_eq!(
        api_create_sample_reply(ServiceResult::Failed(ServiceError::Storage("x".to_string()))),
        Err(400)
    );
    assert_eq!(api_create_sample_reply(ServiceResult::Updated(sample(1, 1))), Err(400));
    assert_eq!(api_list_samples_reply(ServiceResult::Listed(vec![sample(2, 1), sample(1, 1)])), Ok(vec![sample(2, 1), sample(1, 1)]));
    assert_eq!(api_list_samples_reply(ServiceResult::Failed(ServiceError::Protocol)), Ok(vec![]));
    assert_eq!(api_get_sample_reply(ServiceResult::Found(Some(sample(4, 1)))), Ok(sample(4, 1)));
    assert_eq!(api_get_sample_reply(ServiceResult::Found(None)), Err(404));
    assert_eq!(api_get_sample_reply(ServiceResult::Failed(ServiceError::Protocol)), Err(404));
    assert_eq!(api_update_sample_reply(ServiceResult::Updated(sample(4, 1))), Ok(sample(4, 1)));
    assert_eq!(
        api_update_sample_reply(ServiceResult::Failed(ServiceError::Publish("lost".to_string()))),
        Err(400)
    );
    assert_eq!(api_delete_sample_reply(ServiceResult::Deleted), Ok(()));
    assert_eq!(
        api_delete_sample_reply(ServiceResult::Failed(ServiceError::Publish("lost".to_string()))),
        Err(400)
    );
    assert_eq!(api_delete_sample_reply(ServiceResult::Found(None)), Err(400));
}

#[test]
fn web_calls_carry_the_request() {
    let user = AuthedUser(3);
    assert_eq!(create_sample(user, input("a", None, "s")), ServiceCall::Create { input: input("a", None, "s"), uid: 3 });
    assert_eq!(update_sample(user, 5, input("b", None, "s")), ServiceCall::Update { input: input("b", None, "s"), id: 5 });
    assert_eq!(delete_sample(user, 5), ServiceCall::Delete { id: 5 });
}

#[test]
fn index_redirects_to_the_list() {
    let resp = index_page(AuthedUser(1));
    assert_eq!(resp.status, 303);
    assert_eq!(header(&resp.headers, "location"), Some("/samples"));
    assert_eq!(resp.body, Body::Empty);
}

#[test]
fn list_and_form_pages_carry_their_data() {
    let session = logged_in();
    assert_eq!(
        samples_page(AuthedUser(1), &session, vec![sample(2, 1), sample(1, 1)]),
        SamplesListTmpl { ctx: BaseCtx { is_authenticated: true }, samples: vec![sample(2, 1), sample(1, 1)] }
    );
    assert_eq!(
        create_page(AuthedUser(1), &session),
        SampleFormTmpl { ctx: BaseCtx { is_authenticated: true }, s: None, action: "/samples".to_string() }
    );
}

#[test]
fn edit_page_is_for_the_owner_only() {
    let session = logged_in();
    let ctx = BaseCtx { is_authenticated: true };
    assert_eq!(
        edit_page(&session, AuthedUser(1), 42, Some(sample(42, 1))),
        Page::SampleForm(SampleFormTmpl { ctx, s: Some(sample(42, 1)), action: "/samples/42".to_string() })
    );
    assert_eq!(edit_page(&session, AuthedUser(2), 42, Some(sample(42, 1))), Page::Error403(Error403Tmpl { ctx }));
    assert_eq!(edit_page(&session, AuthedUser(1), 42, None), Page::Error404(Error404Tmpl { ctx }));
}

#[test]
fn edit_address_is_the_decimal_identifier() {
    let session = logged_in();
    for (id, expected) in [
        (0, "/samples/0"),
        (7, "/samples/7"),
        (10, "/samples/10"),
        (-3, "/samples/-3"),
        (1234567890, "/samples/1234567890"),
        (i64::MAX, "/samples/9223372036854775807"),
        (i64::MIN, "/samples/-9223372036854775808"),
    ] {
        match edit_page(&session, AuthedUser(1), id, Some(sample(id, 1))) {
            Page::SampleForm(form) => assert_eq!(form.action, expected),
            other => panic!("edit page is {:?}", other),
        }
    }
}

#[test]
fn successful_mutation_redirects_a_browser_to_the_list() {
    let session = logged_in();
    for result in [ServiceResult::Created(sample(1, 1)), ServiceResult::Updated(sample(1, 1)), ServiceResult::Deleted] {
        let resp = mutation_response(&HeaderMap::new(), &session, result);
        assert_eq!(resp.status, 303);
        assert_eq!(header(&resp.headers, "location"), Some("/samples"));
    }
}

#[test]
fn successful_mutation_tells_the_interactive_client_where_to_go() {
    let session = logged_in();
    let resp = mutation_response(&htmx(), &session, ServiceResult::Deleted);
    assert_eq!(resp.status, 204);
    assert_eq!(resp.body, Body::Empty);
    assert_eq!(resp.headers.len(), 1);
    let payload = header(&resp.headers, "hx-location").expect("hx-location");
    let mut expected = serde_json::Map::new();
    expected.insert("path".to_string(), serde_json::Value::String("/samples".to_string()));
    expected.insert("target".to_string(), serde_json::Value::String("#shell".to_string()));
    expected.insert("select".to_string(), serde_json::Value::String("#shell".to_string()));
    expected.insert("swap".to_string(), serde_json::Value::String("outerHTML swap:200ms".to_string()));
    expected.insert("pushUrl".to_string(), serde_json::Value::Bool(true));
    let parsed: serde_json::Value = serde_json::from_str(payload).expect("json");
    assert_eq!(parsed, serde_json::Value::Object(expected));
    assert!(payload.contains("\"path\":\"/samples\""));
    assert!(payload.contains("\"pushUrl\":true"));
    assert!(payload.starts_with('{'));
    assert!(payload.ends_with('}'));
}

#[test]
fn failed_mutation_shows_the_error_page_with_the_message() {
    let session = logged_in();
    let resp = mutation_response(
        &htmx(),
        &session,
        ServiceResult::Failed(ServiceError::Publish("delivery failed".to_string())),
    );
    assert_eq!(resp.status, 500);
    assert!(resp.headers.is_empty());
    assert_eq!(
        resp.body,
        Body::Html(Page::Error500(Error500Tmpl {
            ctx: BaseCtx { is_authenticated: true },
            message: "delivery failed".to_string(),
        }))
    );
    let resp = mutation_response(&HeaderMap::new(), &Session::new(), ServiceResult::Found(None));
    assert_eq!(resp.status, 500);
    assert_eq!(
        resp.body,
        Body::Html(Page::Error500(Error500Tmpl {
            ctx: BaseCtx { is_authenticated: false },
            message: "unexpected reply from a collaborator".to_string(),
        }))
    );
}

#[test]
fn saved_response_has_both_shapes() {
    let ctx = BaseCtx { is_authenticated: true };
    assert_eq!(saved_response(false, ctx).status, 303);
    assert_eq!(saved_response(true, ctx).status, 204);
}

#[test]
fn relocate_carries_the_payload() {
    assert!(is_header_text("{\"a\":1}"));
    let resp = relocate("{\"a\":1}");
    assert_eq!(resp.status, 204);
    assert_eq!(header(&resp.headers, "hx-location"), Some("{\"a\":1}"));
}

#[test]
fn header_text_excludes_control_characters() {
    assert!(is_header_text(""));
    assert!(is_header_text("plain text ~"));
    assert!(is_header_text("tab\there"));
    assert!(is_header_text("caf\u{e9}"));
    assert!(!is_header_text("line\nbreak"));
    assert!(!is_header_text("nul\0"));
    assert!(!is_header_text("del\u{7f}"));
    assert!(!is_header_text("\u{1f}"));
}

#[test]
fn bytes_are_compared_in_full() {
    assert!(bytes_equal(b"", b""));
    assert!(bytes_equal(b"true", b"true"));
    assert!(!bytes_equal(b"true", b"tru"));
    assert!(!bytes_equal(b"true", b"truE"));
    assert!(!bytes_equal(b"", b"x"));
}

#[test]
fn header_is_compares_the_first_value() {
    let mut h = HeaderMap::new();
    h.append("accept", HeaderValue::from_static("a"));
    h.append("accept", HeaderValue::from_static("b"));
    assert!(header_is(&h, "accept", "a"));
    assert!(!header_is(&h, "accept", "b"));
    assert!(!header_is(&h, "accept-language", "a"));
}

#[test]
fn no_store_adds_both_headers_when_absent() {
    let mut headers = HeaderMap::new();
    no_store(&mut headers);
    assert_eq!(header(&headers, "cache-control"), Some("no-store, max-age=0, must-revalidate"));
    assert_eq!(header(&headers, "pragma"), Some("no-cache"));
    assert_eq!(headers.len(), 2);
}

#[test]
fn no_store_keeps_what_the_response_says() {
    let mut resp = Response::empty(200).with_header("cache-control", "max-age=60");
    no_store(&mut resp.headers);
    assert_eq!(header(&resp.headers, "cache-control"), Some("max-age=60"));
    assert_eq!(header(&resp.headers, "pragma"), Some("no-cache"));
    let mut resp = Response::redirect("/samples").with_header("pragma", "x");
    no_store(&mut resp.headers);
    assert_eq!(resp.status, 303);
    assert_eq!(header(&resp.headers, "pragma"), Some("x"));
    assert_eq!(header(&resp.headers, "location"), Some("/samples"));
    assert_eq!(header(&resp.headers, "cache-control"), Some("no-store, max-age=0, must-revalidate"));
}

#[test]
fn no_store_gives_up_on_a_crowded_header_map() {
    let mut headers = HeaderMap::new();
    for i in 0..4095 {
        let name = http::HeaderName::from_bytes(format!("x-{}", i).as_bytes()).unwrap();
        headers.insert(name, HeaderValue::from_static("v"));
    }
    no_store(&mut headers);
    assert_eq!(headers.keys_len(), 4095);
    assert_eq!(header(&headers, "pragma"), None);
    let mut headers = HeaderMap::new();
    for i in 0..4094 {
        let name = http::HeaderName::from_bytes(format!("x-{}", i).as_bytes()).unwrap();
        headers.insert(name, HeaderValue::from_static("v"));
    }
    no_store(&mut headers);
    assert_eq!(headers.keys_len(), 4096);
    assert_eq!(header(&headers, "pragma"), Some("no-cache"));
}

#[test]
fn with_header_replaces_an_earlier_value() {
    let resp = Response::empty(200).with_header("x-a", "1").with_header("x-a", "2");
    assert_eq!(header(&resp.headers, "x-a"), Some("2"));
    assert_eq!(resp.headers.len(), 1);
}

#[test]
fn api_route_table_lists_the_five_endpoints() {
    assert_eq!(
        api::router(),
        vec![
            line(Method::Get, "/samples", Handler::ApiListSamples),
            line(Method::Post, "/samples", Handler::ApiCreateSample),
            line(Method::Get, "/samples/{id}", Handler::ApiGetSample),
            line(Method::Patch, "/samples/{id}", Handler::ApiUpdateSample),
            line(Method::Delete, "/samples/{id}", Handler::ApiDeleteSample),
        ]
    );
    assert_eq!(api::router(), api::sample::router());
}

#[test]
fn web_route_table_lists_auth_then_pages() {
    let mut expected = web::auth::router();
    expected.extend(web::sample::router());
    assert_eq!(web::router(), expected);
    assert_eq!(
        web::auth::router(),
        vec![
            line(Method::Get, "/login", Handler::LoginGet),
            line(Method::Post, "/login", Handler::LoginPost),
            line(Method::Post, "/logout", Handler::Logout),
            line(Method::Get, "/auth/check", Handler::AuthCheck),
        ]
    );
    assert_eq!(
        web::sample::router(),
        vec![
            line(Method::Get, "/", Handler::IndexPage),
            line(Method::Get, "/samples", Handler::SamplesPage),
            line(Method::Get, "/samples/new", Handler::CreatePage),
            line(Method::Post, "/samples", Handler::CreateSample),
            line(Method::Get, "/samples/{id}", Handler::EditPage),
            line(Method::Post, "/samples/{id}", Handler::UpdateSample),
            line(Method::Delete, "/samples/{id}", Handler::DeleteSample),
        ]
    );
}

#[test]
fn nesting_prefixes_every_path() {
    let nested = nest("/api", api::router());
    let paths: Vec<&str> = nested.iter().map(|r| r.path.as_str()).collect();
    assert_eq!(
        paths,
        vec!["/api/samples", "/api/samples", "/api/samples/{id}", "/api/samples/{id}", "/api/samples/{id}"]
    );
    assert_eq!(nested[3].method, Method::Patch);
    assert_eq!(nested[3].handler, Handler::ApiUpdateSample);
    assert_eq!(nest("/x", vec![]), vec![]);
    assert_eq!(route(Method::Get, "/", Handler::IndexPage), line(Method::Get, "/", Handler::IndexPage));
}

#[test]
fn decimal_text_of_integers() {
    assert_eq!(decimal_string(0), "0");
    assert_eq!(decimal_string(9), "9");
    assert_eq!(decimal_string(10), "10");
    assert_eq!(decimal_string(-1), "-1");
    assert_eq!(decimal_string(-10), "-10");
    assert_eq!(decimal_string(1005), "1005");
    assert_eq!(decimal_string(i64::MAX), i64::MAX.to_string());
    assert_eq!(decimal_string(i64::MIN), i64::MIN.to_string());
    assert_eq!(digits_string(0), "0");
    assert_eq!(digits_string(1234567890), "1234567890");
    assert_eq!(digits_string(u64::MAX), "18446744073709551615");
    for n in [-99i64, -11, 7, 19, 20, 101, 999, 1000, 65536] {
        assert_eq!(decimal_string(n), n.to_string());
    }
}
