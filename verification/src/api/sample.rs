//! The JSON interface to samples.
//!
//! Each handler comes in two halves around the service call it makes: the
//! call itself, and the answer once the service has returned. Every
//! handler takes the authenticated user, so none is reached without one.

use vstd::prelude::*;
use crate::db::sample_views;
use crate::middleware::AuthedUser;
use crate::models::sample::{Sample, SampleInput, SampleInputView, SampleView};
use crate::response::{BAD_REQUEST, NOT_FOUND};
use crate::router::{line, route, route_views, Handler, Method, Route, RouteView};
use crate::services::sample::{ServiceCall, ServiceCallView, ServiceResult, ServiceResultView};

verus! {

/// The routes of the JSON interface.
pub open spec fn routes() -> Seq<RouteView> {
    seq![
        line(Method::Get, "/samples"@, Handler::ApiListSamples),
        line(Method::Post, "/samples"@, Handler::ApiCreateSample),
        line(Method::Get, "/samples/{id}"@, Handler::ApiGetSample),
        line(Method::Patch, "/samples/{id}"@, Handler::ApiUpdateSample),
        line(Method::Delete, "/samples/{id}"@, Handler::ApiDeleteSample),
    ]
}

/// The routes of the JSON interface.
pub fn router() -> (table: Vec<Route>)
    ensures
        route_views(table@) == routes(),
{
    let mut table: Vec<Route> = Vec::new();
    table.push(route(Method::Get, "/samples", Handler::ApiListSamples));
    table.push(route(Method::Post, "/samples", Handler::ApiCreateSample));
    table.push(route(Method::Get, "/samples/{id}", Handler::ApiGetSample));
    table.push(route(Method::Patch, "/samples/{id}", Handler::ApiUpdateSample));
    table.push(route(Method::Delete, "/samples/{id}", Handler::ApiDeleteSample));
    assert(route_views(table@) =~= routes());
    table
}

/// Mathematical value of the answer to a request for one sample.
pub open spec fn sample_reply(r: Result<Sample, u16>) -> Result<SampleView, u16> {
    match r {
        Ok(s) => Ok(s@),
        Err(status) => Err(status),
    }
}

/// Mathematical value of the answer to a request for all samples.
pub open spec fn samples_reply(r: Result<Vec<Sample>, u16>) -> Result<Seq<SampleView>, u16> {
    match r {
        Ok(v) => Ok(sample_views(v@)),
        Err(status) => Err(status),
    }
}

/// The call that creates a sample owned by the caller `uid`.
pub open spec fn create_call(uid: int, input: SampleInputView) -> ServiceCallView {
    ServiceCallView::Create { input, uid }
}

/// The call that updates the sample `id`, whoever the caller is.
pub open spec fn update_call(uid: int, id: int, input: SampleInputView) -> ServiceCallView {
    ServiceCallView::Update { input, id }
}

/// The call that deletes the sample `id`.
pub open spec fn delete_call(id: int) -> ServiceCallView {
    ServiceCallView::Delete { id }
}

/// The service call behind `POST /samples`: create a sample owned by the
/// caller.
pub fn api_create_sample(user: AuthedUser, input: SampleInput) -> (call: ServiceCall)
    ensures
        call@ == create_call(user.0 as int, input@),
{
    ServiceCall::Create { input, uid: user.0 }
}

/// The answer to `POST /samples`: the sample, or "bad request" if the
/// service did not create one.
pub fn api_create_sample_reply(result: ServiceResult) -> (r: Result<Sample, u16>)
    ensures
        sample_reply(r) == match result@ {
            ServiceResultView::Created(s) => Ok::<SampleView, u16>(s),
            _ => Err::<SampleView, u16>(BAD_REQUEST),
        },
{
    match result {
        ServiceResult::Created(s) => Ok(s),
        _ => Err(BAD_REQUEST),
    }
}

/// The service call behind `GET /samples`.
pub fn api_list_samples(user: AuthedUser) -> (call: ServiceCall)
    ensures
        call@ == ServiceCallView::List,
{
    ServiceCall::List
}

/// The answer to `GET /samples`: the samples that the service returned.
/// There is no failure; anything but a list reads as no samples.
pub fn api_list_samples_reply(result: ServiceResult) -> (r: Result<Vec<Sample>, u16>)
    ensures
        samples_reply(r) == match result@ {
            ServiceResultView::Listed(rows) => Ok::<Seq<SampleView>, u16>(rows),
            _ => Ok::<Seq<SampleView>, u16>(Seq::empty()),
        },
{
    match result {
        ServiceResult::Listed(rows) => Ok(rows),
        _ => {
            let none: Vec<Sample> = Vec::new();
            assert(sample_views(none@) =~= Seq::empty());
            Ok(none)
        },
    }
}

/// The service call behind `GET /samples/{id}`.
pub fn api_get_sample(user: AuthedUser, sample_id: i64) -> (call: ServiceCall)
    ensures
        call@ == (ServiceCallView::Get { id: sample_id as int }),
{
    ServiceCall::Get { id: sample_id }
}

/// The answer to `GET /samples/{id}`: the sample, or "not found".
pub fn api_get_sample_reply(result: ServiceResult) -> (r: Result<Sample, u16>)
    ensures
        sample_reply(r) == match result@ {
            ServiceResultView::Found(Some(s)) => Ok::<SampleView, u16>(s),
            _ => Err::<SampleView, u16>(NOT_FOUND),
        },
{
    match result {
        ServiceResult::Found(Some(s)) => Ok(s),
        _ => Err(NOT_FOUND),
    }
}

/// The service call behind `PATCH /samples/{id}`. Any authenticated caller
/// may update any sample.
pub fn api_update_sample(user: AuthedUser, sample_id: i64, input: SampleInput) -> (call: ServiceCall)
    ensures
        call@ == update_call(user.0 as int, sample_id as int, input@),
{
    ServiceCall::Update { input, id: sample_id }
}

/// The answer to `PATCH /samples/{id}`: the updated sample, or "bad
/// request" if the service did not return one.
pub fn api_update_sample_reply(result: ServiceResult) -> (r: Result<Sample, u16>)
    ensures
        sample_reply(r) == match result@ {
            ServiceResultView::Updated(s) => Ok::<SampleView, u16>(s),
            _ => Err::<SampleView, u16>(BAD_REQUEST),
        },
{
    match result {
        ServiceResult::Updated(s) => Ok(s),
        _ => Err(BAD_REQUEST),
    }
}

/// The service call behind `DELETE /samples/{id}`. Any authenticated
/// caller may delete any sample.
pub fn api_delete_sample(user: AuthedUser, sample_id: i64) -> (call: ServiceCall)
    ensures
        call@ == delete_call(sample_id as int),
{
    ServiceCall::Delete { id: sample_id }
}

/// The answer to `DELETE /samples/{id}`: nothing, or "bad request" if the
/// service did not report the deletion.
pub fn api_delete_sample_reply(result: ServiceResult) -> (r: Result<(), u16>)
    ensures
        r == match result@ {
            ServiceResultView::Deleted => Ok::<(), u16>(()),
            _ => Err::<(), u16>(BAD_REQUEST),
        },
{
    match result {
        ServiceResult::Deleted => Ok(()),
        _ => Err(BAD_REQUEST),
    }
}

} // verus!
