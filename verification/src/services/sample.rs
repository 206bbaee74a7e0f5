//! The CRUD operations on samples, as a protocol between the service and
//! its two collaborators.
//!
//! An operation never talks to the store or the broker itself. It names the
//! next thing to do as a [`ServiceAction`]; whoever embeds the service
//! performs it and reports what came back as a [`ServiceEvent`]. Every
//! entry point, whether an HTTP handler or the command consumer, goes
//! through the same steps and therefore through the same rules:
//!
//! * a mutation is announced once, after the store has committed it;
//! * a lost announcement is ignored for a create and reported for an
//!   update or a delete, although the store keeps the change either way;
//! * reading never fails: a store that cannot answer reads as "nothing".

use vstd::prelude::*;
use crate::db::{sample_views, StoreReply, StoreReplyView, StoreRequest, StoreRequestView};
use crate::models::kafka::{KafkaEvent, KafkaEventView};
use crate::models::sample::{Sample, SampleInput, SampleInputView, SampleView};

verus! {

/// Why an operation did not complete.
#[derive(Debug, PartialEq, Eq)]
pub enum ServiceError {
    /// The store rejected the statement or returned no row.
    Storage(String),
    /// The store committed the change but the event was not delivered.
    Publish(String),
    /// A collaborator answered with something the operation did not ask for.
    Protocol,
}

/// Mathematical value of a [`ServiceError`].
pub ghost enum ServiceErrorView {
    Storage(Seq<char>),
    Publish(Seq<char>),
    Protocol,
}

impl View for ServiceError {
    type V = ServiceErrorView;

    open spec fn view(&self) -> ServiceErrorView {
        match self {
            ServiceError::Storage(m) => ServiceErrorView::Storage(m@),
            ServiceError::Publish(m) => ServiceErrorView::Publish(m@),
            ServiceError::Protocol => ServiceErrorView::Protocol,
        }
    }
}

/// Text shown for a collaborator that answered out of turn.
pub open spec fn msg_protocol() -> Seq<char> {
    "unexpected reply from a collaborator"@
}

/// Text reported when a statement that must return a row returned none.
pub open spec fn msg_no_row() -> Seq<char> {
    "no rows returned by a query that expected to return at least one row"@
}

impl ServiceErrorView {
    /// The text of the error.
    pub open spec fn message(self) -> Seq<char> {
        match self {
            ServiceErrorView::Storage(m) => m,
            ServiceErrorView::Publish(m) => m,
            ServiceErrorView::Protocol => msg_protocol(),
        }
    }
}

impl ServiceError {
    /// The text of the error, as shown to a caller.
    pub fn message(&self) -> (m: String)
        ensures
            m@ == self@.message(),
    {
        match self {
            ServiceError::Storage(m) => m.clone(),
            ServiceError::Publish(m) => m.clone(),
            ServiceError::Protocol => "unexpected reply from a collaborator".to_owned(),
        }
    }
}

/// What the broker reported for one event.
#[derive(Debug, PartialEq, Eq)]
pub enum Delivery {
    Delivered,
    Failed(String),
}

/// Mathematical value of a [`Delivery`].
pub ghost enum DeliveryView {
    Delivered,
    Failed(Seq<char>),
}

impl View for Delivery {
    type V = DeliveryView;

    open spec fn view(&self) -> DeliveryView {
        match self {
            Delivery::Delivered => DeliveryView::Delivered,
            Delivery::Failed(m) => DeliveryView::Failed(m@),
        }
    }
}

/// One operation of the service with its arguments.
#[derive(Debug, PartialEq, Eq)]
pub enum ServiceCall {
    Create { input: SampleInput, uid: i64 },
    List,
    Get { id: i64 },
    Update { input: SampleInput, id: i64 },
    Delete { id: i64 },
}

/// Mathematical value of a [`ServiceCall`].
pub ghost enum ServiceCallView {
    Create { input: SampleInputView, uid: int },
    List,
    Get { id: int },
    Update { input: SampleInputView, id: int },
    Delete { id: int },
}

impl View for ServiceCall {
    type V = ServiceCallView;

    open spec fn view(&self) -> ServiceCallView {
        match self {
            ServiceCall::Create { input, uid } => ServiceCallView::Create { input: input@, uid: *uid as int },
            ServiceCall::List => ServiceCallView::List,
            ServiceCall::Get { id } => ServiceCallView::Get { id: *id as int },
            ServiceCall::Update { input, id } => ServiceCallView::Update { input: input@, id: *id as int },
            ServiceCall::Delete { id } => ServiceCallView::Delete { id: *id as int },
        }
    }
}

/// Mathematical value of an optional sample.
pub open spec fn opt_sample(s: Option<Sample>) -> Option<SampleView> {
    match s {
        Some(sample) => Some(sample@),
        None => None,
    }
}

/// How an operation ended.
#[derive(Debug, PartialEq, Eq)]
pub enum ServiceResult {
    Created(Sample),
    Listed(Vec<Sample>),
    Found(Option<Sample>),
    Updated(Sample),
    Deleted,
    Failed(ServiceError),
}

/// Mathematical value of a [`ServiceResult`].
pub ghost enum ServiceResultView {
    Created(SampleView),
    Listed(Seq<SampleView>),
    Found(Option<SampleView>),
    Updated(SampleView),
    Deleted,
    Failed(ServiceErrorView),
}

impl View for ServiceResult {
    type V = ServiceResultView;

    open spec fn view(&self) -> ServiceResultView {
        match self {
            ServiceResult::Created(s) => ServiceResultView::Created(s@),
            ServiceResult::Listed(v) => ServiceResultView::Listed(sample_views(v@)),
            ServiceResult::Found(s) => ServiceResultView::Found(opt_sample(*s)),
            ServiceResult::Updated(s) => ServiceResultView::Updated(s@),
            ServiceResult::Deleted => ServiceResultView::Deleted,
            ServiceResult::Failed(e) => ServiceResultView::Failed(e@),
        }
    }
}

/// Which operation is waiting for the store.
#[derive(Debug, PartialEq, Eq)]
pub enum Operation {
    Create,
    List,
    Get,
    Update,
    Delete { id: i64 },
}

/// Mathematical value of an [`Operation`].
pub ghost enum OperationView {
    Create,
    List,
    Get,
    Update,
    Delete { id: int },
}

impl View for Operation {
    type V = OperationView;

    open spec fn view(&self) -> OperationView {
        match self {
            Operation::Create => OperationView::Create,
            Operation::List => OperationView::List,
            Operation::Get => OperationView::Get,
            Operation::Update => OperationView::Update,
            Operation::Delete { id } => OperationView::Delete { id: *id as int },
        }
    }
}

/// Where an operation stands.
#[derive(Debug, PartialEq, Eq)]
pub enum ServiceState {
    /// The statement is with the store.
    AwaitingStore(Operation),
    /// The store has committed and the event is with the broker. `done` is
    /// what the operation returns once the event is delivered; `strict`
    /// says whether a lost event fails the operation.
    AwaitingBroker { done: ServiceResult, strict: bool },
    /// The operation has returned.
    Finished,
}

/// Mathematical value of a [`ServiceState`].
pub ghost enum ServiceStateView {
    AwaitingStore(OperationView),
    AwaitingBroker { done: ServiceResultView, strict: bool },
    Finished,
}

impl View for ServiceState {
    type V = ServiceStateView;

    open spec fn view(&self) -> ServiceStateView {
        match self {
            ServiceState::AwaitingStore(op) => ServiceStateView::AwaitingStore(op@),
            ServiceState::AwaitingBroker { done, strict } => ServiceStateView::AwaitingBroker {
                done: done@,
                strict: *strict,
            },
            ServiceState::Finished => ServiceStateView::Finished,
        }
    }
}

/// What the embedding program has to do next.
#[derive(Debug, PartialEq, Eq)]
pub enum ServiceAction {
    /// Run the statement and report the reply.
    Query(StoreRequest),
    /// Publish the event and report the delivery.
    Publish(KafkaEvent),
    /// Hand the result to the caller; the operation is over.
    Return(ServiceResult),
}

/// Mathematical value of a [`ServiceAction`].
pub ghost enum ServiceActionView {
    Query(StoreRequestView),
    Publish(KafkaEventView),
    Return(ServiceResultView),
}

impl View for ServiceAction {
    type V = ServiceActionView;

    open spec fn view(&self) -> ServiceActionView {
        match self {
            ServiceAction::Query(r) => ServiceActionView::Query(r@),
            ServiceAction::Publish(e) => ServiceActionView::Publish(e@),
            ServiceAction::Return(r) => ServiceActionView::Return(r@),
        }
    }
}

/// What a collaborator reported.
#[derive(Debug, PartialEq, Eq)]
pub enum ServiceEvent {
    Stored(StoreReply),
    Published(Delivery),
}

/// Mathematical value of a [`ServiceEvent`].
pub ghost enum ServiceEventView {
    Stored(StoreReplyView),
    Published(DeliveryView),
}

impl View for ServiceEvent {
    type V = ServiceEventView;

    open spec fn view(&self) -> ServiceEventView {
        match self {
            ServiceEvent::Stored(r) => ServiceEventView::Stored(r@),
            ServiceEvent::Published(d) => ServiceEventView::Published(d@),
        }
    }
}

/// The error that a store's reply stands for when it is not the expected one.
pub open spec fn store_failure(reply: StoreReplyView) -> ServiceErrorView {
    match reply {
        StoreReplyView::Failed(m) => ServiceErrorView::Storage(m),
        StoreReplyView::NoRow => ServiceErrorView::Storage(msg_no_row()),
        _ => ServiceErrorView::Protocol,
    }
}

/// First step of a call: the statement to run and the state that waits for
/// its reply.
pub open spec fn spec_start(call: ServiceCallView) -> (ServiceStateView, ServiceActionView) {
    match call {
        ServiceCallView::Create { input, uid } => (
            ServiceStateView::AwaitingStore(OperationView::Create),
            ServiceActionView::Query(StoreRequestView::InsertSample { input, created_by: uid }),
        ),
        ServiceCallView::List => (
            ServiceStateView::AwaitingStore(OperationView::List),
            ServiceActionView::Query(StoreRequestView::SelectSamples),
        ),
        ServiceCallView::Get { id } => (
            ServiceStateView::AwaitingStore(OperationView::Get),
            ServiceActionView::Query(StoreRequestView::SelectSample { id }),
        ),
        ServiceCallView::Update { input, id } => (
            ServiceStateView::AwaitingStore(OperationView::Update),
            ServiceActionView::Query(StoreRequestView::UpdateSample { id, input }),
        ),
        ServiceCallView::Delete { id } => (
            ServiceStateView::AwaitingStore(OperationView::Delete { id }),
            ServiceActionView::Query(StoreRequestView::DeleteSample { id }),
        ),
    }
}

/// The step that ends an operation with `result`.
pub open spec fn finish(result: ServiceResultView) -> (ServiceStateView, ServiceActionView) {
    (ServiceStateView::Finished, ServiceActionView::Return(result))
}

/// The step that announces a committed change: publish `event`, then
/// return `done`.
pub open spec fn announce(done: ServiceResultView, strict: bool, event: KafkaEventView) -> (
    ServiceStateView,
    ServiceActionView,
) {
    (ServiceStateView::AwaitingBroker { done, strict }, ServiceActionView::Publish(event))
}

/// What an operation does with the store's reply.
pub open spec fn on_stored(op: OperationView, reply: StoreReplyView) -> (ServiceStateView, ServiceActionView) {
    match op {
        OperationView::Create => match reply {
            StoreReplyView::Row(s) => announce(
                ServiceResultView::Created(s),
                false,
                KafkaEventView::SampleCreated { sample: s },
            ),
            _ => finish(ServiceResultView::Failed(store_failure(reply))),
        },
        OperationView::List => match reply {
            StoreReplyView::Rows(rows) => finish(ServiceResultView::Listed(rows)),
            _ => finish(ServiceResultView::Listed(Seq::empty())),
        },
        OperationView::Get => match reply {
            StoreReplyView::Row(s) => finish(ServiceResultView::Found(Some(s))),
            _ => finish(ServiceResultView::Found(None)),
        },
        OperationView::Update => match reply {
            StoreReplyView::Row(s) => announce(
                ServiceResultView::Updated(s),
                true,
                KafkaEventView::SampleUpdated { sample: s },
            ),
            _ => finish(ServiceResultView::Failed(store_failure(reply))),
        },
        OperationView::Delete { id } => match reply {
            StoreReplyView::Done => announce(
                ServiceResultView::Deleted,
                true,
                KafkaEventView::SampleDeleted { id },
            ),
            _ => finish(ServiceResultView::Failed(store_failure(reply))),
        },
    }
}

/// What an operation returns once the broker has answered.
pub open spec fn on_published(done: ServiceResultView, strict: bool, delivery: DeliveryView) -> ServiceResultView {
    match delivery {
        DeliveryView::Delivered => done,
        DeliveryView::Failed(m) => if strict {
            ServiceResultView::Failed(ServiceErrorView::Publish(m))
        } else {
            done
        },
    }
}

/// Next step of an operation in `state` to which `event` is reported. An
/// event that the state does not wait for ends the operation with
/// [`ServiceError::Protocol`].
pub open spec fn spec_advance(state: ServiceStateView, event: ServiceEventView) -> (
    ServiceStateView,
    ServiceActionView,
) {
    match (state, event) {
        (ServiceStateView::AwaitingStore(op), ServiceEventView::Stored(reply)) => on_stored(op, reply),
        (ServiceStateView::AwaitingBroker { done, strict }, ServiceEventView::Published(delivery)) => finish(
            on_published(done, strict, delivery),
        ),
        _ => finish(ServiceResultView::Failed(ServiceErrorView::Protocol)),
    }
}

/// Turns a reply that is not the expected one into the error it stands for.
fn store_error(reply: StoreReply) -> (e: ServiceError)
    ensures
        e@ == store_failure(reply@),
{
    match reply {
        StoreReply::Failed(m) => ServiceError::Storage(m),
        StoreReply::NoRow => ServiceError::Storage(
            "no rows returned by a query that expected to return at least one row".to_owned(),
        ),
        _ => ServiceError::Protocol,
    }
}

/// Begins an operation.
pub fn start(call: ServiceCall) -> (step: (ServiceState, ServiceAction))
    ensures
        step.0@ == spec_start(call@).0,
        step.1@ == spec_start(call@).1,
{
    match call {
        ServiceCall::Create { input, uid } => (
            ServiceState::AwaitingStore(Operation::Create),
            ServiceAction::Query(StoreRequest::InsertSample { input, created_by: uid }),
        ),
        ServiceCall::List => (
            ServiceState::AwaitingStore(Operation::List),
            ServiceAction::Query(StoreRequest::SelectSamples),
        ),
        ServiceCall::Get { id } => (
            ServiceState::AwaitingStore(Operation::Get),
            ServiceAction::Query(StoreRequest::SelectSample { id }),
        ),
        ServiceCall::Update { input, id } => (
            ServiceState::AwaitingStore(Operation::Update),
            ServiceAction::Query(StoreRequest::UpdateSample { id, input }),
        ),
        ServiceCall::Delete { id } => (
            ServiceState::AwaitingStore(Operation::Delete { id }),
            ServiceAction::Query(StoreRequest::DeleteSample { id }),
        ),
    }
}

/// Continues an operation with what a collaborator reported.
pub fn advance(state: ServiceState, event: ServiceEvent) -> (step: (ServiceState, ServiceAction))
    ensures
        step.0@ == spec_advance(state@, event@).0,
        step.1@ == spec_advance(state@, event@).1,
{
    match (state, event) {
        (ServiceState::AwaitingStore(op), ServiceEvent::Stored(reply)) => match op {
            Operation::Create => match reply {
                StoreReply::Row(s) => {
                    let event = KafkaEvent::SampleCreated { sample: s.clone() };
                    (
                        ServiceState::AwaitingBroker { done: ServiceResult::Created(s), strict: false },
                        ServiceAction::Publish(event),
                    )
                },
                other => (
                    ServiceState::Finished,
                    ServiceAction::Return(ServiceResult::Failed(store_error(other))),
                ),
            },
            Operation::List => match reply {
                StoreReply::Rows(rows) => (
                    ServiceState::Finished,
                    ServiceAction::Return(ServiceResult::Listed(rows)),
                ),
                _ => {
                    let none: Vec<Sample> = Vec::new();
                    assert(sample_views(none@) =~= Seq::empty());
                    (ServiceState::Finished, ServiceAction::Return(ServiceResult::Listed(none)))
                },
            },
            Operation::Get => match reply {
                StoreReply::Row(s) => (
                    ServiceState::Finished,
                    ServiceAction::Return(ServiceResult::Found(Some(s))),
                ),
                _ => (ServiceState::Finished, ServiceAction::Return(ServiceResult::Found(None))),
            },
            Operation::Update => match reply {
                StoreReply::Row(s) => {
                    let event = KafkaEvent::SampleUpdated { sample: s.clone() };
                    (
                        ServiceState::AwaitingBroker { done: ServiceResult::Updated(s), strict: true },
                        ServiceAction::Publish(event),
                    )
                },
                other => (
                    ServiceState::Finished,
                    ServiceAction::Return(ServiceResult::Failed(store_error(other))),
                ),
            },
            Operation::Delete { id } => match reply {
                StoreReply::Done => (
                    ServiceState::AwaitingBroker { done: ServiceResult::Deleted, strict: true },
                    ServiceAction::Publish(KafkaEvent::SampleDeleted { id }),
                ),
                other => (
                    ServiceState::Finished,
                    ServiceAction::Return(ServiceResult::Failed(store_error(other))),
                ),
            },
        },
        (ServiceState::AwaitingBroker { done, strict }, ServiceEvent::Published(delivery)) => {
            let result = match delivery {
                Delivery::Delivered => done,
                Delivery::Failed(m) => if strict {
                    ServiceResult::Failed(ServiceError::Publish(m))
                } else {
                    done
                },
            };
            (ServiceState::Finished, ServiceAction::Return(result))
        },
        _ => (ServiceState::Finished, ServiceAction::Return(ServiceResult::Failed(ServiceError::Protocol))),
    }
}

/// Begins creating a sample owned by `uid`: the row is inserted, then
/// `SampleCreated` is published. The sample is returned even if the event
/// is lost.
pub fn create_sample(input: SampleInput, uid: i64) -> (step: (ServiceState, ServiceAction))
    ensures
        step.0@ == ServiceStateView::AwaitingStore(OperationView::Create),
        step.1@ == ServiceActionView::Query(StoreRequestView::InsertSample { input: input@, created_by: uid as int }),
        step.0@ == spec_start(ServiceCallView::Create { input: input@, uid: uid as int }).0,
        step.1@ == spec_start(ServiceCallView::Create { input: input@, uid: uid as int }).1,
{
    start(ServiceCall::Create { input, uid })
}

/// Begins listing all samples, highest identifier first. A store that
/// cannot answer yields the empty list.
pub fn get_samples() -> (step: (ServiceState, ServiceAction))
    ensures
        step.0@ == ServiceStateView::AwaitingStore(OperationView::List),
        step.1@ == ServiceActionView::Query(StoreRequestView::SelectSamples),
        step.0@ == spec_start(ServiceCallView::List).0,
        step.1@ == spec_start(ServiceCallView::List).1,
{
    start(ServiceCall::List)
}

/// Begins looking up one sample. A missing row and a store that cannot
/// answer both yield nothing.
pub fn get_sample_by_id(sample_id: &i64) -> (step: (ServiceState, ServiceAction))
    ensures
        step.0@ == ServiceStateView::AwaitingStore(OperationView::Get),
        step.1@ == ServiceActionView::Query(StoreRequestView::SelectSample { id: *sample_id as int }),
        step.0@ == spec_start(ServiceCallView::Get { id: *sample_id as int }).0,
        step.1@ == spec_start(ServiceCallView::Get { id: *sample_id as int }).1,
{
    start(ServiceCall::Get { id: *sample_id })
}

/// Begins updating name, description and status of the sample `id`: the
/// row is rewritten, then `SampleUpdated` is published. A lost event fails
/// the operation.
pub fn update_sample_by_id(input: SampleInput, id: i64) -> (step: (ServiceState, ServiceAction))
    ensures
        step.0@ == ServiceStateView::AwaitingStore(OperationView::Update),
        step.1@ == ServiceActionView::Query(StoreRequestView::UpdateSample { id: id as int, input: input@ }),
        step.0@ == spec_start(ServiceCallView::Update { input: input@, id: id as int }).0,
        step.1@ == spec_start(ServiceCallView::Update { input: input@, id: id as int }).1,
{
    start(ServiceCall::Update { input, id })
}

/// Begins deleting the sample `id`: the row is removed, then
/// `SampleDeleted` is published. A lost event fails the operation; the row
/// stays deleted.
pub fn delete_sample_by_id(id: i64) -> (step: (ServiceState, ServiceAction))
    ensures
        step.0@ == ServiceStateView::AwaitingStore(OperationView::Delete { id: id as int }),
        step.1@ == ServiceActionView::Query(StoreRequestView::DeleteSample { id: id as int }),
        step.0@ == spec_start(ServiceCallView::Delete { id: id as int }).0,
        step.1@ == spec_start(ServiceCallView::Delete { id: id as int }).1,
{
    start(ServiceCall::Delete { id })
}

} // verus!
