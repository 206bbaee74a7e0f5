//! The application context, and a complete run of one service call
//! against it.

use vstd::prelude::*;
use crate::db::memory::Database;
use crate::db::model::DatabaseView;
use crate::kafka::{EventBus, EventBusView, Publication, PublicationView};
use crate::models::kafka::KafkaEventView;
use crate::services::sample::{
    advance, spec_advance, spec_start, start, Delivery, DeliveryView, ServiceAction, ServiceActionView,
    ServiceCall, ServiceCallView, ServiceError, ServiceErrorView, ServiceEvent, ServiceEventView,
    ServiceResult, ServiceResultView,
};

verus! {

/// What one service call leaves behind: the store, the answer to the
/// caller, and the events handed to the broker.
pub ghost struct RunView {
    pub db: DatabaseView,
    pub result: ServiceResultView,
    pub published: Seq<KafkaEventView>,
}

/// Runs `call` to its end on a store in state `db`: the statement is
/// executed at time `now`, and if an event is published the broker answers
/// with `delivery`.
pub open spec fn spec_run(db: DatabaseView, call: ServiceCallView, now: Seq<char>, delivery: DeliveryView) -> RunView {
    let first = spec_start(call);
    match first.1 {
        ServiceActionView::Query(req) => {
            let stored = db.execute(req, now);
            let second = spec_advance(first.0, ServiceEventView::Stored(stored.1));
            match second.1 {
                ServiceActionView::Publish(event) => {
                    let third = spec_advance(second.0, ServiceEventView::Published(delivery));
                    match third.1 {
                        ServiceActionView::Return(result) => RunView {
                            db: stored.0,
                            result,
                            published: seq![event],
                        },
                        _ => RunView {
                            db: stored.0,
                            result: ServiceResultView::Failed(ServiceErrorView::Protocol),
                            published: seq![event],
                        },
                    }
                },
                ServiceActionView::Return(result) => RunView { db: stored.0, result, published: Seq::empty() },
                ServiceActionView::Query(_) => RunView {
                    db: stored.0,
                    result: ServiceResultView::Failed(ServiceErrorView::Protocol),
                    published: Seq::empty(),
                },
            }
        },
        _ => RunView {
            db,
            result: ServiceResultView::Failed(ServiceErrorView::Protocol),
            published: Seq::empty(),
        },
    }
}

/// Mathematical value of a list of publications.
pub open spec fn publication_views(v: Seq<Publication>) -> Seq<PublicationView> {
    Seq::new(v.len(), |i: int| v[i]@)
}

/// The records with which `bus` announces `events`.
pub open spec fn publications_of(bus: EventBusView, events: Seq<KafkaEventView>) -> Seq<PublicationView> {
    Seq::new(events.len(), |i: int| bus.publication(events[i]))
}

/// The application context: the store and the publisher that every entry
/// point works with.
#[derive(Debug)]
pub struct WebState {
    pub db: Database,
    pub events: EventBus,
}

/// Answer of a service call together with the records it produced.
#[derive(Debug, PartialEq, Eq)]
pub struct Outcome {
    pub result: ServiceResult,
    pub published: Vec<Publication>,
}

impl WebState {
    /// The invariant of the context: that of its store.
    pub open spec fn wf(&self) -> bool {
        self.db.wf()
    }

    /// A context with an empty store.
    pub fn new(events: EventBus) -> (state: WebState)
        ensures
            state.wf(),
            state.db@ == DatabaseView::empty(),
            state.events@ == events@,
    {
        WebState { db: Database::new(), events }
    }

    /// Carries out one service call from its first step to its last, with
    /// this context's store as the store. `now` is the time that the store
    /// stamps on what it writes; `delivery` is what the broker answers if
    /// the call publishes an event.
    pub fn run(&mut self, call: ServiceCall, now: &str, delivery: Delivery) -> (outcome: Outcome)
        requires
            old(self).wf(),
        ensures
            final(self).wf(),
            final(self).events@ == old(self).events@,
            final(self).db@ == spec_run(old(self).db@, call@, now@, delivery@).db,
            outcome.result@ == spec_run(old(self).db@, call@, now@, delivery@).result,
            outcome.published@.len() == spec_run(old(self).db@, call@, now@, delivery@).published.len(),
            publication_views(outcome.published@) == publications_of(
                old(self).events@,
                spec_run(old(self).db@, call@, now@, delivery@).published,
            ),
    {
        let mut published: Vec<Publication> = Vec::new();
        let (state, action) = start(call);
        let result = match action {
            ServiceAction::Query(req) => {
                let reply = self.db.execute(req, now);
                let (state, action) = advance(state, ServiceEvent::Stored(reply));
                match action {
                    ServiceAction::Publish(event) => {
                        published.push(self.events.send(event));
                        let (_, action) = advance(state, ServiceEvent::Published(delivery));
                        match action {
                            ServiceAction::Return(result) => result,
                            _ => ServiceResult::Failed(ServiceError::Protocol),
                        }
                    },
                    ServiceAction::Return(result) => result,
                    ServiceAction::Query(_) => ServiceResult::Failed(ServiceError::Protocol),
                }
            },
            _ => ServiceResult::Failed(ServiceError::Protocol),
        };
        assert(publication_views(published@) =~= publications_of(
            old(self).events@,
            spec_run(old(self).db@, call@, now@, delivery@).published,
        ));
        Outcome { result, published }
    }
}

} // verus!
