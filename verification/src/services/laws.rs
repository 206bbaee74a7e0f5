//! What holds of the service operations on every well-formed store.

use vstd::prelude::*;
use crate::db::model::{lemma_execute_wf, lemma_sample_index, updated_sample, DatabaseView};
use crate::db::StoreRequestView;
use crate::models::kafka::KafkaEventView;
use crate::models::sample::SampleInputView;
use crate::models::state::spec_run;
use crate::services::sample::{
    msg_no_row, spec_advance, spec_start, DeliveryView, ServiceCallView, ServiceErrorView,
    ServiceEventView, ServiceResultView,
};

verus! {

/// An operation asks the store once, publishes at most once, and has
/// returned after two reports at the latest, whatever is reported to it.
/// Only the first step is a statement; a step publishes exactly when the
/// operation then waits for the broker, and returns exactly when it is
/// finished. A finished operation stays finished.
pub proof fn law_operation_ends(call: ServiceCallView, first: ServiceEventView, second: ServiceEventView)
    ensures
        ({
            let s0 = spec_start(call);
            let s1 = spec_advance(s0.0, first);
            let s2 = spec_advance(s1.0, second);
            &&& s0.0 is AwaitingStore
            &&& s0.1 is Query
            &&& !(s1.1 is Query)
            &&& s1.1 is Publish <==> s1.0 is AwaitingBroker
            &&& s1.1 is Return <==> s1.0 is Finished
            &&& s2.0 is Finished
            &&& s2.1 is Return
            &&& spec_advance(s2.0, first).0 is Finished
        }),
{
}

/// A service call leaves a well-formed store well-formed.
pub proof fn law_run_keeps_store_well_formed(
    db: DatabaseView,
    call: ServiceCallView,
    now: Seq<char>,
    delivery: DeliveryView,
)
    requires
        db.wf(),
    ensures
        spec_run(db, call, now, delivery).db.wf(),
{
    match call {
        ServiceCallView::Create { input, uid } => {
            lemma_execute_wf(db, StoreRequestView::InsertSample { input, created_by: uid }, now);
        },
        ServiceCallView::List => {
            lemma_execute_wf(db, StoreRequestView::SelectSamples, now);
        },
        ServiceCallView::Get { id } => {
            lemma_execute_wf(db, StoreRequestView::SelectSample { id }, now);
        },
        ServiceCallView::Update { input, id } => {
            lemma_execute_wf(db, StoreRequestView::UpdateSample { id, input }, now);
        },
        ServiceCallView::Delete { id } => {
            lemma_execute_wf(db, StoreRequestView::DeleteSample { id }, now);
        },
    }
}

/// Creating a sample and then looking it up by the identifier that was
/// returned yields that sample, and it carries the input's name,
/// description and status and the owner it was created for. Creation
/// succeeds whenever the store still has an identifier to assign, whatever
/// the broker answers.
pub proof fn law_create_then_get(
    db: DatabaseView,
    input: SampleInputView,
    uid: int,
    now: Seq<char>,
    delivery: DeliveryView,
    later: Seq<char>,
    later_delivery: DeliveryView,
)
    requires
        db.wf(),
    ensures
        db.next_sample_id < i64::MAX ==> {
            let created = spec_run(db, ServiceCallView::Create { input, uid }, now, delivery);
            &&& created.result matches ServiceResultView::Created(s)
            &&& s.name == input.name
            &&& s.description == input.description
            &&& s.status == input.status
            &&& s.created_by == uid
            &&& s.updated_at is None
            &&& spec_run(created.db, ServiceCallView::Get { id: s.id }, later, later_delivery).result
                == ServiceResultView::Found(Some(s))
        },
        db.next_sample_id >= i64::MAX ==> {
            let created = spec_run(db, ServiceCallView::Create { input, uid }, now, delivery);
            &&& created.result is Failed
            &&& created.db == db
        },
{
    if db.next_sample_id < i64::MAX {
        let created = spec_run(db, ServiceCallView::Create { input, uid }, now, delivery);
        let s = db.new_sample(input, uid, now);
        lemma_execute_wf(db, StoreRequestView::InsertSample { input, created_by: uid }, now);
        assert(created.db.samples[db.samples.len() as int] == s);
        lemma_sample_index(created.db, s.id, db.samples.len() as int);
    }
}

/// Updating a stored sample rewrites name, description and status from the
/// input and stamps the update time; identifier, owner and creation time
/// stay as they were, and so does every other sample. The store keeps the
/// change whether or not the event is delivered; the caller is told of the
/// sample only if it is. Updating a sample that is not stored changes
/// nothing and fails.
pub proof fn law_update_keeps_identity(
    db: DatabaseView,
    input: SampleInputView,
    id: int,
    now: Seq<char>,
    delivery: DeliveryView,
)
    requires
        db.wf(),
    ensures
        db.sample(id) matches Some(before) ==> {
            let updated = spec_run(db, ServiceCallView::Update { input, id }, now, delivery);
            &&& updated.db.sample(id) matches Some(after)
            &&& after.id == before.id
            &&& after.created_by == before.created_by
            &&& after.created_at == before.created_at
            &&& after.updated_at == Some(now)
            &&& after.name == input.name
            &&& after.description == input.description
            &&& after.status == input.status
            &&& delivery is Delivered ==> updated.result == ServiceResultView::Updated(after)
            &&& delivery matches DeliveryView::Failed(m) ==> updated.result == ServiceResultView::Failed(
                ServiceErrorView::Publish(m),
            )
            &&& forall|other: int| other != id ==> updated.db.sample(other) == db.sample(other)
        },
        db.sample(id) is None ==> {
            let updated = spec_run(db, ServiceCallView::Update { input, id }, now, delivery);
            &&& updated.db == db
            &&& updated.result == ServiceResultView::Failed(ServiceErrorView::Storage(msg_no_row()))
        },
{
    if db.has_sample(id) {
        let i = db.sample_index(id);
        let updated = spec_run(db, ServiceCallView::Update { input, id }, now, delivery);
        lemma_execute_wf(db, StoreRequestView::UpdateSample { id, input }, now);
        assert(updated.db.samples[i] == updated_sample(db.samples[i], input, now));
        lemma_sample_index(updated.db, id, i);
        assert forall|other: int| other != id implies updated.db.sample(other) == db.sample(other) by {
            if db.has_sample(other) {
                let j = db.sample_index(other);
                assert(updated.db.samples[j] == db.samples[j]);
                lemma_sample_index(updated.db, other, j);
            } else if updated.db.has_sample(other) {
                let j = updated.db.sample_index(other);
                assert(db.samples[j].id == other);
            }
        }
    }
}

/// After a sample is deleted, looking it up yields nothing and the list of
/// all samples does not hold it, whether or not the event was delivered.
/// Every other sample is still found.
pub proof fn law_delete_then_get(
    db: DatabaseView,
    id: int,
    now: Seq<char>,
    delivery: DeliveryView,
    later: Seq<char>,
    later_delivery: DeliveryView,
)
    requires
        db.wf(),
    ensures
        ({
            let deleted = spec_run(db, ServiceCallView::Delete { id }, now, delivery);
            &&& spec_run(deleted.db, ServiceCallView::Get { id }, later, later_delivery).result
                == ServiceResultView::Found(None)
            &&& spec_run(deleted.db, ServiceCallView::List, later, later_delivery).result
                matches ServiceResultView::Listed(rows)
            &&& forall|k: int| 0 <= k < rows.len() ==> (#[trigger] rows[k]).id != id
            &&& forall|other: int| other != id ==> deleted.db.sample(other) == db.sample(other)
        }),
{
    let deleted = spec_run(db, ServiceCallView::Delete { id }, now, delivery);
    lemma_execute_wf(db, StoreRequestView::DeleteSample { id }, now);
    if db.has_sample(id) {
        let i = db.sample_index(id);
        assert forall|k: int| 0 <= k < deleted.db.samples.len() implies (#[trigger] deleted.db.samples[k]).id
            != id by {
            let k0 = if k < i { k } else { k + 1 };
            assert(deleted.db.samples[k] == db.samples[k0]);
            if k0 < i {
                assert(db.samples[k0].id < db.samples[i].id);
            } else {
                assert(db.samples[i].id < db.samples[k0].id);
            }
        }
        assert forall|other: int| other != id implies deleted.db.sample(other) == db.sample(other) by {
            if db.has_sample(other) {
                let j = db.sample_index(other);
                let j1 = if j < i { j } else { j - 1 };
                assert(deleted.db.samples[j1] == db.samples[j]);
                lemma_sample_index(deleted.db, other, j1);
            } else if deleted.db.has_sample(other) {
                let j = deleted.db.sample_index(other);
                let j0 = if j < i { j } else { j + 1 };
                assert(deleted.db.samples[j] == db.samples[j0]);
                assert(db.samples[j0].id == other);
            }
        }
    }
    assert(!deleted.db.has_sample(id));
    let rows = deleted.db.samples.reverse();
    assert forall|k: int| 0 <= k < rows.len() implies (#[trigger] rows[k]).id != id by {
        assert(rows[k] == deleted.db.samples[rows.len() - 1 - k]);
    }
}

/// Listing returns every stored sample once, in strictly descending order
/// of identifier, and leaves the store as it was.
pub proof fn law_list_descending(db: DatabaseView, now: Seq<char>, delivery: DeliveryView)
    requires
        db.wf(),
    ensures
        ({
            let listed = spec_run(db, ServiceCallView::List, now, delivery);
            &&& listed.db == db
            &&& listed.result matches ServiceResultView::Listed(rows)
            &&& rows.len() == db.samples.len()
            &&& forall|a: int, b: int|
                0 <= a < b < rows.len() ==> (#[trigger] rows[a]).id > (#[trigger] rows[b]).id
            &&& forall|k: int| 0 <= k < rows.len() ==> db.sample((#[trigger] rows[k]).id) == Some(rows[k])
            &&& forall|id: int| db.has_sample(id) ==> exists|k: int| 0 <= k < rows.len() && #[trigger] rows[k] == db.sample(id).unwrap()
        }),
{
    let rows = db.samples.reverse();
    let n = db.samples.len() as int;
    assert forall|a: int, b: int| 0 <= a < b < rows.len() implies (#[trigger] rows[a]).id > (
    #[trigger] rows[b]).id by {
        assert(rows[a] == db.samples[n - 1 - a]);
        assert(rows[b] == db.samples[n - 1 - b]);
    }
    assert forall|k: int| 0 <= k < rows.len() implies db.sample((#[trigger] rows[k]).id) == Some(rows[k]) by {
        assert(rows[k] == db.samples[n - 1 - k]);
        lemma_sample_index(db, rows[k].id, n - 1 - k);
    }
    assert forall|id: int| db.has_sample(id) implies exists|k: int|
        0 <= k < rows.len() && #[trigger] rows[k] == db.sample(id).unwrap() by {
        let i = db.sample_index(id);
        assert(rows[n - 1 - i] == db.samples[i]);
    }
}

/// The sample that a successful mutation is about.
pub open spec fn mutated_id(call: ServiceCallView, result: ServiceResultView) -> int {
    match result {
        ServiceResultView::Created(s) => s.id,
        ServiceResultView::Updated(s) => s.id,
        _ => match call {
            ServiceCallView::Delete { id } => id,
            _ => 0,
        },
    }
}

/// Whether `event` is the announcement that belongs to `result`.
pub open spec fn announces(event: KafkaEventView, result: ServiceResultView) -> bool {
    match result {
        ServiceResultView::Created(s) => event == (KafkaEventView::SampleCreated { sample: s }),
        ServiceResultView::Updated(s) => event == (KafkaEventView::SampleUpdated { sample: s }),
        ServiceResultView::Deleted => event is SampleDeleted,
        _ => false,
    }
}

/// A create, update or delete that returns success has handed exactly one
/// event to the broker: the one of its kind, about the sample that was
/// created, updated or deleted. For an update or a delete, success also
/// means that the broker took the event. Reading publishes nothing, and
/// neither does a mutation that the store refused.
pub proof fn law_one_event_per_mutation(
    db: DatabaseView,
    call: ServiceCallView,
    now: Seq<char>,
    delivery: DeliveryView,
)
    requires
        db.wf(),
    ensures
        ({
            let run = spec_run(db, call, now, delivery);
            &&& (run.result is Created || run.result is Updated || run.result is Deleted) ==> {
                &&& run.published.len() == 1
                &&& announces(run.published[0], run.result)
                &&& run.published[0].resource_id() == mutated_id(call, run.result)
            }
            &&& (run.result is Updated || run.result is Deleted) ==> delivery is Delivered
            &&& (call is List || call is Get) ==> run.published.len() == 0
            &&& (run.result matches ServiceResultView::Failed(e) && !(e is Publish)) ==> run.published.len() == 0
            &&& run.published.len() <= 1
        }),
{
}

} // verus!
