//! Messages exchanged with the broker: events announce a change that the
//! store has committed, commands ask for one.

use vstd::prelude::*;
use crate::models::sample::{Sample, SampleInput, SampleInputView, SampleView};

verus! {

/// Announcement of a committed change.
#[derive(Debug, PartialEq, Eq)]
pub enum KafkaEvent {
    SampleCreated { sample: Sample },
    SampleUpdated { sample: Sample },
    SampleDeleted { id: i64 },
}

/// Mathematical value of a [`KafkaEvent`].
pub ghost enum KafkaEventView {
    SampleCreated { sample: SampleView },
    SampleUpdated { sample: SampleView },
    SampleDeleted { id: int },
}

impl KafkaEventView {
    /// Identifier of the sample that the event is about.
    pub open spec fn resource_id(self) -> int {
        match self {
            KafkaEventView::SampleCreated { sample } => sample.id,
            KafkaEventView::SampleUpdated { sample } => sample.id,
            KafkaEventView::SampleDeleted { id } => id,
        }
    }
}

impl View for KafkaEvent {
    type V = KafkaEventView;

    open spec fn view(&self) -> KafkaEventView {
        match self {
            KafkaEvent::SampleCreated { sample } => KafkaEventView::SampleCreated { sample: sample@ },
            KafkaEvent::SampleUpdated { sample } => KafkaEventView::SampleUpdated { sample: sample@ },
            KafkaEvent::SampleDeleted { id } => KafkaEventView::SampleDeleted { id: *id as int },
        }
    }
}

impl Clone for KafkaEvent {
    fn clone(&self) -> (r: Self)
        ensures
            r@ == self@,
    {
        match self {
            KafkaEvent::SampleCreated { sample } => KafkaEvent::SampleCreated { sample: sample.clone() },
            KafkaEvent::SampleUpdated { sample } => KafkaEvent::SampleUpdated { sample: sample.clone() },
            KafkaEvent::SampleDeleted { id } => KafkaEvent::SampleDeleted { id: *id },
        }
    }
}

impl KafkaEvent {
    /// Identifier of the sample that the event is about.
    pub fn resource_id(&self) -> (id: i64)
        ensures
            id as int == self@.resource_id(),
    {
        match self {
            KafkaEvent::SampleCreated { sample } => sample.id,
            KafkaEvent::SampleUpdated { sample } => sample.id,
            KafkaEvent::SampleDeleted { id } => *id,
        }
    }
}

/// Request for a change, submitted through the broker.
#[derive(Debug, PartialEq, Eq)]
pub enum KafkaCommand {
    CreateSample { input: SampleInput, user_id: i64 },
    UpdateSample { id: i64, input: SampleInput, user_id: i64 },
    DeleteSample { id: i64 },
}

/// Mathematical value of a [`KafkaCommand`].
pub ghost enum KafkaCommandView {
    CreateSample { input: SampleInputView, user_id: int },
    UpdateSample { id: int, input: SampleInputView, user_id: int },
    DeleteSample { id: int },
}

impl View for KafkaCommand {
    type V = KafkaCommandView;

    open spec fn view(&self) -> KafkaCommandView {
        match self {
            KafkaCommand::CreateSample { input, user_id } => KafkaCommandView::CreateSample {
                input: input@,
                user_id: *user_id as int,
            },
            KafkaCommand::UpdateSample { id, input, user_id } => KafkaCommandView::UpdateSample {
                id: *id as int,
                input: input@,
                user_id: *user_id as int,
            },
            KafkaCommand::DeleteSample { id } => KafkaCommandView::DeleteSample { id: *id as int },
        }
    }
}

impl Clone for KafkaCommand {
    fn clone(&self) -> (r: Self)
        ensures
            r@ == self@,
    {
        match self {
            KafkaCommand::CreateSample { input, user_id } => KafkaCommand::CreateSample {
                input: input.clone(),
                user_id: *user_id,
            },
            KafkaCommand::UpdateSample { id, input, user_id } => KafkaCommand::UpdateSample {
                id: *id,
                input: input.clone(),
                user_id: *user_id,
            },
            KafkaCommand::DeleteSample { id } => KafkaCommand::DeleteSample { id: *id },
        }
    }
}

} // verus!
