//! Mathematical state of the two tables and the meaning of each statement.

use vstd::prelude::*;
use crate::db::{StoreReplyView, StoreRequestView, UserView};
use crate::models::sample::{SampleInputView, SampleView};

verus! {

/// State of the store: both tables in ascending order of identifier, and
/// the identifier that each table hands out next.
pub ghost struct DatabaseView {
    pub samples: Seq<SampleView>,
    pub next_sample_id: int,
    pub users: Seq<UserView>,
    pub next_user_id: int,
}

/// Text of the failure reported when a table has handed out its last identifier.
pub open spec fn msg_ids_exhausted() -> Seq<char> {
    "database or disk is full"@
}

/// Text of the failure reported when an email is registered twice.
pub open spec fn msg_email_taken() -> Seq<char> {
    "UNIQUE constraint failed: users.email"@
}

impl DatabaseView {
    /// The store before anything was written.
    pub open spec fn empty() -> DatabaseView {
        DatabaseView { samples: Seq::empty(), next_sample_id: 1, users: Seq::empty(), next_user_id: 1 }
    }

    /// Identifiers are positive, below the next one to hand out, and strictly
    /// ascending within each table; no email is registered twice.
    pub open spec fn wf(self) -> bool {
        &&& 1 <= self.next_sample_id <= i64::MAX
        &&& 1 <= self.next_user_id <= i64::MAX
        &&& forall|i: int|
            0 <= i < self.samples.len() ==> 1 <= (#[trigger] self.samples[i]).id < self.next_sample_id
        &&& forall|i: int, j: int|
            0 <= i < j < self.samples.len() ==> (#[trigger] self.samples[i]).id < (
            #[trigger] self.samples[j]).id
        &&& forall|i: int|
            0 <= i < self.users.len() ==> 1 <= (#[trigger] self.users[i]).id < self.next_user_id
        &&& forall|i: int, j: int|
            0 <= i < j < self.users.len() ==> (#[trigger] self.users[i]).email != (
            #[trigger] self.users[j]).email
    }

    /// Whether a sample with this identifier is stored.
    pub open spec fn has_sample(self, id: int) -> bool {
        exists|i: int| 0 <= i < self.samples.len() && (#[trigger] self.samples[i]).id == id
    }

    /// Position of the sample with this identifier, where one is stored.
    pub open spec fn sample_index(self, id: int) -> int {
        choose|i: int| 0 <= i < self.samples.len() && (#[trigger] self.samples[i]).id == id
    }

    /// The sample with this identifier.
    pub open spec fn sample(self, id: int) -> Option<SampleView> {
        if self.has_sample(id) {
            Some(self.samples[self.sample_index(id)])
        } else {
            None
        }
    }

    /// Whether a user is registered under this email.
    pub open spec fn has_user(self, email: Seq<char>) -> bool {
        exists|i: int| 0 <= i < self.users.len() && (#[trigger] self.users[i]).email == email
    }

    /// Position of the user registered under this email, where there is one.
    pub open spec fn user_index(self, email: Seq<char>) -> int {
        choose|i: int| 0 <= i < self.users.len() && (#[trigger] self.users[i]).email == email
    }

    /// The user registered under this email.
    pub open spec fn user(self, email: Seq<char>) -> Option<UserView> {
        if self.has_user(email) {
            Some(self.users[self.user_index(email)])
        } else {
            None
        }
    }

    /// All samples, highest identifier first.
    pub open spec fn samples_desc(self) -> Seq<SampleView> {
        self.samples.reverse()
    }

    /// The row that an insert creates.
    pub open spec fn new_sample(self, input: SampleInputView, created_by: int, now: Seq<char>) -> SampleView {
        SampleView {
            id: self.next_sample_id,
            name: input.name,
            description: input.description,
            status: input.status,
            created_at: now,
            updated_at: None,
            created_by,
        }
    }

    /// The user that a registration creates.
    pub open spec fn new_user(self, email: Seq<char>, password_hash: Seq<char>, now: Seq<char>) -> UserView {
        UserView { id: self.next_user_id, email, password_hash, created_at: now }
    }

    /// What a statement, run at time `now`, leaves in the store and answers.
    pub open spec fn execute(self, req: StoreRequestView, now: Seq<char>) -> (DatabaseView, StoreReplyView) {
        match req {
            StoreRequestView::InsertSample { input, created_by } => {
                if self.next_sample_id < i64::MAX {
                    let row = self.new_sample(input, created_by, now);
                    (
                        DatabaseView {
                            samples: self.samples.push(row),
                            next_sample_id: self.next_sample_id + 1,
                            ..self
                        },
                        StoreReplyView::Row(row),
                    )
                } else {
                    (self, StoreReplyView::Failed(msg_ids_exhausted()))
                }
            },
            StoreRequestView::SelectSamples => (self, StoreReplyView::Rows(self.samples_desc())),
            StoreRequestView::SelectSample { id } => match self.sample(id) {
                Some(row) => (self, StoreReplyView::Row(row)),
                None => (self, StoreReplyView::NoRow),
            },
            StoreRequestView::UpdateSample { id, input } => {
                if self.has_sample(id) {
                    let i = self.sample_index(id);
                    let row = updated_sample(self.samples[i], input, now);
                    (DatabaseView { samples: self.samples.update(i, row), ..self }, StoreReplyView::Row(row))
                } else {
                    (self, StoreReplyView::NoRow)
                }
            },
            StoreRequestView::DeleteSample { id } => {
                if self.has_sample(id) {
                    (
                        DatabaseView { samples: self.samples.remove(self.sample_index(id)), ..self },
                        StoreReplyView::Done,
                    )
                } else {
                    (self, StoreReplyView::Done)
                }
            },
            StoreRequestView::SelectUserByEmail { email } => (self, StoreReplyView::UserRow(self.user(email))),
            StoreRequestView::CountUsersByEmail { email } => (
                self,
                StoreReplyView::Count(
                    if self.has_user(email) {
                        1
                    } else {
                        0
                    },
                ),
            ),
            StoreRequestView::InsertUser { email, password_hash } => {
                if self.has_user(email) {
                    (self, StoreReplyView::Failed(msg_email_taken()))
                } else if self.next_user_id < i64::MAX {
                    (
                        DatabaseView {
                            users: self.users.push(self.new_user(email, password_hash, now)),
                            next_user_id: self.next_user_id + 1,
                            ..self
                        },
                        StoreReplyView::Done,
                    )
                } else {
                    (self, StoreReplyView::Failed(msg_ids_exhausted()))
                }
            },
        }
    }
}

/// The row that an update leaves: name, description and status taken from
/// the input, the update time stamped, everything else kept.
pub open spec fn updated_sample(row: SampleView, input: SampleInputView, now: Seq<char>) -> SampleView {
    SampleView {
        name: input.name,
        description: input.description,
        status: input.status,
        updated_at: Some(now),
        ..row
    }
}

/// In a well-formed store an identifier is held at one position only.
pub proof fn lemma_sample_index(db: DatabaseView, id: int, i: int)
    requires
        db.wf(),
        0 <= i < db.samples.len(),
        db.samples[i].id == id,
    ensures
        db.has_sample(id),
        db.sample_index(id) == i,
        db.sample(id) == Some(db.samples[i]),
{
    let j = db.sample_index(id);
    assert(0 <= j < db.samples.len() && db.samples[j].id == id);
    if j < i {
        assert(db.samples[j].id < db.samples[i].id);
    } else if i < j {
        assert(db.samples[i].id < db.samples[j].id);
    }
}

/// In a well-formed store an email is registered at one position only.
pub proof fn lemma_user_index(db: DatabaseView, email: Seq<char>, i: int)
    requires
        db.wf(),
        0 <= i < db.users.len(),
        db.users[i].email == email,
    ensures
        db.has_user(email),
        db.user_index(email) == i,
        db.user(email) == Some(db.users[i]),
{
    let j = db.user_index(email);
    assert(0 <= j < db.users.len() && db.users[j].email == email);
    if j < i {
        assert(db.users[j].email != db.users[i].email);
    } else if i < j {
        assert(db.users[i].email != db.users[j].email);
    }
}

/// Every statement leaves a well-formed store well-formed.
pub proof fn lemma_execute_wf(db: DatabaseView, req: StoreRequestView, now: Seq<char>)
    requires
        db.wf(),
    ensures
        db.execute(req, now).0.wf(),
{
    let after = db.execute(req, now).0;
    match req {
        StoreRequestView::UpdateSample { id, input } => {
            if db.has_sample(id) {
                let i = db.sample_index(id);
                assert forall|a: int, b: int| 0 <= a < b < after.samples.len() implies (
                #[trigger] after.samples[a]).id < (#[trigger] after.samples[b]).id by {
                    assert(after.samples[a].id == db.samples[a].id);
                    assert(after.samples[b].id == db.samples[b].id);
                }
                assert forall|a: int| 0 <= a < after.samples.len() implies 1 <= (
                #[trigger] after.samples[a]).id < after.next_sample_id by {
                    assert(after.samples[a].id == db.samples[a].id);
                }
            }
        },
        StoreRequestView::DeleteSample { id } => {
            if db.has_sample(id) {
                let i = db.sample_index(id);
                assert forall|a: int, b: int| 0 <= a < b < after.samples.len() implies (
                #[trigger] after.samples[a]).id < (#[trigger] after.samples[b]).id by {
                    let a0 = if a < i { a } else { a + 1 };
                    let b0 = if b < i { b } else { b + 1 };
                    assert(after.samples[a] == db.samples[a0]);
                    assert(after.samples[b] == db.samples[b0]);
                }
                assert forall|a: int| 0 <= a < after.samples.len() implies 1 <= (
                #[trigger] after.samples[a]).id < after.next_sample_id by {
                    let a0 = if a < i { a } else { a + 1 };
                    assert(after.samples[a] == db.samples[a0]);
                }
            }
        },
        StoreRequestView::InsertUser { email, password_hash } => {
            if !db.has_user(email) && db.next_user_id < i64::MAX {
                assert forall|a: int, b: int| 0 <= a < b < after.users.len() implies (
                #[trigger] after.users[a]).email != (#[trigger] after.users[b]).email by {
                    if b == db.users.len() {
                        assert(db.users[a].email != email);
                    } else {
                        assert(db.users[a].email != db.users[b].email);
                    }
                }
            }
        },
        _ => {},
    }
}

} // verus!
