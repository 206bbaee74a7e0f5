//! Reference store: both tables held in memory.

use vstd::prelude::*;
use crate::db::model::{lemma_execute_wf, lemma_sample_index, lemma_user_index, DatabaseView};
use crate::db::{sample_views, user_views, StoreReply, StoreRequest, User};
use crate::models::sample::Sample;

verus! {

/// A store that keeps the samples and the users in vectors, each in
/// ascending order of identifier.
#[derive(Debug)]
pub struct Database {
    samples: Vec<Sample>,
    next_sample_id: i64,
    users: Vec<User>,
    next_user_id: i64,
}

impl View for Database {
    type V = DatabaseView;

    closed spec fn view(&self) -> DatabaseView {
        DatabaseView {
            samples: sample_views(self.samples@),
            next_sample_id: self.next_sample_id as int,
            users: user_views(self.users@),
            next_user_id: self.next_user_id as int,
        }
    }
}

impl Database {
    /// The invariant of the store: that of its mathematical state.
    pub open spec fn wf(&self) -> bool {
        self@.wf()
    }

    /// An empty store.
    pub fn new() -> (db: Database)
        ensures
            db.wf(),
            db@ == DatabaseView::empty(),
    {
        let db = Database { samples: Vec::new(), next_sample_id: 1, users: Vec::new(), next_user_id: 1 };
        assert(db@.samples =~= Seq::empty());
        assert(db@.users =~= Seq::empty());
        db
    }

    /// Position of the sample with the given identifier.
    fn find_sample(&self, id: i64) -> (r: Option<usize>)
        requires
            self.wf(),
        ensures
            match r {
                Some(i) => i < self.samples.len() && self@.has_sample(id as int) && self@.sample_index(
                    id as int,
                ) == i,
                None => !self@.has_sample(id as int),
            },
    {
        let mut i: usize = 0;
        while i < self.samples.len()
            invariant
                self.wf(),
                i <= self.samples.len(),
                forall|k: int| 0 <= k < i ==> (#[trigger] self@.samples[k]).id != id,
            decreases self.samples.len() - i,
        {
            if self.samples[i].id == id {
                proof {
                    assert(self@.samples[i as int].id == id);
                    lemma_sample_index(self@, id as int, i as int);
                }
                return Some(i);
            }
            i += 1;
        }
        None
    }

    /// Position of the user registered under the given email.
    fn find_user(&self, email: &String) -> (r: Option<usize>)
        requires
            self.wf(),
        ensures
            match r {
                Some(i) => i < self.users.len() && self@.has_user(email@) && self@.user_index(email@) == i,
                None => !self@.has_user(email@),
            },
    {
        let mut i: usize = 0;
        while i < self.users.len()
            invariant
                self.wf(),
                i <= self.users.len(),
                forall|k: int| 0 <= k < i ==> (#[trigger] self@.users[k]).email != email@,
            decreases self.users.len() - i,
        {
            if self.users[i].email == *email {
                proof {
                    assert(self@.users[i as int].email == email@);
                    lemma_user_index(self@, email@, i as int);
                }
                return Some(i);
            }
            i += 1;
        }
        None
    }

    /// All samples, highest identifier first.
    fn select_samples(&self) -> (rows: Vec<Sample>)
        ensures
            sample_views(rows@) == self@.samples_desc(),
    {
        let mut rows: Vec<Sample> = Vec::new();
        let n = self.samples.len();
        let mut i: usize = 0;
        while i < n
            invariant
                n == self.samples.len(),
                i <= n,
                rows.len() == i,
                forall|k: int| 0 <= k < i ==> (#[trigger] rows[k])@ == self.samples[n - 1 - k]@,
            decreases n - i,
        {
            rows.push(self.samples[n - 1 - i].clone());
            i += 1;
        }
        assert(sample_views(rows@) =~= self@.samples.reverse());
        rows
    }

    /// Runs one statement at time `now`.
    pub fn execute(&mut self, req: StoreRequest, now: &str) -> (reply: StoreReply)
        requires
            old(self).wf(),
        ensures
            final(self).wf(),
            (final(self)@, reply@) == old(self)@.execute(req@, now@),
    {
        proof {
            lemma_execute_wf(self@, req@, now@);
        }
        match req {
            StoreRequest::InsertSample { input, created_by } => {
                if self.next_sample_id < i64::MAX {
                    let row = Sample {
                        id: self.next_sample_id,
                        name: input.name,
                        description: input.description,
                        status: input.status,
                        created_at: now.to_owned(),
                        updated_at: None,
                        created_by,
                    };
                    let reply = StoreReply::Row(row.clone());
                    self.samples.push(row);
                    self.next_sample_id = self.next_sample_id + 1;
                    assert(self@.samples =~= old(self)@.samples.push(row@));
                    reply
                } else {
                    StoreReply::Failed("database or disk is full".to_owned())
                }
            },
            StoreRequest::SelectSamples => StoreReply::Rows(self.select_samples()),
            StoreRequest::SelectSample { id } => match self.find_sample(id) {
                Some(i) => StoreReply::Row(self.samples[i].clone()),
                None => StoreReply::NoRow,
            },
            StoreRequest::UpdateSample { id, input } => match self.find_sample(id) {
                Some(i) => {
                    let row = Sample {
                        id: self.samples[i].id,
                        name: input.name,
                        description: input.description,
                        status: input.status,
                        created_at: self.samples[i].created_at.clone(),
                        updated_at: Some(now.to_owned()),
                        created_by: self.samples[i].created_by,
                    };
                    let reply = StoreReply::Row(row.clone());
                    self.samples[i] = row;
                    assert(self@.samples =~= old(self)@.samples.update(i as int, row@));
                    reply
                },
                None => StoreReply::NoRow,
            },
            StoreRequest::DeleteSample { id } => {
                match self.find_sample(id) {
                    Some(i) => {
                        self.samples.remove(i);
                        assert(self@.samples =~= old(self)@.samples.remove(i as int));
                    },
                    None => {},
                }
                StoreReply::Done
            },
            StoreRequest::SelectUserByEmail { email } => match self.find_user(&email) {
                Some(i) => StoreReply::UserRow(Some(self.users[i].clone())),
                None => StoreReply::UserRow(None),
            },
            StoreRequest::CountUsersByEmail { email } => match self.find_user(&email) {
                Some(_) => StoreReply::Count(1),
                None => StoreReply::Count(0),
            },
            StoreRequest::InsertUser { email, password_hash } => match self.find_user(&email) {
                Some(_) => StoreReply::Failed("UNIQUE constraint failed: users.email".to_owned()),
                None => {
                    if self.next_user_id < i64::MAX {
                        let user = User {
                            id: self.next_user_id,
                            email,
                            password_hash,
                            created_at: now.to_owned(),
                        };
                        self.users.push(user);
                        self.next_user_id = self.next_user_id + 1;
                        assert(self@.users =~= old(self)@.users.push(user@));
                        StoreReply::Done
                    } else {
                        StoreReply::Failed("database or disk is full".to_owned())
                    }
                },
            },
        }
    }
}

} // verus!
