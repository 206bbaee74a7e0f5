//! The relational store as the service sees it: the statements it issues,
//! the answers it can get, how the store is set up and seeded, and a
//! reference store that keeps both tables in memory.
//!
//! [`model::DatabaseView`] is the mathematical state of the two tables and
//! says what each statement does to it. [`memory::Database`] executes the
//! statements on vectors and is proved to follow that model.

use vstd::prelude::*;
use crate::models::sample::{Sample, SampleInput, SampleInputView, SampleView};
use crate::headers::text_bytes;
use crate::password::{argon2_hashed, argon2_verifies, hash_password, opt_string};

pub mod memory;
pub mod model;

verus! {

/// A registered user.
#[derive(Debug, PartialEq, Eq)]
pub struct User {
    pub id: i64,
    pub email: String,
    pub password_hash: String,
    pub created_at: String,
}

/// Mathematical value of a [`User`].
pub ghost struct UserView {
    pub id: int,
    pub email: Seq<char>,
    pub password_hash: Seq<char>,
    pub created_at: Seq<char>,
}

impl View for User {
    type V = UserView;

    open spec fn view(&self) -> UserView {
        UserView {
            id: self.id as int,
            email: self.email@,
            password_hash: self.password_hash@,
            created_at: self.created_at@,
        }
    }
}

impl Clone for User {
    fn clone(&self) -> (r: Self)
        ensures
            r@ == self@,
    {
        User {
            id: self.id,
            email: self.email.clone(),
            password_hash: self.password_hash.clone(),
            created_at: self.created_at.clone(),
        }
    }
}

/// A statement sent to the store.
#[derive(Debug, PartialEq, Eq)]
pub enum StoreRequest {
    /// Insert a sample; the store assigns identifier and creation time.
    InsertSample { input: SampleInput, created_by: i64 },
    /// All samples, highest identifier first.
    SelectSamples,
    /// The sample with the given identifier.
    SelectSample { id: i64 },
    /// Overwrite name, description and status and stamp the update time.
    UpdateSample { id: i64, input: SampleInput },
    /// Remove the sample with the given identifier, if there is one.
    DeleteSample { id: i64 },
    /// The user registered under the given email.
    SelectUserByEmail { email: String },
    /// How many users are registered under the given email.
    CountUsersByEmail { email: String },
    /// Register a user; the store assigns identifier and creation time.
    InsertUser { email: String, password_hash: String },
}

/// Mathematical value of a [`StoreRequest`].
pub ghost enum StoreRequestView {
    InsertSample { input: SampleInputView, created_by: int },
    SelectSamples,
    SelectSample { id: int },
    UpdateSample { id: int, input: SampleInputView },
    DeleteSample { id: int },
    SelectUserByEmail { email: Seq<char> },
    CountUsersByEmail { email: Seq<char> },
    InsertUser { email: Seq<char>, password_hash: Seq<char> },
}

impl View for StoreRequest {
    type V = StoreRequestView;

    open spec fn view(&self) -> StoreRequestView {
        match self {
            StoreRequest::InsertSample { input, created_by } => StoreRequestView::InsertSample {
                input: input@,
                created_by: *created_by as int,
            },
            StoreRequest::SelectSamples => StoreRequestView::SelectSamples,
            StoreRequest::SelectSample { id } => StoreRequestView::SelectSample { id: *id as int },
            StoreRequest::UpdateSample { id, input } => StoreRequestView::UpdateSample {
                id: *id as int,
                input: input@,
            },
            StoreRequest::DeleteSample { id } => StoreRequestView::DeleteSample { id: *id as int },
            StoreRequest::SelectUserByEmail { email } => StoreRequestView::SelectUserByEmail {
                email: email@,
            },
            StoreRequest::CountUsersByEmail { email } => StoreRequestView::CountUsersByEmail {
                email: email@,
            },
            StoreRequest::InsertUser { email, password_hash } => StoreRequestView::InsertUser {
                email: email@,
                password_hash: password_hash@,
            },
        }
    }
}

/// Mathematical value of a list of samples.
pub open spec fn sample_views(rows: Seq<Sample>) -> Seq<SampleView> {
    Seq::new(rows.len(), |i: int| rows[i]@)
}

/// Mathematical value of a list of users.
pub open spec fn user_views(rows: Seq<User>) -> Seq<UserView> {
    Seq::new(rows.len(), |i: int| rows[i]@)
}

/// Mathematical value of an optional user.
pub open spec fn opt_user(u: Option<User>) -> Option<UserView> {
    match u {
        Some(user) => Some(user@),
        None => None,
    }
}

/// The store's answer to a statement.
#[derive(Debug, PartialEq, Eq)]
pub enum StoreReply {
    /// The one sample that the statement returned.
    Row(Sample),
    /// The samples that the statement returned, in its order.
    Rows(Vec<Sample>),
    /// The statement asked for one row and matched none.
    NoRow,
    /// The statement ran and returns nothing.
    Done,
    /// The user that the statement looked up, if any.
    UserRow(Option<User>),
    /// The count that the statement returned.
    Count(i64),
    /// The store could not run the statement.
    Failed(String),
}

/// Mathematical value of a [`StoreReply`].
pub ghost enum StoreReplyView {
    Row(SampleView),
    Rows(Seq<SampleView>),
    NoRow,
    Done,
    UserRow(Option<UserView>),
    Count(int),
    Failed(Seq<char>),
}

impl View for StoreReply {
    type V = StoreReplyView;

    open spec fn view(&self) -> StoreReplyView {
        match self {
            StoreReply::Row(s) => StoreReplyView::Row(s@),
            StoreReply::Rows(v) => StoreReplyView::Rows(sample_views(v@)),
            StoreReply::NoRow => StoreReplyView::NoRow,
            StoreReply::Done => StoreReplyView::Done,
            StoreReply::UserRow(u) => StoreReplyView::UserRow(opt_user(*u)),
            StoreReply::Count(n) => StoreReplyView::Count(*n as int),
            StoreReply::Failed(m) => StoreReplyView::Failed(m@),
        }
    }
}

/// Where the store is found when nothing is configured.
pub open spec fn default_database_url() -> Seq<char> {
    "sqlite://sample.db"@
}

/// Most connections that the pool opens at a time.
pub const MAX_CONNECTIONS: u32 = 5;

/// How the store is set up at startup.
#[derive(Debug, PartialEq, Eq)]
pub struct DbSetup {
    pub url: String,
    pub max_connections: u32,
    pub seed: bool,
}

/// Why the store cannot be set up.
#[derive(Clone, Copy, Debug, PartialEq, Eq)]
pub enum SetupError {
    /// Whether to seed the store is not configured.
    SeedFlagMissing,
    /// The seed setting is neither `true` nor `false`.
    SeedFlagInvalid,
}

/// What a seed setting says.
pub open spec fn seed_flag(setting: Option<String>) -> Result<bool, SetupError> {
    match setting {
        Some(text) => if text@ == "true"@ {
            Ok(true)
        } else if text@ == "false"@ {
            Ok(false)
        } else {
            Err(SetupError::SeedFlagInvalid)
        },
        None => Err(SetupError::SeedFlagMissing),
    }
}

/// Resolves the configuration of the store. The address is taken as
/// configured or from its default. Whether to seed must be configured, as
/// `true` or `false`.
pub fn setup_db(database_url: Option<String>, seed_database: Option<String>) -> (r: Result<DbSetup, SetupError>)
    ensures
        match r {
            Ok(setup) => {
                &&& seed_flag(seed_database) == Ok::<bool, SetupError>(setup.seed)
                &&& setup.max_connections == MAX_CONNECTIONS
                &&& setup.url@ == match database_url {
                    Some(url) => url@,
                    None => default_database_url(),
                }
            },
            Err(e) => seed_flag(seed_database) == Err::<bool, SetupError>(e),
        },
{
    let seed = match seed_database {
        Some(text) => {
            if text == "true".to_owned() {
                true
            } else if text == "false".to_owned() {
                false
            } else {
                return Err(SetupError::SeedFlagInvalid);
            }
        },
        None => {
            return Err(SetupError::SeedFlagMissing);
        },
    };
    let url = match database_url {
        Some(url) => url,
        None => "sqlite://sample.db".to_owned(),
    };
    Ok(DbSetup { url, max_connections: MAX_CONNECTIONS, seed })
}

/// An account to seed.
#[derive(Debug, PartialEq, Eq)]
pub struct Credentials {
    pub email: String,
    pub password: String,
}

/// The administrator to seed: email and password as configured, or
/// `admin@example.com` and `admin123` where they are not.
pub fn seed_admin(email: Option<String>, password: Option<String>) -> (account: Credentials)
    ensures
        account.email@ == match email {
            Some(e) => e@,
            None => "admin@example.com"@,
        },
        account.password@ == match password {
            Some(p) => p@,
            None => "admin123"@,
        },
{
    let email = match email {
        Some(e) => e,
        None => "admin@example.com".to_owned(),
    };
    let password = match password {
        Some(p) => p,
        None => "admin123".to_owned(),
    };
    Credentials { email, password }
}

/// The ordinary user to seed.
pub fn seed_user() -> (account: Credentials)
    ensures
        account.email@ == "user@example.com"@,
        account.password@ == "user123"@,
{
    Credentials { email: "user@example.com".to_owned(), password: "user123".to_owned() }
}

/// The statement that tells whether an account to seed is registered
/// already.
pub fn seed_lookup(account: &Credentials) -> (req: StoreRequest)
    ensures
        req@ == (StoreRequestView::CountUsersByEmail { email: account.email@ }),
{
    StoreRequest::CountUsersByEmail { email: account.email.clone() }
}

/// Why an account was not seeded.
#[derive(Debug, PartialEq, Eq)]
pub enum SeedError {
    /// The store failed, with this text.
    Storage(String),
    /// The store answered with something that was not asked for.
    Protocol,
    /// The password could not be hashed.
    Hashing,
}

/// Mathematical value of a [`SeedError`].
pub ghost enum SeedErrorView {
    Storage(Seq<char>),
    Protocol,
    Hashing,
}

impl View for SeedError {
    type V = SeedErrorView;

    open spec fn view(&self) -> SeedErrorView {
        match self {
            SeedError::Storage(m) => SeedErrorView::Storage(m@),
            SeedError::Protocol => SeedErrorView::Protocol,
            SeedError::Hashing => SeedErrorView::Hashing,
        }
    }
}

/// Mathematical value of what seeding asks of the store next.
pub open spec fn seed_view(r: Result<Option<StoreRequest>, SeedError>) -> Result<
    Option<StoreRequestView>,
    SeedErrorView,
> {
    match r {
        Ok(Some(req)) => Ok(Some(req@)),
        Ok(None) => Ok(None),
        Err(e) => Err(e@),
    }
}

/// What seeding does once it knows how often the email is registered and,
/// where that is never, what the password hashes to.
pub open spec fn seed_step(email: Seq<char>, count: StoreReplyView, hash: Option<Seq<char>>) -> Result<
    Option<StoreRequestView>,
    SeedErrorView,
> {
    match count {
        StoreReplyView::Count(n) => if n == 0 {
            match hash {
                Some(h) => Ok(Some(StoreRequestView::InsertUser { email, password_hash: h })),
                None => Err(SeedErrorView::Hashing),
            }
        } else {
            Ok(None)
        },
        StoreReplyView::Failed(m) => Err(SeedErrorView::Storage(m)),
        _ => Err(SeedErrorView::Protocol),
    }
}

/// Decides what seeding asks of the store after the lookup: to register
/// the account with the given hash if the email is not registered yet,
/// and nothing if it is.
pub fn seed_insert(email: String, count: StoreReply, hash: Option<String>) -> (r: Result<
    Option<StoreRequest>,
    SeedError,
>)
    ensures
        seed_view(r) == seed_step(email@, count@, opt_string(hash)),
{
    match count {
        StoreReply::Count(n) => {
            if n == 0 {
                match hash {
                    Some(h) => Ok(Some(StoreRequest::InsertUser { email, password_hash: h })),
                    None => Err(SeedError::Hashing),
                }
            } else {
                Ok(None)
            }
        },
        StoreReply::Failed(m) => Err(SeedError::Storage(m)),
        _ => Err(SeedError::Protocol),
    }
}

/// Seeds one account, given the store's answer to [`seed_lookup`]. An
/// account that is registered already is left alone. One that is not is
/// registered with the hash of its password under `salt`, a fresh random
/// salt in base64 without padding; the password verifies against what is
/// stored.
pub fn seed_account(account: Credentials, count: StoreReply, salt: &str) -> (r: Result<
    Option<StoreRequest>,
    SeedError,
>)
    ensures
        seed_view(r) == seed_step(
            account.email@,
            count@,
            argon2_hashed(text_bytes(account.password@), salt@),
        ),
        r matches Ok(Some(StoreRequest::InsertUser { password_hash, .. })) ==> argon2_verifies(
            password_hash@,
            text_bytes(account.password@),
        ),
{
    let needed = match &count {
        StoreReply::Count(n) => *n == 0,
        _ => false,
    };
    if needed {
        let hash = hash_password(account.password.as_str(), salt);
        seed_insert(account.email, count, hash)
    } else {
        seed_insert(account.email, count, None)
    }
}

/// Whether the registration that seeding asked for went through.
pub fn seed_done(reply: StoreReply) -> (r: Result<(), SeedError>)
    ensures
        match reply@ {
            StoreReplyView::Done => r is Ok,
            StoreReplyView::Failed(m) => r matches Err(e) && e@ == SeedErrorView::Storage(m),
            _ => r matches Err(e) && e@ == SeedErrorView::Protocol,
        },
{
    match reply {
        StoreReply::Done => Ok(()),
        StoreReply::Failed(m) => Err(SeedError::Storage(m)),
        _ => Err(SeedError::Protocol),
    }
}

} // verus!
