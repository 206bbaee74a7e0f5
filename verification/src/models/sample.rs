//! The sample resource and the input from which one is created or updated.

use vstd::prelude::*;

verus! {

/// Mathematical value of an optional string.
pub open spec fn opt_text(s: Option<String>) -> Option<Seq<char>> {
    match s {
        Some(t) => Some(t@),
        None => None,
    }
}

/// Copies an optional string.
pub fn clone_opt_text(s: &Option<String>) -> (r: Option<String>)
    ensures
        opt_text(r) == opt_text(*s),
{
    match s {
        Some(t) => Some(t.clone()),
        None => None,
    }
}

/// A stored sample.
#[derive(Debug, PartialEq, Eq)]
pub struct Sample {
    pub id: i64,
    pub name: String,
    pub description: Option<String>,
    pub status: String,
    pub created_at: String,
    pub updated_at: Option<String>,
    pub created_by: i64,
}

/// Mathematical value of a [`Sample`].
pub ghost struct SampleView {
    pub id: int,
    pub name: Seq<char>,
    pub description: Option<Seq<char>>,
    pub status: Seq<char>,
    pub created_at: Seq<char>,
    pub updated_at: Option<Seq<char>>,
    pub created_by: int,
}

impl View for Sample {
    type V = SampleView;

    open spec fn view(&self) -> SampleView {
        SampleView {
            id: self.id as int,
            name: self.name@,
            description: opt_text(self.description),
            status: self.status@,
            created_at: self.created_at@,
            updated_at: opt_text(self.updated_at),
            created_by: self.created_by as int,
        }
    }
}

impl Clone for Sample {
    fn clone(&self) -> (r: Self)
        ensures
            r@ == self@,
    {
        Sample {
            id: self.id,
            name: self.name.clone(),
            description: clone_opt_text(&self.description),
            status: self.status.clone(),
            created_at: self.created_at.clone(),
            updated_at: clone_opt_text(&self.updated_at),
            created_by: self.created_by,
        }
    }
}

/// The fields a caller supplies when creating or updating a sample.
#[derive(Debug, PartialEq, Eq)]
pub struct SampleInput {
    pub name: String,
    pub description: Option<String>,
    pub status: String,
}

/// Mathematical value of a [`SampleInput`].
pub ghost struct SampleInputView {
    pub name: Seq<char>,
    pub description: Option<Seq<char>>,
    pub status: Seq<char>,
}

impl View for SampleInput {
    type V = SampleInputView;

    open spec fn view(&self) -> SampleInputView {
        SampleInputView {
            name: self.name@,
            description: opt_text(self.description),
            status: self.status@,
        }
    }
}

impl Clone for SampleInput {
    fn clone(&self) -> (r: Self)
        ensures
            r@ == self@,
    {
        SampleInput {
            name: self.name.clone(),
            description: clone_opt_text(&self.description),
            status: self.status.clone(),
        }
    }
}

} // verus!
