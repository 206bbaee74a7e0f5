//! JSON text for the few objects that the service writes itself. The
//! encoding is that of `serde_json`.

use vstd::prelude::*;

verus! {

/// The value of one member of a flat JSON object.
#[derive(Debug, PartialEq, Eq)]
pub enum JsonField {
    Text(String),
    Flag(bool),
}

/// Mathematical value of a [`JsonField`].
pub ghost enum JsonFieldView {
    Text(Seq<char>),
    Flag(bool),
}

impl View for JsonField {
    type V = JsonFieldView;

    open spec fn view(&self) -> JsonFieldView {
        match self {
            JsonField::Text(s) => JsonFieldView::Text(s@),
            JsonField::Flag(b) => JsonFieldView::Flag(*b),
        }
    }
}

/// Mathematical value of the members of an object.
pub open spec fn member_views(members: Seq<(String, JsonField)>) -> Seq<(Seq<char>, JsonFieldView)> {
    Seq::new(members.len(), |i: int| (members[i].0@, members[i].1@))
}

/// The compact JSON text of the object with the given members, as
/// `serde_json` writes it.
pub uninterp spec fn json_object(members: Seq<(Seq<char>, JsonFieldView)>) -> Seq<char>;

/// `Display` of `serde_json::Value`, on the object collected from
/// `members`: its compact JSON text.
#[verifier::external_body]
pub(crate) fn object_to_string(members: &Vec<(String, JsonField)>) -> (text: String)
    ensures
        text@ == json_object(member_views(members@)),
{
    let object: serde_json::Map<String, serde_json::Value> = members
        .iter()
        .map(|(name, field)| match field {
            JsonField::Text(s) => (name.clone(), serde_json::Value::String(s.clone())),
            JsonField::Flag(b) => (name.clone(), serde_json::Value::Bool(*b)),
        })
        .collect();
    serde_json::Value::Object(object).to_string()
}

} // verus!
