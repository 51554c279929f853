//! JSON values, as far as the launcher reads them.
use vstd::prelude::*;

pub mod laws;

use crate::text::{borrowed, same_text};

verus! {

/// A JSON value. Of a number only its value as an unsigned integer is kept, where it has one.
#[derive(Debug)]
pub enum Json {
    Null,
    Bool(bool),
    Number(Option<u64>),
    Text(String),
    List(Vec<Json>),
    Object(Vec<(String, Json)>),
}

/// What a [`Json`] stands for.
pub enum JsonView {
    Null,
    Bool(bool),
    Number(Option<u64>),
    Text(Seq<char>),
    List(Seq<JsonView>),
    Object(Seq<(Seq<char>, JsonView)>),
}

impl View for Json {
    type V = JsonView;

    open spec fn view(&self) -> JsonView {
        self.meaning()
    }
}

impl Json {
    /// What this value stands for.
    pub open spec fn meaning(self) -> JsonView
        decreases self,
    {
        match self {
            Json::Null => JsonView::Null,
            Json::Bool(b) => JsonView::Bool(b),
            Json::Number(n) => JsonView::Number(n),
            Json::Text(s) => JsonView::Text(s@),
            Json::List(items) => JsonView::List(
                Seq::new(
                    items@.len(),
                    |i: int|
                        if 0 <= i < items@.len() {
                            items@[i].meaning()
                        } else {
                            JsonView::Null
                        },
                ),
            ),
            Json::Object(members) => JsonView::Object(
                Seq::new(
                    members@.len(),
                    |i: int|
                        if 0 <= i < members@.len() {
                            (members@[i].0@, members@[i].1.meaning())
                        } else {
                            (Seq::empty(), JsonView::Null)
                        },
                ),
            ),
        }
    }
}

/// A parsed value of `serde_json`.
#[verifier::external_type_specification]
#[verifier::external_body]
pub struct ExValue(serde_json::Value);

/// The value that a `serde_json::Value` holds.
pub uninterp spec fn value_in(value: serde_json::Value) -> JsonView;

/// What `serde_json` reads in a text, or what it says of a text that is not JSON.
pub uninterp spec fn json_in(text: Seq<char>) -> Result<JsonView, Seq<char>>;

/// `serde_json::from_str` into a `serde_json::Value`: what it reads, or what its error says, depends
/// on the text alone.
#[verifier::external_body]
fn read(text: &str) -> (value: Result<serde_json::Value, String>)
    ensures
        match value {
            Ok(v) => json_in(text@) == Ok::<_, Seq<char>>(value_in(v)),
            Err(reason) => json_in(text@) == Err::<JsonView, _>(reason@),
        },
{
    serde_json::from_str::<serde_json::Value>(text).map_err(|e| e.to_string())
}

/// Takes a `serde_json::Value` apart, variant by variant; of a number, `Number::as_u64` is kept.
/// The result holds what the value holds.
#[verifier::external_body]
fn converted(value: serde_json::Value) -> (json: Json)
    ensures
        json@ == value_in(value),
{
    match value {
        serde_json::Value::Null => Json::Null,
        serde_json::Value::Bool(b) => Json::Bool(b),
        serde_json::Value::Number(n) => Json::Number(n.as_u64()),
        serde_json::Value::String(s) => Json::Text(s),
        serde_json::Value::Array(items) => Json::List(items.into_iter().map(converted).collect()),
        serde_json::Value::Object(members) => Json::Object(
            members.into_iter().map(|(name, member)| (name, converted(member))).collect(),
        ),
    }
}

/// What a parsed text stands for.
pub open spec fn read_as(json: Result<Json, String>) -> Result<JsonView, Seq<char>> {
    match json {
        Ok(json) => Ok(json@),
        Err(reason) => Err(reason@),
    }
}

/// The JSON value in `text`, or why there is none.
pub fn parse(text: &str) -> (json: Result<Json, String>)
    ensures
        read_as(json) == json_in(text@),
{
    match read(text) {
        Ok(value) => Ok(converted(value)),
        Err(reason) => Err(reason),
    }
}

/// The first of `members[i..]` that is called `name`.
pub open spec fn find_member(
    members: Seq<(Seq<char>, JsonView)>,
    name: Seq<char>,
    i: int,
) -> Option<JsonView>
    decreases members.len() - i,
{
    if i >= members.len() {
        None
    } else if members[i].0 == name {
        Some(members[i].1)
    } else {
        find_member(members, name, i + 1)
    }
}

impl JsonView {
    /// The member called `name`, if this is an object that has one.
    pub open spec fn member(self, name: Seq<char>) -> Option<JsonView> {
        match self {
            JsonView::Object(members) => find_member(members, name, 0),
            _ => None,
        }
    }

    /// This value, if it is true or false.
    pub open spec fn truth(self) -> Option<bool> {
        match self {
            JsonView::Bool(b) => Some(b),
            _ => None,
        }
    }

    /// The text of the member called `name`, if there is one and it is a text.
    pub open spec fn text_at(self, name: Seq<char>) -> Option<Seq<char>> {
        match self.member(name) {
            Some(JsonView::Text(text)) => Some(text),
            _ => None,
        }
    }

    /// The member called `name`, if there is one and it is an unsigned integer.
    pub open spec fn number_at(self, name: Seq<char>) -> Option<u64> {
        match self.member(name) {
            Some(JsonView::Number(number)) => number,
            _ => None,
        }
    }

    /// The items, if this is a list.
    pub open spec fn items(self) -> Option<Seq<JsonView>> {
        match self {
            JsonView::List(items) => Some(items),
            _ => None,
        }
    }
}

/// What a borrowed value stands for.
pub open spec fn viewed(json: Option<&Json>) -> Option<JsonView> {
    match json {
        Some(json) => Some(json@),
        None => None,
    }
}

impl Json {
    /// The member called `name`, if this is an object that has one.
    pub fn member(&self, name: &str) -> (member: Option<&Json>)
        ensures
            viewed(member) == self@.member(name@),
    {
        match self {
            Json::Object(members) => {
                let ghost all = self@->Object_0;
                let mut i: usize = 0;
                while i < members.len()
                    invariant
                        i <= members.len(),
                        self@ == JsonView::Object(all),
                        all.len() == members.len(),
                        forall|j: int|
                            0 <= j < all.len() ==> #[trigger] all[j] == (
                                members@[j].0@,
                                members@[j].1@,
                            ),
                        find_member(all, name@, 0) == find_member(all, name@, i as int),
                    decreases members.len() - i,
                {
                    assert(all[i as int] == (members@[i as int].0@, members@[i as int].1@));
                    if same_text(members[i].0.as_str(), name) {
                        return Some(&members[i].1);
                    }
                    i += 1;
                }
                None
            },
            _ => None,
        }
    }

    /// This value, if it is true or false.
    pub fn truth(&self) -> (truth: Option<bool>)
        ensures
            truth == self@.truth(),
    {
        match self {
            Json::Bool(b) => Some(*b),
            _ => None,
        }
    }

    /// The text of the member called `name`, if there is one and it is a text.
    pub fn text_at(&self, name: &str) -> (text: Option<&str>)
        ensures
            borrowed(text) == self@.text_at(name@),
    {
        match self.member(name) {
            Some(Json::Text(text)) => Some(text.as_str()),
            _ => None,
        }
    }

    /// The member called `name`, if there is one and it is an unsigned integer.
    pub fn number_at(&self, name: &str) -> (number: Option<u64>)
        ensures
            number == self@.number_at(name@),
    {
        match self.member(name) {
            Some(Json::Number(number)) => *number,
            _ => None,
        }
    }

    /// The items, if this is a list.
    pub fn items(&self) -> (items: Option<&Vec<Json>>)
        ensures
            match items {
                Some(items) => self@.items() matches Some(all) && all.len() == items@.len()
                    && forall|i: int| 0 <= i < all.len() ==> #[trigger] all[i] == items@[i]@,
                None => self@.items() is None,
            },
    {
        match self {
            Json::List(items) => Some(items),
            _ => None,
        }
    }
}

}
