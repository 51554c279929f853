//! What holds of every JSON value.
use vstd::prelude::*;

use crate::json::{find_member, read_as, viewed, Json, JsonView};

verus! {

/// Whether `json` is an object whose first member called `name` has this value.
pub open spec fn has_member(json: JsonView, name: Seq<char>, value: JsonView) -> bool {
    json matches JsonView::Object(members) && exists|i: int|
        0 <= i < members.len() && #[trigger] members[i] == (name, value) && forall|j: int|
            0 <= j < i ==> (#[trigger] members[j]).0 != name
}

/// Whether `json` has no member called `name`.
pub open spec fn lacks_member(json: JsonView, name: Seq<char>) -> bool {
    json matches JsonView::Object(members) ==> forall|i: int|
        0 <= i < members.len() ==> (#[trigger] members[i]).0 != name
}

proof fn lemma_find_member(members: Seq<(Seq<char>, JsonView)>, name: Seq<char>, i: int)
    requires
        0 <= i,
    ensures
        match find_member(members, name, i) {
            Some(value) => exists|j: int|
                i <= j < members.len() && #[trigger] members[j] == (name, value) && forall|k: int|
                    i <= k < j ==> (#[trigger] members[k]).0 != name,
            None => forall|j: int| i <= j < members.len() ==> (#[trigger] members[j]).0 != name,
        },
    decreases members.len() - i,
{
    if i < members.len() {
        if members[i].0 == name {
            assert(members[i] == (name, members[i].1));
        } else {
            lemma_find_member(members, name, i + 1);
        }
    }
}

/// A member is the first of its name, and is there exactly if one of that name is.
pub proof fn a_member_is_the_first_of_its_name(json: JsonView, name: Seq<char>)
    ensures
        forall|value: JsonView| #[trigger]
            has_member(json, name, value) <==> json.member(name) == Some(value),
        lacks_member(json, name) <==> json.member(name) is None,
{
    if let JsonView::Object(members) = json {
        lemma_find_member(members, name, 0);
        assert forall|value: JsonView| #[trigger] has_member(json, name, value) implies json.member(
            name,
        ) == Some(value) by {
            let i = choose|i: int|
                0 <= i < members.len() && #[trigger] members[i] == (name, value) && forall|j: int|
                    0 <= j < i ==> (#[trigger] members[j]).0 != name;
            assert(members[i] == (name, value));
        }
        assert forall|value: JsonView| json.member(name) == Some(value) implies #[trigger] has_member(
            json,
            name,
            value,
        ) by {
        }
    }
}

/// What is read of a member is what it holds: a text only of a text, a number only of a number.
pub proof fn a_member_is_read_as_what_it_is(json: JsonView, name: Seq<char>, value: JsonView)
    requires
        has_member(json, name, value),
    ensures
        value matches JsonView::Text(text) ==> json.text_at(name) == Some(text),
        !(value is Text) ==> json.text_at(name) is None,
        value matches JsonView::Number(number) ==> json.number_at(name) == number,
        !(value is Number) ==> json.number_at(name) is None,
{
    a_member_is_the_first_of_its_name(json, name);
}

/// Of a member that is not there, nothing is read.
pub proof fn a_missing_member_reads_as_nothing(json: JsonView, name: Seq<char>)
    requires
        lacks_member(json, name),
    ensures
        json.text_at(name) is None,
        json.number_at(name) is None,
        json.member(name) is None,
{
    a_member_is_the_first_of_its_name(json, name);
}

/// The items of a list are read as they stand, and nothing else has items.
pub proof fn only_a_list_has_items(json: JsonView, items: Seq<JsonView>)
    ensures
        json.items() == Some(items) <==> json == JsonView::List(items),
        json.truth() == Some(true) <==> json == JsonView::Bool(true),
        json.truth() == Some(false) <==> json == JsonView::Bool(false),
{
}

/// What was read is the value, or what was said of a text that is none.
pub proof fn what_was_read_is_the_value(json: Result<Json, String>, lent: Option<&Json>)
    ensures
        match json {
            Ok(json) => read_as(Ok(json)) == Ok::<_, Seq<char>>(json@),
            Err(reason) => read_as(Err(reason)) == Err::<JsonView, _>(reason@),
        },
        match lent {
            Some(json) => viewed(Some(json)) == Some(json@),
            None => viewed(None) is None,
        },
{
}

/// A value stands for what it holds.
pub proof fn a_value_stands_for_what_it_holds(json: Json)
    ensures
        json matches Json::Bool(b) ==> json@ == JsonView::Bool(b),
        json matches Json::Number(n) ==> json@ == JsonView::Number(n),
        json matches Json::Text(text) ==> json@ == JsonView::Text(text@),
        json is Null ==> json@ is Null,
        json matches Json::List(items) ==> json@ is List && json@->List_0.len() == items@.len()
            && forall|i: int|
            0 <= i < items@.len() ==> #[trigger] json@->List_0[i] == items@[i]@,
        json matches Json::Object(members) ==> json@ is Object && json@->Object_0.len()
            == members@.len() && forall|i: int|
            0 <= i < members@.len() ==> #[trigger] json@->Object_0[i] == (
                members@[i].0@,
                members@[i].1@,
            ),
{
}

}
