//! JSON values as the protocol layer sees them.
//!
//! [`Json`] is the executable tree; [`JsonValue`] is its mathematical model, in
//! which every contract of the protocol layer is stated.

use crate::text::same_text;
use vstd::prelude::*;

verus! {

/// A JSON value.
///
/// Integers that fit `i64` are held as such; every other number keeps its JSON
/// spelling in `Decimal`. An object keeps its members in order.
#[derive(Debug, PartialEq, Eq)]
pub enum Json {
    Null,
    Bool(bool),
    Integer(i64),
    Decimal(String),
    Text(String),
    Array(Vec<Json>),
    Object(Vec<Member>),
}

/// One member of a JSON object.
#[derive(Debug, PartialEq, Eq)]
pub struct Member {
    pub name: String,
    pub value: Json,
}

/// The mathematical model of a [`Json`] tree.
pub enum JsonValue {
    Null,
    Bool(bool),
    Integer(int),
    Decimal(Seq<char>),
    Text(Seq<char>),
    Array(Seq<JsonValue>),
    Object(Seq<(Seq<char>, JsonValue)>),
}

/// The members of an object, in the model.
pub type Members = Seq<(Seq<char>, JsonValue)>;

impl View for Json {
    type V = JsonValue;

    open spec fn view(&self) -> JsonValue
        decreases self,
    {
        match self {
            Json::Null => JsonValue::Null,
            Json::Bool(b) => JsonValue::Bool(*b),
            Json::Integer(i) => JsonValue::Integer(*i as int),
            Json::Decimal(s) => JsonValue::Decimal(s@),
            Json::Text(s) => JsonValue::Text(s@),
            Json::Array(items) => JsonValue::Array(
                Seq::new(
                    items@.len(),
                    |i: int|
                        if 0 <= i < items@.len() {
                            items@[i].view()
                        } else {
                            JsonValue::Null
                        },
                ),
            ),
            Json::Object(members) => JsonValue::Object(
                Seq::new(
                    members@.len(),
                    |i: int|
                        (
                            members@[i].name@,
                            if 0 <= i < members@.len() {
                                members@[i].value.view()
                            } else {
                                JsonValue::Null
                            },
                        ),
                ),
            ),
        }
    }
}

/// The models of the items of an array.
pub open spec fn items_model(items: Seq<Json>) -> Seq<JsonValue> {
    Seq::new(items.len(), |i: int| items[i]@)
}

/// The models of the members of an object.
pub open spec fn members_model(members: Seq<Member>) -> Members {
    Seq::new(members.len(), |i: int| (members[i].name@, members[i].value@))
}

/// An array's model holds the models of its items, in order.
pub proof fn lemma_array_model(items: Vec<Json>)
    ensures
        Json::Array(items)@ == JsonValue::Array(items_model(items@)),
{
    assert(Json::Array(items)@->Array_0 =~= items_model(items@));
}

/// An object's model holds its members' names and the models of their values, in order.
pub proof fn lemma_object_model(members: Vec<Member>)
    ensures
        Json::Object(members)@ == JsonValue::Object(members_model(members@)),
{
    let j = Json::Object(members);
    assert(j@ matches JsonValue::Object(ms) && ms =~= members_model(members@));
}

/// The value of the first member called `name`, if there is one.
pub open spec fn find_member(members: Members, name: Seq<char>) -> Option<JsonValue>
    decreases members.len(),
{
    if members.len() == 0 {
        None
    } else if members[0].0 == name {
        Some(members[0].1)
    } else {
        find_member(members.subrange(1, members.len() as int), name)
    }
}

/// A member's value is a smaller value than the object that holds it.
pub proof fn lemma_member_smaller(members: Members, name: Seq<char>)
    ensures
        find_member(members, name) matches Some(v) ==> decreases_to!(members => v),
    decreases members.len(),
{
    if members.len() > 0 && members[0].0 != name {
        lemma_member_smaller(members.subrange(1, members.len() as int), name);
    }
}

impl JsonValue {
    /// The value of the first member called `name`, if `self` is an object that
    /// has one.
    pub open spec fn member(self, name: Seq<char>) -> Option<JsonValue> {
        match self {
            JsonValue::Object(members) => find_member(members, name),
            _ => None,
        }
    }

    /// An optional member of any kind: absent or null is `None`.
    pub open spec fn value_at(self, name: Seq<char>) -> Option<JsonValue> {
        match self.member(name) {
            None => None,
            Some(JsonValue::Null) => None,
            Some(v) => Some(v),
        }
    }
}

/// The model of an optional JSON value.
pub open spec fn opt_json(j: Option<Json>) -> Option<JsonValue> {
    match j {
        Some(v) => Some(v@),
        None => None,
    }
}

/// The model of an optional reference to a JSON value.
pub open spec fn opt_json_ref(j: Option<&Json>) -> Option<JsonValue> {
    match j {
        Some(v) => Some(v@),
        None => None,
    }
}

impl Json {
    /// The value of the first member called `name`, if `self` is an object that
    /// has one.
    pub fn member(&self, name: &str) -> (res: Option<&Json>)
        ensures
            opt_json_ref(res) == self@.member(name@),
            res matches Some(v) ==> decreases_to!(self => v),
    {
        match self {
            Json::Object(members) => {
                proof {
                    lemma_object_model(*members);
                }
                let ghost all = members_model(members@);
                let mut i: usize = 0;
                assert(all.subrange(0, all.len() as int) =~= all);
                while i < members.len()
                    invariant
                        i <= members.len(),
                        all == members_model(members@),
                        self@ == JsonValue::Object(all),
                        decreases_to!(self => members),
                        find_member(all, name@) == find_member(
                            all.subrange(i as int, all.len() as int),
                            name@,
                        ),
                    decreases members.len() - i,
                {
                    let ghost rest = all.subrange(i as int, all.len() as int);
                    assert(rest.subrange(1, rest.len() as int) =~= all.subrange(
                        i as int + 1,
                        all.len() as int,
                    ));
                    if same_text(members[i].name.as_str(), name) {
                        proof {
                            broadcast use vstd::std_specs::vec::axiom_vec_index_decreases;
                        }
                        return Some(&members[i].value);
                    }
                    i += 1;
                }
                None
            },
            _ => None,
        }
    }

    /// Whether `self` is an object.
    pub fn is_object(&self) -> (res: bool)
        ensures
            res == (self@ is Object),
    {
        match self {
            Json::Object(_) => true,
            _ => false,
        }
    }

    /// An optional member of any kind.
    pub fn value_at(&self, name: &str) -> (res: Option<&Json>)
        ensures
            opt_json_ref(res) == self@.value_at(name@),
            res matches Some(v) ==> decreases_to!(self => v),
    {
        match self.member(name) {
            None => None,
            Some(Json::Null) => None,
            Some(v) => Some(v),
        }
    }

    /// A copy of an optional member of any kind.
    pub fn json_at(&self, name: &str) -> (res: Option<Json>)
        ensures
            opt_json(res) == self@.value_at(name@),
    {
        match self.value_at(name) {
            Some(v) => Some(v.copy()),
            None => None,
        }
    }

    /// A copy of `self`.
    pub fn copy(&self) -> (res: Json)
        ensures
            res@ == self@,
        decreases self,
    {
        match self {
            Json::Null => Json::Null,
            Json::Bool(b) => Json::Bool(*b),
            Json::Integer(i) => Json::Integer(*i),
            Json::Decimal(s) => Json::Decimal(s.clone()),
            Json::Text(s) => Json::Text(s.clone()),
            Json::Array(items) => {
                let out = copy_items(items);
                proof {
                    lemma_array_model(*items);
                    lemma_array_model(out);
                }
                Json::Array(out)
            },
            Json::Object(members) => {
                let out = copy_members(members);
                proof {
                    lemma_object_model(*members);
                    lemma_object_model(out);
                }
                Json::Object(out)
            },
        }
    }
}

/// A copy of the items of an array.
pub fn copy_items(items: &Vec<Json>) -> (out: Vec<Json>)
    ensures
        items_model(out@) == items_model(items@),
    decreases items,
{
    let mut out: Vec<Json> = Vec::new();
    let mut i: usize = 0;
    while i < items.len()
        invariant
            i <= items.len(),
            out@.len() == i,
            forall|k: int| 0 <= k < i ==> out@[k]@ == items@[k]@,
        decreases items.len() - i,
    {
        proof {
            broadcast use vstd::std_specs::vec::axiom_vec_index_decreases;
        }
        let item = items[i].copy();
        out.push(item);
        i += 1;
    }
    out
}

/// A copy of the members of an object.
pub fn copy_members(members: &Vec<Member>) -> (out: Vec<Member>)
    ensures
        members_model(out@) == members_model(members@),
    decreases members,
{
    let mut out: Vec<Member> = Vec::new();
    let mut i: usize = 0;
    while i < members.len()
        invariant
            i <= members.len(),
            out@.len() == i,
            forall|k: int|
                0 <= k < i ==> out@[k].name@ == members@[k].name@ && out@[k].value@
                    == members@[k].value@,
        decreases members.len() - i,
    {
        proof {
            broadcast use vstd::std_specs::vec::axiom_vec_index_decreases;
        }
        let value = members[i].value.copy();
        out.push(Member { name: members[i].name.clone(), value });
        i += 1;
    }
    out
}

impl Clone for Json {
    fn clone(&self) -> (res: Json)
        ensures
            res@ == self@,
    {
        self.copy()
    }
}

impl Clone for Member {
    fn clone(&self) -> (res: Member)
        ensures
            res.name@ == self.name@,
            res.value@ == self.value@,
    {
        Member { name: self.name.clone(), value: self.value.copy() }
    }
}

/// A copy of an optional JSON value.
pub fn copy_opt_json(j: &Option<Json>) -> (res: Option<Json>)
    ensures
        opt_json(res) == opt_json(*j),
{
    match j {
        Some(v) => Some(v.copy()),
        None => None,
    }
}

/// The models of a sequence of values.
pub open spec fn views<T: View>(items: Seq<T>) -> Seq<T::V> {
    Seq::new(items.len(), |i: int| items[i]@)
}

/// The model of an optional value.
pub open spec fn opt_view<T: View>(item: Option<T>) -> Option<T::V> {
    match item {
        Some(v) => Some(v@),
        None => None,
    }
}

/// The JSON forms of an optional list of values.
pub open spec fn opt_views<T: View>(items: Option<Vec<T>>) -> Option<Seq<T::V>> {
    match items {
        Some(v) => Some(views(v@)),
        None => None,
    }
}

/// The JSON integers of a sequence of integers.
pub open spec fn integers(items: Seq<i64>) -> Seq<JsonValue> {
    Seq::new(items.len(), |i: int| JsonValue::Integer(items[i] as int))
}

/// The JSON strings of a sequence of strings.
pub open spec fn texts(items: Seq<String>) -> Seq<JsonValue> {
    Seq::new(items.len(), |i: int| JsonValue::Text(items[i]@))
}

/// The JSON integers of an optional list of integers.
pub open spec fn opt_integers(items: Option<Vec<i64>>) -> Option<Seq<JsonValue>> {
    match items {
        Some(v) => Some(integers(v@)),
        None => None,
    }
}

/// The JSON strings of an optional list of strings.
pub open spec fn opt_texts(items: Option<Vec<String>>) -> Option<Seq<JsonValue>> {
    match items {
        Some(v) => Some(texts(v@)),
        None => None,
    }
}

} // verus!
