//! Writing records as JSON objects.
//!
//! The members of an object are put one after the other. [`Fields`] is the
//! model of the members put so far, and the model of a record that is sent is
//! the object that its members make.

use crate::json::{
    find_member, integers, items_model, lemma_array_model, lemma_object_model, members_model,
    opt_integers, opt_json, opt_texts, opt_view, opt_views, texts, views, Json, JsonValue, Member,
    Members,
};
use crate::text::owned;
use vstd::prelude::*;

verus! {

/// The members of an object under construction, in the model.
///
/// Each function puts one member after those that are there. One whose name
/// begins with `opt_` puts the member only where there is a value for it, and
/// one whose name begins with `nullable_` puts null where there is none.
pub struct Fields {
    pub list: Members,
}

impl Fields {
    /// No members.
    pub open spec fn new() -> Fields {
        Fields { list: Seq::empty() }
    }

    /// The object that has these members.
    pub open spec fn json(self) -> JsonValue {
        JsonValue::Object(self.list)
    }

    /// One more member, after those that are there.
    #[verifier::opaque]
    pub open spec fn value(self, name: Seq<char>, value: JsonValue) -> Fields {
        Fields { list: self.list.push((name, value)) }
    }

    /// One more member, where there is a value for it.
    pub open spec fn opt_value(self, name: Seq<char>, value: Option<JsonValue>) -> Fields {
        match value {
            Some(v) => self.value(name, v),
            None => self,
        }
    }

    pub open spec fn integer(self, name: Seq<char>, v: int) -> Fields {
        self.value(name, JsonValue::Integer(v))
    }

    pub open spec fn opt_integer(self, name: Seq<char>, v: Option<i64>) -> Fields {
        match v {
            Some(i) => self.integer(name, i as int),
            None => self,
        }
    }

    pub open spec fn boolean(self, name: Seq<char>, v: bool) -> Fields {
        self.value(name, JsonValue::Bool(v))
    }

    pub open spec fn opt_boolean(self, name: Seq<char>, v: Option<bool>) -> Fields {
        match v {
            Some(b) => self.boolean(name, b),
            None => self,
        }
    }

    pub open spec fn text(self, name: Seq<char>, v: Seq<char>) -> Fields {
        self.value(name, JsonValue::Text(v))
    }

    pub open spec fn opt_text(self, name: Seq<char>, v: Option<String>) -> Fields {
        match v {
            Some(s) => self.text(name, s@),
            None => self,
        }
    }

    /// One more string member, where there is a text for it.
    pub open spec fn opt_chars(self, name: Seq<char>, v: Option<Seq<char>>) -> Fields {
        match v {
            Some(s) => self.text(name, s),
            None => self,
        }
    }

    pub open spec fn nullable_text(self, name: Seq<char>, v: Option<String>) -> Fields {
        match v {
            Some(s) => self.text(name, s@),
            None => self.value(name, JsonValue::Null),
        }
    }

    pub open spec fn array(self, name: Seq<char>, items: Seq<JsonValue>) -> Fields {
        self.value(name, JsonValue::Array(items))
    }

    pub open spec fn opt_array(self, name: Seq<char>, items: Option<Seq<JsonValue>>) -> Fields {
        match items {
            Some(s) => self.array(name, s),
            None => self,
        }
    }

    /// The value of the first member called `key`.
    pub open spec fn find(self, key: Seq<char>) -> Option<JsonValue> {
        find_member(self.list, key)
    }

    /// What is found after one more member was put.
    pub proof fn lemma_find_value(self, name: Seq<char>, value: JsonValue, key: Seq<char>)
        ensures
            self.value(name, value).find(key) == if self.find(key) is Some {
                self.find(key)
            } else if name == key {
                Some(value)
            } else {
                None
            },
    {
        reveal(Fields::value);
        lemma_find_pushed(self.list, name, value, key);
    }
}

/// Looking a name up among members with one more member at the end: an earlier
/// member of that name wins, else the new member is found if it has the name.
pub proof fn lemma_find_pushed(members: Members, name: Seq<char>, value: JsonValue, key: Seq<char>)
    ensures
        find_member(members.push((name, value)), key) == if find_member(members, key) is Some {
            find_member(members, key)
        } else if name == key {
            Some(value)
        } else {
            None
        },
    decreases members.len(),
{
    let longer = members.push((name, value));
    if members.len() == 0 {
        let tail = longer.subrange(1, longer.len() as int);
        assert(find_member(tail, key) is None);
    } else {
        let rest = members.subrange(1, members.len() as int);
        assert(longer.subrange(1, longer.len() as int) =~= rest.push((name, value)));
        lemma_find_pushed(rest, name, value, key);
    }
}

/// A type with a JSON form: its model is that form.
pub trait Encode: View<V = JsonValue> {
    /// The JSON form of `self`.
    fn to_json(&self) -> (j: Json)
        ensures
            j@ == self@,
    ;
}

/// The JSON array of the forms of `items`.
pub fn array_json<T: Encode>(items: &Vec<T>) -> (j: Json)
    ensures
        j@ == JsonValue::Array(views(items@)),
{
    let mut out: Vec<Json> = Vec::new();
    let mut i: usize = 0;
    while i < items.len()
        invariant
            i <= items.len(),
            out@.len() == i,
            forall|k: int| 0 <= k < i ==> out@[k]@ == items@[k]@,
        decreases items.len() - i,
    {
        out.push(items[i].to_json());
        i += 1;
    }
    proof {
        lemma_array_model(out);
        assert(items_model(out@) =~= views(items@));
    }
    Json::Array(out)
}

/// The JSON array of `items`.
pub fn integers_json(items: &Vec<i64>) -> (j: Json)
    ensures
        j@ == JsonValue::Array(integers(items@)),
{
    let mut out: Vec<Json> = Vec::new();
    let mut i: usize = 0;
    while i < items.len()
        invariant
            i <= items.len(),
            out@.len() == i,
            forall|k: int| 0 <= k < i ==> out@[k]@ == JsonValue::Integer(items@[k] as int),
        decreases items.len() - i,
    {
        out.push(Json::Integer(items[i]));
        i += 1;
    }
    proof {
        lemma_array_model(out);
        assert(items_model(out@) =~= integers(items@));
    }
    Json::Array(out)
}

/// The JSON array of `items`.
pub fn texts_json(items: &Vec<String>) -> (j: Json)
    ensures
        j@ == JsonValue::Array(texts(items@)),
{
    let mut out: Vec<Json> = Vec::new();
    let mut i: usize = 0;
    while i < items.len()
        invariant
            i <= items.len(),
            out@.len() == i,
            forall|k: int| 0 <= k < i ==> out@[k]@ == JsonValue::Text(items@[k]@),
        decreases items.len() - i,
    {
        out.push(Json::Text(items[i].clone()));
        i += 1;
    }
    proof {
        lemma_array_model(out);
        assert(items_model(out@) =~= texts(items@));
    }
    Json::Array(out)
}

/// The members of an object under construction.
///
/// Each method puts one member after those that are there, as the function of
/// the same name of [`Fields`] says.
pub struct ObjectBuilder {
    members: Vec<Member>,
}

impl View for ObjectBuilder {
    type V = Fields;

    closed spec fn view(&self) -> Fields {
        Fields { list: members_model(self.members@) }
    }
}

impl ObjectBuilder {
    pub fn new() -> (b: ObjectBuilder)
        ensures
            b@ == Fields::new(),
    {
        let b = ObjectBuilder { members: Vec::new() };
        assert(b@.list =~= Fields::new().list);
        b
    }

    /// The object with the members put so far.
    pub fn build(self) -> (j: Json)
        ensures
            j@ == self@.json(),
    {
        proof {
            lemma_object_model(self.members);
        }
        Json::Object(self.members)
    }

    pub fn value(self, name: &str, value: Json) -> (b: ObjectBuilder)
        ensures
            b@ == self@.value(name@, value@),
    {
        let mut members = self.members;
        members.push(Member { name: owned(name), value });
        let b = ObjectBuilder { members };
        proof {
            reveal(Fields::value);
            assert(b@.list =~= self@.value(name@, value@).list);
        }
        b
    }

    pub fn opt_value(self, name: &str, value: Option<Json>) -> (b: ObjectBuilder)
        ensures
            b@ == self@.opt_value(name@, opt_json(value)),
    {
        match value {
            Some(v) => self.value(name, v),
            None => self,
        }
    }

    pub fn integer(self, name: &str, v: i64) -> (b: ObjectBuilder)
        ensures
            b@ == self@.integer(name@, v as int),
    {
        self.value(name, Json::Integer(v))
    }

    pub fn opt_integer(self, name: &str, v: Option<i64>) -> (b: ObjectBuilder)
        ensures
            b@ == self@.opt_integer(name@, v),
    {
        match v {
            Some(i) => self.integer(name, i),
            None => self,
        }
    }

    pub fn boolean(self, name: &str, v: bool) -> (b: ObjectBuilder)
        ensures
            b@ == self@.boolean(name@, v),
    {
        self.value(name, Json::Bool(v))
    }

    pub fn opt_boolean(self, name: &str, v: Option<bool>) -> (b: ObjectBuilder)
        ensures
            b@ == self@.opt_boolean(name@, v),
    {
        match v {
            Some(x) => self.boolean(name, x),
            None => self,
        }
    }

    pub fn text(self, name: &str, v: &str) -> (b: ObjectBuilder)
        ensures
            b@ == self@.text(name@, v@),
    {
        self.value(name, Json::Text(owned(v)))
    }

    pub fn opt_text(self, name: &str, v: &Option<String>) -> (b: ObjectBuilder)
        ensures
            b@ == self@.opt_text(name@, *v),
    {
        match v {
            Some(s) => self.text(name, s.as_str()),
            None => self,
        }
    }

    pub fn nullable_text(self, name: &str, v: &Option<String>) -> (b: ObjectBuilder)
        ensures
            b@ == self@.nullable_text(name@, *v),
    {
        match v {
            Some(s) => self.text(name, s.as_str()),
            None => self.value(name, Json::Null),
        }
    }

    pub fn opt_json(self, name: &str, v: &Option<Json>) -> (b: ObjectBuilder)
        ensures
            b@ == self@.opt_value(name@, opt_json(*v)),
    {
        match v {
            Some(j) => self.value(name, j.copy()),
            None => self,
        }
    }

    pub fn record<T: Encode>(self, name: &str, v: &T) -> (b: ObjectBuilder)
        ensures
            b@ == self@.value(name@, v@),
    {
        self.value(name, v.to_json())
    }

    pub fn opt_record<T: Encode>(self, name: &str, v: &Option<T>) -> (b: ObjectBuilder)
        ensures
            b@ == self@.opt_value(name@, opt_view(*v)),
    {
        match v {
            Some(r) => self.value(name, r.to_json()),
            None => self,
        }
    }

    pub fn records<T: Encode>(self, name: &str, v: &Vec<T>) -> (b: ObjectBuilder)
        ensures
            b@ == self@.array(name@, views(v@)),
    {
        self.value(name, array_json(v))
    }

    pub fn opt_records<T: Encode>(self, name: &str, v: &Option<Vec<T>>) -> (b: ObjectBuilder)
        ensures
            b@ == self@.opt_array(name@, opt_views(*v)),
    {
        match v {
            Some(items) => self.value(name, array_json(items)),
            None => self,
        }
    }

    pub fn opt_integers(self, name: &str, v: &Option<Vec<i64>>) -> (b: ObjectBuilder)
        ensures
            b@ == self@.opt_array(name@, opt_integers(*v)),
    {
        match v {
            Some(items) => self.value(name, integers_json(items)),
            None => self,
        }
    }

    pub fn opt_texts(self, name: &str, v: &Option<Vec<String>>) -> (b: ObjectBuilder)
        ensures
            b@ == self@.opt_array(name@, opt_texts(*v)),
    {
        match v {
            Some(items) => self.value(name, texts_json(items)),
            None => self,
        }
    }
}

} // verus!
