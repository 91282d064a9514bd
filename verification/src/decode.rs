//! Reading records out of JSON values.
//!
//! A record is read member by member, in the order in which its type lists
//! them. The first member that is missing or of the wrong kind is the flaw of
//! the value, and the error of the reading.

use crate::json::{
    integers, items_model, lemma_array_model, lemma_object_model, members_model, opt_integers,
    opt_texts, texts, Json, JsonValue, Members,
};
use crate::text::{opt_text, owned};
use vstd::prelude::*;
use vstd::string::*;

verus! {

/// Why a JSON value is not a record of the expected shape.
pub enum Flaw {
    /// The value is not an object.
    NotAnObject,
    /// A member that must be there is not.
    MissingField(Seq<char>),
    /// A member holds a value of the wrong kind.
    InvalidField(Seq<char>),
}

/// Why a JSON value could not be decoded.
#[derive(Debug, Clone, PartialEq, Eq)]
pub enum DecodeError {
    NotAnObject,
    MissingField(String),
    InvalidField(String),
}

impl View for DecodeError {
    type V = Flaw;

    open spec fn view(&self) -> Flaw {
        match self {
            DecodeError::NotAnObject => Flaw::NotAnObject,
            DecodeError::MissingField(name) => Flaw::MissingField(name@),
            DecodeError::InvalidField(name) => Flaw::InvalidField(name@),
        }
    }
}

/// The text that tells a flaw to the client.
pub open spec fn flaw_text(f: Flaw) -> Seq<char> {
    match f {
        Flaw::NotAnObject => "invalid type: expected an object"@,
        Flaw::MissingField(name) => "missing field `"@ + name + "`"@,
        Flaw::InvalidField(name) => "invalid value for field `"@ + name + "`"@,
    }
}

impl DecodeError {
    /// The text that tells the error to the client.
    pub fn message(&self) -> (m: String)
        ensures
            m@ == flaw_text(self@),
    {
        match self {
            DecodeError::NotAnObject => owned("invalid type: expected an object"),
            DecodeError::MissingField(name) => owned("missing field `").concat(
                name.as_str(),
            ).concat("`"),
            DecodeError::InvalidField(name) => owned("invalid value for field `").concat(
                name.as_str(),
            ).concat("`"),
        }
    }
}

/// The first of two flaws that is there.
pub open spec fn or_flaw(first: Option<Flaw>, second: Option<Flaw>) -> Option<Flaw> {
    if first is Some {
        first
    } else {
        second
    }
}

/// The flaw in a result, if it is one.
pub open spec fn flaw_of<T>(r: Result<T, Flaw>) -> Option<Flaw> {
    match r {
        Ok(_) => None,
        Err(f) => Some(f),
    }
}

/// An optional integer, in the model.
pub open spec fn opt_int(v: Option<i64>) -> Option<int> {
    match v {
        Some(i) => Some(i as int),
        None => None,
    }
}

/// An optional port number, in the model.
pub open spec fn opt_port(v: Option<u16>) -> Option<int> {
    match v {
        Some(i) => Some(i as int),
        None => None,
    }
}

/// The names and strings of members that all hold strings.
pub open spec fn text_pairs(pairs: Seq<(String, String)>) -> Members {
    Seq::new(pairs.len(), |i: int| (pairs[i].0@, JsonValue::Text(pairs[i].1@)))
}

/// The members of an optional list of names and strings.
pub open spec fn opt_text_pairs(pairs: Option<Vec<(String, String)>>) -> Option<Members> {
    match pairs {
        Some(v) => Some(text_pairs(v@)),
        None => None,
    }
}

/// Whether every item is an integer.
pub open spec fn all_integers(items: Seq<JsonValue>) -> bool {
    forall|i: int| 0 <= i < items.len() ==> (#[trigger] items[i]) is Integer
}

/// Whether every item is a string.
pub open spec fn all_texts(items: Seq<JsonValue>) -> bool {
    forall|i: int| 0 <= i < items.len() ==> (#[trigger] items[i]) is Text
}

/// Whether every member holds a string.
pub open spec fn all_text_members(members: Members) -> bool {
    forall|i: int| 0 <= i < members.len() ==> (#[trigger] members[i]).1 is Text
}

impl JsonValue {
    /// The flaw of a value that must be an object.
    pub open spec fn object_flaw(self) -> Option<Flaw> {
        if self is Object {
            None
        } else {
            Some(Flaw::NotAnObject)
        }
    }

    /// An optional integer member: absent or null is `None`.
    pub open spec fn integer_at(self, name: Seq<char>) -> Result<Option<int>, Flaw> {
        match self.member(name) {
            None => Ok(None),
            Some(JsonValue::Null) => Ok(None),
            Some(JsonValue::Integer(i)) => Ok(Some(i)),
            Some(_) => Err(Flaw::InvalidField(name)),
        }
    }

    /// An integer member that must be there.
    pub open spec fn required_integer_at(self, name: Seq<char>) -> Result<int, Flaw> {
        match self.member(name) {
            None => Err(Flaw::MissingField(name)),
            Some(JsonValue::Integer(i)) => Ok(i),
            Some(_) => Err(Flaw::InvalidField(name)),
        }
    }

    /// An optional boolean member: absent or null is `None`.
    pub open spec fn bool_at(self, name: Seq<char>) -> Result<Option<bool>, Flaw> {
        match self.member(name) {
            None => Ok(None),
            Some(JsonValue::Null) => Ok(None),
            Some(JsonValue::Bool(b)) => Ok(Some(b)),
            Some(_) => Err(Flaw::InvalidField(name)),
        }
    }

    /// A boolean member that is `false` where it is absent.
    pub open spec fn flag_at(self, name: Seq<char>) -> Result<bool, Flaw> {
        match self.member(name) {
            None => Ok(false),
            Some(JsonValue::Bool(b)) => Ok(b),
            Some(_) => Err(Flaw::InvalidField(name)),
        }
    }

    /// A boolean member that must be there.
    pub open spec fn required_bool_at(self, name: Seq<char>) -> Result<bool, Flaw> {
        match self.member(name) {
            None => Err(Flaw::MissingField(name)),
            Some(JsonValue::Bool(b)) => Ok(b),
            Some(_) => Err(Flaw::InvalidField(name)),
        }
    }

    /// An optional string member: absent or null is `None`.
    pub open spec fn text_at(self, name: Seq<char>) -> Result<Option<Seq<char>>, Flaw> {
        match self.member(name) {
            None => Ok(None),
            Some(JsonValue::Null) => Ok(None),
            Some(JsonValue::Text(s)) => Ok(Some(s)),
            Some(_) => Err(Flaw::InvalidField(name)),
        }
    }

    /// A string member that must be there.
    pub open spec fn required_text_at(self, name: Seq<char>) -> Result<Seq<char>, Flaw> {
        match self.member(name) {
            None => Err(Flaw::MissingField(name)),
            Some(JsonValue::Text(s)) => Ok(s),
            Some(_) => Err(Flaw::InvalidField(name)),
        }
    }

    /// An optional member that is a port number: an integer from 0 to 65535.
    pub open spec fn port_at(self, name: Seq<char>) -> Result<Option<int>, Flaw> {
        match self.integer_at(name) {
            Ok(Some(i)) => if 0 <= i <= 65535 {
                Ok(Some(i))
            } else {
                Err(Flaw::InvalidField(name))
            },
            other => other,
        }
    }

    /// An optional array member: absent or null is `None`.
    pub open spec fn array_at(self, name: Seq<char>) -> Result<Option<Seq<JsonValue>>, Flaw> {
        match self.member(name) {
            None => Ok(None),
            Some(JsonValue::Null) => Ok(None),
            Some(JsonValue::Array(items)) => Ok(Some(items)),
            Some(_) => Err(Flaw::InvalidField(name)),
        }
    }

    /// An optional member that is an array of integers.
    pub open spec fn integers_at(self, name: Seq<char>) -> Result<Option<Seq<JsonValue>>, Flaw> {
        match self.array_at(name) {
            Ok(Some(items)) => if all_integers(items) {
                Ok(Some(items))
            } else {
                Err(Flaw::InvalidField(name))
            },
            other => other,
        }
    }

    /// An optional member that is an array of strings.
    pub open spec fn texts_at(self, name: Seq<char>) -> Result<Option<Seq<JsonValue>>, Flaw> {
        match self.array_at(name) {
            Ok(Some(items)) => if all_texts(items) {
                Ok(Some(items))
            } else {
                Err(Flaw::InvalidField(name))
            },
            other => other,
        }
    }

    /// An optional member that is an object whose members all hold strings.
    pub open spec fn text_map_at(self, name: Seq<char>) -> Result<Option<Members>, Flaw> {
        match self.member(name) {
            None => Ok(None),
            Some(JsonValue::Null) => Ok(None),
            Some(JsonValue::Object(members)) => if all_text_members(members) {
                Ok(Some(members))
            } else {
                Err(Flaw::InvalidField(name))
            },
            Some(_) => Err(Flaw::InvalidField(name)),
        }
    }

    /// The flaw of an optional member that holds a `T`.
    pub open spec fn record_flaw_at<T: Decode>(self, name: Seq<char>) -> Option<Flaw> {
        match self.value_at(name) {
            Some(v) => T::flaw(v),
            None => None,
        }
    }

    /// Whether `a` is what an optional member that holds a `T` holds.
    pub open spec fn record_decodes_at<T: Decode>(self, name: Seq<char>, a: Option<T>) -> bool {
        match self.value_at(name) {
            Some(v) => a matches Some(r) && T::decodes(v, r),
            None => a is None,
        }
    }

    /// The flaw of a member that must be there and holds a `T`.
    pub open spec fn required_record_flaw_at<T: Decode>(self, name: Seq<char>) -> Option<Flaw> {
        match self.member(name) {
            Some(v) => T::flaw(v),
            None => Some(Flaw::MissingField(name)),
        }
    }

    /// Whether `a` is what a member that must be there and holds a `T` holds.
    pub open spec fn required_record_decodes_at<T: Decode>(self, name: Seq<char>, a: T) -> bool {
        match self.member(name) {
            Some(v) => T::decodes(v, a),
            None => false,
        }
    }

    /// The flaw of an optional member that holds an array of `T`.
    pub open spec fn records_flaw_at<T: Decode>(self, name: Seq<char>) -> Option<Flaw> {
        match self.array_at(name) {
            Ok(Some(items)) => items_flaw::<T>(items),
            Ok(None) => None,
            Err(f) => Some(f),
        }
    }

    /// Whether `a` is what an optional member that holds an array of `T` holds.
    pub open spec fn records_decode_at<T: Decode>(
        self,
        name: Seq<char>,
        a: Option<Vec<T>>,
    ) -> bool {
        match self.array_at(name) {
            Ok(Some(items)) => a matches Some(v) && items_decode::<T>(items, v@),
            _ => a is None,
        }
    }
}

impl Json {
    /// Fails unless `self` is an object.
    pub fn expect_object(&self) -> (res: Result<(), DecodeError>)
        ensures
            match res {
                Ok(_) => self@.object_flaw() is None,
                Err(e) => self@.object_flaw() == Some(e@),
            },
    {
        if self.is_object() {
            Ok(())
        } else {
            Err(DecodeError::NotAnObject)
        }
    }

    /// An optional integer member.
    pub fn integer_at(&self, name: &str) -> (res: Result<Option<i64>, DecodeError>)
        ensures
            match res {
                Ok(v) => self@.integer_at(name@) == Ok::<Option<int>, Flaw>(opt_int(v)),
                Err(e) => self@.integer_at(name@) == Err::<Option<int>, Flaw>(e@),
            },
    {
        match self.member(name) {
            None => Ok(None),
            Some(Json::Null) => Ok(None),
            Some(Json::Integer(i)) => Ok(Some(*i)),
            Some(_) => Err(DecodeError::InvalidField(owned(name))),
        }
    }

    /// An integer member that must be there.
    pub fn required_integer_at(&self, name: &str) -> (res: Result<i64, DecodeError>)
        ensures
            match res {
                Ok(v) => self@.required_integer_at(name@) == Ok::<int, Flaw>(v as int),
                Err(e) => self@.required_integer_at(name@) == Err::<int, Flaw>(e@),
            },
    {
        match self.member(name) {
            None => Err(DecodeError::MissingField(owned(name))),
            Some(Json::Integer(i)) => Ok(*i),
            Some(_) => Err(DecodeError::InvalidField(owned(name))),
        }
    }

    /// An optional boolean member.
    pub fn bool_at(&self, name: &str) -> (res: Result<Option<bool>, DecodeError>)
        ensures
            match res {
                Ok(v) => self@.bool_at(name@) == Ok::<Option<bool>, Flaw>(v),
                Err(e) => self@.bool_at(name@) == Err::<Option<bool>, Flaw>(e@),
            },
    {
        match self.member(name) {
            None => Ok(None),
            Some(Json::Null) => Ok(None),
            Some(Json::Bool(b)) => Ok(Some(*b)),
            Some(_) => Err(DecodeError::InvalidField(owned(name))),
        }
    }

    /// A boolean member that is `false` where it is absent.
    pub fn flag_at(&self, name: &str) -> (res: Result<bool, DecodeError>)
        ensures
            match res {
                Ok(v) => self@.flag_at(name@) == Ok::<bool, Flaw>(v),
                Err(e) => self@.flag_at(name@) == Err::<bool, Flaw>(e@),
            },
    {
        match self.member(name) {
            None => Ok(false),
            Some(Json::Bool(b)) => Ok(*b),
            Some(_) => Err(DecodeError::InvalidField(owned(name))),
        }
    }

    /// A boolean member that must be there.
    pub fn required_bool_at(&self, name: &str) -> (res: Result<bool, DecodeError>)
        ensures
            match res {
                Ok(v) => self@.required_bool_at(name@) == Ok::<bool, Flaw>(v),
                Err(e) => self@.required_bool_at(name@) == Err::<bool, Flaw>(e@),
            },
    {
        match self.member(name) {
            None => Err(DecodeError::MissingField(owned(name))),
            Some(Json::Bool(b)) => Ok(*b),
            Some(_) => Err(DecodeError::InvalidField(owned(name))),
        }
    }

    /// An optional string member.
    pub fn text_at(&self, name: &str) -> (res: Result<Option<String>, DecodeError>)
        ensures
            match res {
                Ok(v) => self@.text_at(name@) == Ok::<Option<Seq<char>>, Flaw>(opt_text(v)),
                Err(e) => self@.text_at(name@) == Err::<Option<Seq<char>>, Flaw>(e@),
            },
    {
        match self.member(name) {
            None => Ok(None),
            Some(Json::Null) => Ok(None),
            Some(Json::Text(s)) => Ok(Some(s.clone())),
            Some(_) => Err(DecodeError::InvalidField(owned(name))),
        }
    }

    /// A string member that must be there.
    pub fn required_text_at(&self, name: &str) -> (res: Result<String, DecodeError>)
        ensures
            match res {
                Ok(v) => self@.required_text_at(name@) == Ok::<Seq<char>, Flaw>(v@),
                Err(e) => self@.required_text_at(name@) == Err::<Seq<char>, Flaw>(e@),
            },
    {
        match self.member(name) {
            None => Err(DecodeError::MissingField(owned(name))),
            Some(Json::Text(s)) => Ok(s.clone()),
            Some(_) => Err(DecodeError::InvalidField(owned(name))),
        }
    }

    /// An optional member that is a port number.
    pub fn port_at(&self, name: &str) -> (res: Result<Option<u16>, DecodeError>)
        ensures
            match res {
                Ok(v) => self@.port_at(name@) == Ok::<Option<int>, Flaw>(opt_port(v)),
                Err(e) => self@.port_at(name@) == Err::<Option<int>, Flaw>(e@),
            },
    {
        match self.integer_at(name)? {
            Some(i) => {
                if 0 <= i && i <= 65535 {
                    Ok(Some(i as u16))
                } else {
                    Err(DecodeError::InvalidField(owned(name)))
                }
            },
            None => Ok(None),
        }
    }

    /// An optional array member.
    pub fn array_at(&self, name: &str) -> (res: Result<Option<&Vec<Json>>, DecodeError>)
        ensures
            match res {
                Ok(Some(items)) => self@.array_at(name@) == Ok::<Option<Seq<JsonValue>>, Flaw>(
                    Some(items_model(items@)),
                ),
                Ok(None) => self@.array_at(name@) == Ok::<Option<Seq<JsonValue>>, Flaw>(None),
                Err(e) => self@.array_at(name@) == Err::<Option<Seq<JsonValue>>, Flaw>(e@),
            },
            res matches Ok(Some(items)) ==> decreases_to!(self => items),
    {
        match self.member(name) {
            None => Ok(None),
            Some(Json::Null) => Ok(None),
            Some(Json::Array(items)) => {
                proof {
                    lemma_array_model(*items);
                }
                Ok(Some(items))
            },
            Some(_) => Err(DecodeError::InvalidField(owned(name))),
        }
    }

    /// An optional member that is an array of integers.
    pub fn integers_at(&self, name: &str) -> (res: Result<Option<Vec<i64>>, DecodeError>)
        ensures
            match res {
                Ok(v) => self@.integers_at(name@) == Ok::<Option<Seq<JsonValue>>, Flaw>(
                    opt_integers(v),
                ),
                Err(e) => self@.integers_at(name@) == Err::<Option<Seq<JsonValue>>, Flaw>(e@),
            },
    {
        let items = match self.array_at(name)? {
            Some(items) => items,
            None => { return Ok(None); },
        };
        let mut out: Vec<i64> = Vec::new();
        let mut i: usize = 0;
        while i < items.len()
            invariant
                i <= items.len(),
                out@.len() == i,
                self@.array_at(name@) == Ok::<Option<Seq<JsonValue>>, Flaw>(
                    Some(items_model(items@)),
                ),
                forall|k: int| 0 <= k < i ==> items@[k]@ == JsonValue::Integer(out@[k] as int),
            decreases items.len() - i,
        {
            match &items[i] {
                Json::Integer(v) => out.push(*v),
                _ => {
                    assert(!(items_model(items@)[i as int] is Integer));
                    return Err(DecodeError::InvalidField(owned(name)));
                },
            }
            i += 1;
        }
        assert(items_model(items@) =~= integers(out@));
        Ok(Some(out))
    }

    /// An optional member that is an array of strings.
    pub fn texts_at(&self, name: &str) -> (res: Result<Option<Vec<String>>, DecodeError>)
        ensures
            match res {
                Ok(v) => self@.texts_at(name@) == Ok::<Option<Seq<JsonValue>>, Flaw>(opt_texts(v)),
                Err(e) => self@.texts_at(name@) == Err::<Option<Seq<JsonValue>>, Flaw>(e@),
            },
    {
        let items = match self.array_at(name)? {
            Some(items) => items,
            None => { return Ok(None); },
        };
        let mut out: Vec<String> = Vec::new();
        let mut i: usize = 0;
        while i < items.len()
            invariant
                i <= items.len(),
                out@.len() == i,
                self@.array_at(name@) == Ok::<Option<Seq<JsonValue>>, Flaw>(
                    Some(items_model(items@)),
                ),
                forall|k: int| 0 <= k < i ==> items@[k]@ == JsonValue::Text(out@[k]@),
            decreases items.len() - i,
        {
            match &items[i] {
                Json::Text(v) => out.push(v.clone()),
                _ => {
                    assert(!(items_model(items@)[i as int] is Text));
                    return Err(DecodeError::InvalidField(owned(name)));
                },
            }
            i += 1;
        }
        assert(items_model(items@) =~= texts(out@));
        Ok(Some(out))
    }

    /// An optional member that is an object whose members all hold strings.
    pub fn text_map_at(&self, name: &str) -> (res: Result<
        Option<Vec<(String, String)>>,
        DecodeError,
    >)
        ensures
            match res {
                Ok(v) => self@.text_map_at(name@) == Ok::<Option<Members>, Flaw>(
                    opt_text_pairs(v),
                ),
                Err(e) => self@.text_map_at(name@) == Err::<Option<Members>, Flaw>(e@),
            },
    {
        let members = match self.member(name) {
            None => { return Ok(None); },
            Some(Json::Null) => { return Ok(None); },
            Some(Json::Object(members)) => {
                proof {
                    lemma_object_model(*members);
                }
                members
            },
            Some(_) => { return Err(DecodeError::InvalidField(owned(name))); },
        };
        let mut out: Vec<(String, String)> = Vec::new();
        let mut i: usize = 0;
        while i < members.len()
            invariant
                i <= members.len(),
                out@.len() == i,
                self@.member(name@) == Some(JsonValue::Object(members_model(members@))),
                forall|k: int|
                    0 <= k < i ==> members@[k].name@ == out@[k].0@ && members@[k].value@
                        == JsonValue::Text(out@[k].1@),
            decreases members.len() - i,
        {
            match &members[i].value {
                Json::Text(v) => out.push((members[i].name.clone(), v.clone())),
                _ => {
                    assert(!(members_model(members@)[i as int].1 is Text));
                    return Err(DecodeError::InvalidField(owned(name)));
                },
            }
            i += 1;
        }
        assert(members_model(members@) =~= text_pairs(out@));
        Ok(Some(out))
    }

    /// An optional member that holds a `T`.
    pub fn record_at<T: Decode>(&self, name: &str) -> (res: Result<Option<T>, DecodeError>)
        ensures
            match res {
                Ok(a) => self@.record_flaw_at::<T>(name@) is None && self@.record_decodes_at::<T>(
                    name@,
                    a,
                ),
                Err(e) => self@.record_flaw_at::<T>(name@) == Some(e@),
            },
    {
        match self.value_at(name) {
            Some(v) => Ok(Some(T::from_json(v)?)),
            None => Ok(None),
        }
    }

    /// A member that must be there and holds a `T`.
    pub fn required_record_at<T: Decode>(&self, name: &str) -> (res: Result<T, DecodeError>)
        ensures
            match res {
                Ok(a) => self@.required_record_flaw_at::<T>(name@) is None
                    && self@.required_record_decodes_at::<T>(name@, a),
                Err(e) => self@.required_record_flaw_at::<T>(name@) == Some(e@),
            },
    {
        match self.member(name) {
            Some(v) => T::from_json(v),
            None => Err(DecodeError::MissingField(owned(name))),
        }
    }

    /// An optional member that holds an array of `T`.
    pub fn records_at<T: Decode>(&self, name: &str) -> (res: Result<Option<Vec<T>>, DecodeError>)
        ensures
            match res {
                Ok(a) => self@.records_flaw_at::<T>(name@) is None && self@.records_decode_at::<T>(
                    name@,
                    a,
                ),
                Err(e) => self@.records_flaw_at::<T>(name@) == Some(e@),
            },
    {
        match self.array_at(name)? {
            Some(items) => Ok(Some(decode_items::<T>(items)?)),
            None => Ok(None),
        }
    }
}

/// A type that is read from a JSON value.
pub trait Decode: Sized {
    /// Why `j` is not a value of this type, if it is not.
    spec fn flaw(j: JsonValue) -> Option<Flaw>;

    /// Whether `a` is what `j` holds.
    spec fn decodes(j: JsonValue, a: Self) -> bool;

    /// Reads a value of this type from `j`.
    fn from_json(j: &Json) -> (res: Result<Self, DecodeError>)
        ensures
            match res {
                Ok(a) => Self::flaw(j@) is None && Self::decodes(j@, a),
                Err(e) => Self::flaw(j@) == Some(e@),
            },
    ;
}

/// The first flaw among the items of an array that holds values of type `T`.
pub open spec fn items_flaw<T: Decode>(items: Seq<JsonValue>) -> Option<Flaw>
    decreases items.len(),
{
    if items.len() == 0 {
        None
    } else {
        or_flaw(T::flaw(items[0]), items_flaw::<T>(items.subrange(1, items.len() as int)))
    }
}

/// Whether `out` holds, item by item, what `items` holds.
pub open spec fn items_decode<T: Decode>(items: Seq<JsonValue>, out: Seq<T>) -> bool {
    &&& out.len() == items.len()
    &&& forall|i: int| 0 <= i < items.len() ==> T::decodes(items[i], #[trigger] out[i])
}

/// Reads every item of an array as a `T`; the first flaw met is the error.
pub fn decode_items<T: Decode>(items: &Vec<Json>) -> (res: Result<Vec<T>, DecodeError>)
    ensures
        match res {
            Ok(v) => items_flaw::<T>(items_model(items@)) is None && items_decode::<T>(
                items_model(items@),
                v@,
            ),
            Err(e) => items_flaw::<T>(items_model(items@)) == Some(e@),
        },
{
    let ghost all = items_model(items@);
    let mut out: Vec<T> = Vec::new();
    let mut i: usize = 0;
    assert(all.subrange(0, all.len() as int) =~= all);
    while i < items.len()
        invariant
            i <= items.len(),
            out@.len() == i,
            all == items_model(items@),
            items_flaw::<T>(all) == items_flaw::<T>(all.subrange(i as int, all.len() as int)),
            forall|k: int| 0 <= k < i ==> T::decodes(all[k], #[trigger] out@[k]),
        decreases items.len() - i,
    {
        let ghost rest = all.subrange(i as int, all.len() as int);
        assert(rest.subrange(1, rest.len() as int) =~= all.subrange(
            i as int + 1,
            all.len() as int,
        ));
        match T::from_json(&items[i]) {
            Ok(v) => out.push(v),
            Err(e) => { return Err(e); },
        }
        i += 1;
    }
    Ok(out)
}

/// A JSON value under inspection, with the first flaw found so far.
///
/// The checks of a record are written as a chain, in the order of its members;
/// the flaw that stays is that of the first check that fails. Each function
/// checks the member of the given name as the function of [`JsonValue`] whose
/// name ends in `_at` reads it.
pub struct Scan {
    pub value: JsonValue,
    pub flaw: Option<Flaw>,
}

impl Scan {
    /// Starts the inspection of a value that must be an object.
    pub open spec fn object(value: JsonValue) -> Scan {
        Scan { value, flaw: value.object_flaw() }
    }

    /// One more check.
    pub open spec fn check(self, next: Option<Flaw>) -> Scan {
        Scan { value: self.value, flaw: or_flaw(self.flaw, next) }
    }

    pub open spec fn required_integer(self, name: Seq<char>) -> Scan {
        self.check(flaw_of(self.value.required_integer_at(name)))
    }

    pub open spec fn integer(self, name: Seq<char>) -> Scan {
        self.check(flaw_of(self.value.integer_at(name)))
    }

    pub open spec fn port(self, name: Seq<char>) -> Scan {
        self.check(flaw_of(self.value.port_at(name)))
    }

    pub open spec fn boolean(self, name: Seq<char>) -> Scan {
        self.check(flaw_of(self.value.bool_at(name)))
    }

    pub open spec fn flag(self, name: Seq<char>) -> Scan {
        self.check(flaw_of(self.value.flag_at(name)))
    }

    pub open spec fn required_text(self, name: Seq<char>) -> Scan {
        self.check(flaw_of(self.value.required_text_at(name)))
    }

    pub open spec fn text(self, name: Seq<char>) -> Scan {
        self.check(flaw_of(self.value.text_at(name)))
    }

    pub open spec fn integers(self, name: Seq<char>) -> Scan {
        self.check(flaw_of(self.value.integers_at(name)))
    }

    pub open spec fn texts(self, name: Seq<char>) -> Scan {
        self.check(flaw_of(self.value.texts_at(name)))
    }

    pub open spec fn text_map(self, name: Seq<char>) -> Scan {
        self.check(flaw_of(self.value.text_map_at(name)))
    }

    pub open spec fn record<T: Decode>(self, name: Seq<char>) -> Scan {
        self.check(self.value.record_flaw_at::<T>(name))
    }

    pub open spec fn required_record<T: Decode>(self, name: Seq<char>) -> Scan {
        self.check(self.value.required_record_flaw_at::<T>(name))
    }

    pub open spec fn records<T: Decode>(self, name: Seq<char>) -> Scan {
        self.check(self.value.records_flaw_at::<T>(name))
    }
}

} // verus!
