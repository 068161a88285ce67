//! JSON values as the patterns and the matcher see them.

use vstd::prelude::*;
use crate::assoc::{first_named, lemma_first_named};

verus! {

/// The six kinds of JSON value.
#[derive(Clone, Copy, Debug, PartialEq, Eq, Structural)]
pub enum JsonKind {
    Null,
    Bool,
    Number,
    String,
    Array,
    Object,
}

/// A JSON value.
///
/// A number is carried as the bit pattern of a 64-bit IEEE 754 float, so two
/// numbers are the same value exactly when their bits are the same. An object
/// is a list of fields in the order they were given; a field is found by the
/// first entry that has its name.
#[derive(Debug)]
pub enum JsonValue {
    Null,
    Bool(bool),
    Number(u64),
    String(String),
    Array(Vec<JsonValue>),
    Object(Vec<(String, JsonValue)>),
}

/// What a [`JsonValue`] stands for.
pub ghost enum JsonModel {
    Null,
    Bool(bool),
    Number(u64),
    String(Seq<char>),
    Array(Seq<JsonModel>),
    Object(Seq<(Seq<char>, JsonModel)>),
}

impl JsonModel {
    /// The kind of this value.
    pub open spec fn kind(self) -> JsonKind {
        match self {
            JsonModel::Null => JsonKind::Null,
            JsonModel::Bool(_) => JsonKind::Bool,
            JsonModel::Number(_) => JsonKind::Number,
            JsonModel::String(_) => JsonKind::String,
            JsonModel::Array(_) => JsonKind::Array,
            JsonModel::Object(_) => JsonKind::Object,
        }
    }
}

/// What `value` stands for.
pub open spec fn value_model(value: JsonValue) -> JsonModel
    decreases value,
{
    match value {
        JsonValue::Null => JsonModel::Null,
        JsonValue::Bool(b) => JsonModel::Bool(b),
        JsonValue::Number(n) => JsonModel::Number(n),
        JsonValue::String(s) => JsonModel::String(s@),
        JsonValue::Array(items) => JsonModel::Array(
            Seq::new(
                items@.len(),
                |i: int|
                    if 0 <= i < items@.len() {
                        value_model(items@[i])
                    } else {
                        JsonModel::Null
                    },
            ),
        ),
        JsonValue::Object(fields) => JsonModel::Object(
            Seq::new(
                fields@.len(),
                |i: int|
                    if 0 <= i < fields@.len() {
                        (fields@[i].0@, value_model(fields@[i].1))
                    } else {
                        (Seq::empty(), JsonModel::Null)
                    },
            ),
        ),
    }
}

impl View for JsonValue {
    type V = JsonModel;

    open spec fn view(&self) -> JsonModel {
        value_model(*self)
    }
}

impl JsonValue {
    /// The kind of this value.
    pub fn kind(&self) -> (k: JsonKind)
        ensures
            k == self@.kind(),
    {
        match self {
            JsonValue::Null => JsonKind::Null,
            JsonValue::Bool(_) => JsonKind::Bool,
            JsonValue::Number(_) => JsonKind::Number,
            JsonValue::String(_) => JsonKind::String,
            JsonValue::Array(_) => JsonKind::Array,
            JsonValue::Object(_) => JsonKind::Object,
        }
    }
}

impl JsonValue {
    /// The field called `name` of an object: the value of the first entry
    /// with that name. A value that is no object has no fields.
    pub fn field(&self, name: &String) -> (r: Option<&JsonValue>)
        ensures
            match r {
                Some(found) => self@ is Object && first_named(self@->Object_0, name@) == Some(found@),
                None => self@ is Object ==> first_named(self@->Object_0, name@) is None,
            },
    {
        match self {
            JsonValue::Object(fields) => {
                let ghost model = self@->Object_0;
                let mut i: usize = 0;
                while i < fields.len()
                    invariant
                        self is Object,
                        self->Object_0 == *fields,
                        i <= fields.len(),
                        model == self@->Object_0,
                        forall|j: int| 0 <= j < i ==> (#[trigger] model[j]).0 != name@,
                    decreases fields.len() - i,
                {
                    if fields[i].0 == *name {
                        proof {
                            lemma_first_named(model, name@, i as int);
                        }
                        return Some(&fields[i].1);
                    }
                    i += 1;
                }
                proof {
                    lemma_first_named(model, name@, i as int);
                }
                None
            },
            _ => None,
        }
    }
}

impl JsonValue {
    /// Whether the two stand for the same value: the same kind, the same
    /// content, and for an object the same fields in the same order.
    pub fn same_as(&self, other: &JsonValue) -> (r: bool)
        ensures
            r == (self@ == other@),
        decreases self,
    {
        match (self, other) {
            (JsonValue::Null, JsonValue::Null) => true,
            (JsonValue::Bool(a), JsonValue::Bool(b)) => *a == *b,
            (JsonValue::Number(a), JsonValue::Number(b)) => *a == *b,
            (JsonValue::String(a), JsonValue::String(b)) => *a == *b,
            (JsonValue::Array(a), JsonValue::Array(b)) => {
                if a.len() != b.len() {
                    assert(self@->Array_0.len() != other@->Array_0.len());
                    return false;
                }
                let mut i: usize = 0;
                while i < a.len()
                    invariant
                        self is Array,
                        self->Array_0 == *a,
                        other is Array,
                        other->Array_0 == *b,
                        a.len() == b.len(),
                        i <= a.len(),
                        forall|j: int| 0 <= j < i ==> (#[trigger] a@[j])@ == b@[j]@,
                    decreases a.len() - i,
                {
                    assert(decreases_to!(self => self->Array_0@[i as int]));
                    if !a[i].same_as(&b[i]) {
                        assert(self@->Array_0[i as int] != other@->Array_0[i as int]);
                        return false;
                    }
                    i += 1;
                }
                assert(self@->Array_0 =~= other@->Array_0);
                true
            },
            (JsonValue::Object(a), JsonValue::Object(b)) => {
                if a.len() != b.len() {
                    assert(self@->Object_0.len() != other@->Object_0.len());
                    return false;
                }
                let mut i: usize = 0;
                while i < a.len()
                    invariant
                        self is Object,
                        self->Object_0 == *a,
                        other is Object,
                        other->Object_0 == *b,
                        a.len() == b.len(),
                        i <= a.len(),
                        forall|j: int| 0 <= j < i ==> (#[trigger] a@[j]).0@ == b@[j].0@ && a@[j].1@ == b@[j].1@,
                    decreases a.len() - i,
                {
                    assert(decreases_to!(self => self->Object_0@[i as int].1));
                    if !(a[i].0 == b[i].0) || !a[i].1.same_as(&b[i].1) {
                        assert(self@->Object_0[i as int] != other@->Object_0[i as int]);
                        return false;
                    }
                    i += 1;
                }
                assert(self@->Object_0 =~= other@->Object_0);
                true
            },
            _ => false,
        }
    }
}

impl Clone for JsonValue {
    /// A copy that stands for the same value.
    fn clone(&self) -> (r: JsonValue)
        ensures
            r@ == self@,
        decreases self,
    {
        match self {
            JsonValue::Null => JsonValue::Null,
            JsonValue::Bool(b) => JsonValue::Bool(*b),
            JsonValue::Number(n) => JsonValue::Number(*n),
            JsonValue::String(s) => JsonValue::String(s.clone()),
            JsonValue::Array(items) => {
                let mut out: Vec<JsonValue> = Vec::new();
                let mut i: usize = 0;
                while i < items.len()
                    invariant
                        self is Array,
                        self->Array_0 == *items,
                        i <= items.len(),
                        out.len() == i,
                        forall|j: int| 0 <= j < i ==> (#[trigger] out@[j])@ == items@[j]@,
                    decreases items.len() - i,
                {
                    assert(decreases_to!(self => self->Array_0@[i as int]));
                    out.push(items[i].clone());
                    i += 1;
                }
                let r = JsonValue::Array(out);
                assert(r@->Array_0 =~= self@->Array_0);
                r
            },
            JsonValue::Object(fields) => {
                let mut out: Vec<(String, JsonValue)> = Vec::new();
                let mut i: usize = 0;
                while i < fields.len()
                    invariant
                        self is Object,
                        self->Object_0 == *fields,
                        i <= fields.len(),
                        out.len() == i,
                        forall|j: int| 0 <= j < i ==> (#[trigger] out@[j]).0@ == fields@[j].0@
                            && out@[j].1@ == fields@[j].1@,
                    decreases fields.len() - i,
                {
                    assert(decreases_to!(self => self->Object_0@[i as int].1));
                    out.push((fields[i].0.clone(), fields[i].1.clone()));
                    i += 1;
                }
                let r = JsonValue::Object(out);
                assert(r@->Object_0 =~= self@->Object_0);
                r
            },
        }
    }
}

} // verus!
