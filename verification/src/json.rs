//! JSON values: the model that the decoders read, and the reading of a JSON
//! text into it.

use vstd::prelude::*;

use crate::error::DecodeError;

verus! {

/// A JSON number, kept as `serde_json` holds it. The library hands it on and
/// never looks inside.
#[verifier::external_type_specification]
#[verifier::external_body]
pub struct ExNumber(serde_json::Number);

/// `Number::clone`, which `serde_json` derives: the copy is the number it was
/// made from.
pub assume_specification[ <serde_json::Number as Clone>::clone ](n: &serde_json::Number) -> (r:
    serde_json::Number)
    ensures
        r == *n,
;

/// A JSON value as `serde_json` holds it.
#[verifier::external_type_specification]
#[verifier::external_body]
pub struct ExValue(serde_json::Value);

/// The reason `serde_json` gives when it refuses a text.
#[verifier::external_type_specification]
#[verifier::external_body]
pub struct ExError(serde_json::Error);

/// The six shapes a JSON value can have.
#[derive(Clone, Copy, Debug, PartialEq, Eq, Structural)]
pub enum Shape {
    Null,
    Bool,
    Number,
    String,
    Array,
    Object,
}

/// The mathematical model of a JSON value. An object is the sequence of its
/// members, each a name and a value; where a name occurs more than once, the
/// last member of that name is the one that counts.
pub ghost enum JsonValue {
    Null,
    Bool(bool),
    Number(serde_json::Number),
    String(Seq<char>),
    Array(Seq<JsonValue>),
    Object(Seq<(Seq<char>, JsonValue)>),
}

impl JsonValue {
    /// The shape of this value.
    pub open spec fn shape(self) -> Shape {
        match self {
            JsonValue::Null => Shape::Null,
            JsonValue::Bool(_) => Shape::Bool,
            JsonValue::Number(_) => Shape::Number,
            JsonValue::String(_) => Shape::String,
            JsonValue::Array(_) => Shape::Array,
            JsonValue::Object(_) => Shape::Object,
        }
    }

    /// The value of the member named `key`, where this value is an object
    /// that has one.
    pub open spec fn member(self, key: Seq<char>) -> Option<JsonValue> {
        match self {
            JsonValue::Object(members) => last_named(members, key, members.len() as int),
            _ => None,
        }
    }
}

/// The value of the last member named `key` among the first `n` of
/// `members`, if there is one.
pub open spec fn last_named(members: Seq<(Seq<char>, JsonValue)>, key: Seq<char>, n: int) -> Option<JsonValue>
    decreases n,
{
    if n <= 0 || n > members.len() {
        None
    } else if members[n - 1].0 == key {
        Some(members[n - 1].1)
    } else {
        last_named(members, key, n - 1)
    }
}

/// Among the first `n` of `members`, the member that counts for `key` is the
/// last one of that name, and none counts where none has the name.
pub proof fn lemma_last_named_is_last(members: Seq<(Seq<char>, JsonValue)>, key: Seq<char>, n: int)
    requires
        0 <= n <= members.len(),
    ensures
        match last_named(members, key, n) {
            Some(value) => exists|i: int|
                0 <= i < n && #[trigger] members[i] == (key, value) && forall|j: int|
                    i < j < n ==> (#[trigger] members[j]).0 != key,
            None => forall|i: int| 0 <= i < n ==> (#[trigger] members[i]).0 != key,
        },
    decreases n,
{
    if n > 0 {
        if members[n - 1].0 == key {
            assert(members[n - 1] == (key, members[n - 1].1));
        } else {
            lemma_last_named_is_last(members, key, n - 1);
            match last_named(members, key, n - 1) {
                Some(value) => {
                    let i = choose|i: int|
                        0 <= i < n - 1 && #[trigger] members[i] == (key, value) && forall|j: int|
                            i < j < n - 1 ==> (#[trigger] members[j]).0 != key;
                    assert(0 <= i < n && members[i] == (key, value));
                    assert forall|j: int| i < j < n implies (#[trigger] members[j]).0 != key by {}
                },
                None => {},
            }
        }
    }
}

/// A JSON value.
#[derive(Debug, PartialEq)]
pub enum Json {
    Null,
    Bool(bool),
    Number(serde_json::Number),
    String(String),
    Array(Vec<Json>),
    Object(Vec<(String, Json)>),
}

impl Json {
    /// The JSON value that this is, member for member and item for item.
    pub open spec fn model(self) -> JsonValue
        decreases self,
    {
        match self {
            Json::Null => JsonValue::Null,
            Json::Bool(b) => JsonValue::Bool(b),
            Json::Number(n) => JsonValue::Number(n),
            Json::String(s) => JsonValue::String(s@),
            Json::Array(items) => JsonValue::Array(
                Seq::new(
                    items@.len(),
                    |i: int|
                        if 0 <= i < items@.len() {
                            items@[i].model()
                        } else {
                            JsonValue::Null
                        },
                ),
            ),
            Json::Object(members) => JsonValue::Object(
                Seq::new(
                    members@.len(),
                    |i: int|
                        if 0 <= i < members@.len() {
                            (members@[i].0@, members@[i].1.model())
                        } else {
                            (Seq::empty(), JsonValue::Null)
                        },
                ),
            ),
        }
    }
}

impl View for Json {
    type V = JsonValue;

    open spec fn view(&self) -> JsonValue {
        self.model()
    }
}

impl Json {
    /// The shape of this value.
    pub fn shape(&self) -> (r: Shape)
        ensures
            r == self@.shape(),
    {
        match self {
            Json::Null => Shape::Null,
            Json::Bool(_) => Shape::Bool,
            Json::Number(_) => Shape::Number,
            Json::String(_) => Shape::String,
            Json::Array(_) => Shape::Array,
            Json::Object(_) => Shape::Object,
        }
    }

    /// The value of the member named `key`, where this value is an object
    /// that has one.
    pub fn member(&self, key: &str) -> (r: Option<&Json>)
        ensures
            match r {
                Some(value) => self@.member(key@) == Some(value@),
                None => self@.member(key@) is None,
            },
    {
        match self {
            Json::Object(members) => {
                let wanted = key.to_owned();
                let ghost all = self@->Object_0;
                let mut n = members.len();
                while n > 0
                    invariant
                        n <= members@.len(),
                        wanted@ == key@,
                        self@ == JsonValue::Object(all),
                        all.len() == members@.len(),
                        forall|i: int|
                            0 <= i < members@.len() ==> (#[trigger] all[i]) == (
                                members@[i].0@,
                                members@[i].1@,
                            ),
                        self@.member(key@) == last_named(all, key@, n as int),
                    decreases n,
                {
                    n -= 1;
                    if members[n].0 == wanted {
                        return Some(&members[n].1);
                    }
                }
                None
            },
            _ => None,
        }
    }

    /// Reads `text` as one JSON value, as `serde_json` reads it.
    pub fn parse(text: &[u8]) -> (r: Result<Json, DecodeError>)
        ensures
            match r {
                Ok(json) => json_text(text@) == Some(json@),
                Err(e) => json_text(text@) is None && e == DecodeError::Syntax,
            },
    {
        match read_text(text) {
            Ok(value) => Ok(lift(value)),
            Err(_) => Err(DecodeError::Syntax),
        }
    }
}

/// The JSON value that a `serde_json::Value` holds. Nothing is said of it
/// but by [`peel`], which takes such a value apart, and by [`read_text`].
pub uninterp spec fn value_of(v: serde_json::Value) -> JsonValue;

/// What `serde_json::from_slice` reads from `text` as one JSON value, and
/// `None` where it refuses the text. The grammar is the crate's: this
/// library states no part of it.
pub uninterp spec fn json_text(text: Seq<u8>) -> Option<JsonValue>;

/// The outermost layer of a `serde_json::Value`: its variant, with the values
/// inside an array or an object still as `serde_json` holds them.
enum Layer {
    Null,
    Bool(bool),
    Number(serde_json::Number),
    String(String),
    Array(Vec<serde_json::Value>),
    Object(Vec<(String, serde_json::Value)>),
}

impl Layer {
    /// The JSON value that this layer and the values inside it make up.
    spec fn value(self) -> JsonValue {
        match self {
            Layer::Null => JsonValue::Null,
            Layer::Bool(b) => JsonValue::Bool(b),
            Layer::Number(n) => JsonValue::Number(n),
            Layer::String(s) => JsonValue::String(s@),
            Layer::Array(items) => JsonValue::Array(items@.map_values(|v| value_of(v))),
            Layer::Object(members) => JsonValue::Object(
                members@.map_values(|m: (String, serde_json::Value)| (m.0@, value_of(m.1))),
            ),
        }
    }
}

/// `serde_json::from_slice` at the type `serde_json::Value`: it reads `text`
/// as one JSON value, or refuses it. Taken on trust: the call depends on
/// `text` alone, so that what it hands back is what [`json_text`] names.
#[verifier::external_body]
fn read_text(text: &[u8]) -> (r: Result<serde_json::Value, serde_json::Error>)
    ensures
        match r {
            Ok(v) => json_text(text@) == Some(value_of(v)),
            Err(_) => json_text(text@) is None,
        },
{
    serde_json::from_slice::<serde_json::Value>(text)
}

/// Takes a `serde_json::Value` apart by its variant. The parts are moved out
/// as they are; the members of an object come in the order in which
/// `serde_json::Map` hands them out. Taken on trust: the value that `v`
/// holds is the variant that comes out, made of the values that the parts
/// hold.
#[verifier::external_body]
fn peel(v: serde_json::Value) -> (r: Layer)
    ensures
        r.value() == value_of(v),
{
    match v {
        serde_json::Value::Null => Layer::Null,
        serde_json::Value::Bool(b) => Layer::Bool(b),
        serde_json::Value::Number(n) => Layer::Number(n),
        serde_json::Value::String(s) => Layer::String(s),
        serde_json::Value::Array(items) => Layer::Array(items),
        serde_json::Value::Object(members) => Layer::Object(members.into_iter().collect()),
    }
}

/// Rebuilds a `serde_json::Value` as a [`Json`].
fn lift(v: serde_json::Value) -> (r: Json)
    ensures
        r@ == value_of(v),
    decreases value_of(v),
{
    let ghost whole = value_of(v);
    match peel(v) {
        Layer::Null => Json::Null,
        Layer::Bool(b) => Json::Bool(b),
        Layer::Number(n) => Json::Number(n),
        Layer::String(s) => Json::String(s),
        Layer::Array(items) => {
            let ghost inner = items@;
            let ghost values = inner.map_values(|x| value_of(x));
            let mut out: Vec<Json> = Vec::new();
            for item in it: items.into_iter()
                invariant
                    it.seq() == inner,
                    whole == value_of(v),
                    whole == JsonValue::Array(values),
                    values == inner.map_values(|x| value_of(x)),
                    out@.len() == it.index(),
                    forall|i: int| 0 <= i < out@.len() ==> (#[trigger] out@[i])@ == values[i],
            {
                proof {
                    let i = it.index() as int;
                    assert(values[i] == value_of(item));
                    assert(decreases_to!(whole => whole->Array_0));
                    assert(decreases_to!(values => values[i]));
                }
                out.push(lift(item));
            }
            let r = Json::Array(out);
            assert(r@->Array_0 =~= values);
            r
        },
        Layer::Object(members) => {
            let ghost inner = members@;
            let ghost values = inner.map_values(
                |m: (String, serde_json::Value)| (m.0@, value_of(m.1)),
            );
            let mut out: Vec<(String, Json)> = Vec::new();
            for member in it: members.into_iter()
                invariant
                    it.seq() == inner,
                    whole == value_of(v),
                    whole == JsonValue::Object(values),
                    values == inner.map_values(
                        |m: (String, serde_json::Value)| (m.0@, value_of(m.1)),
                    ),
                    out@.len() == it.index(),
                    forall|i: int|
                        0 <= i < out@.len() ==> (#[trigger] out@[i]).0@ == values[i].0
                            && out@[i].1@ == values[i].1,
            {
                let (name, value) = member;
                proof {
                    let i = it.index() as int;
                    assert(values[i] == (name@, value_of(value)));
                    assert(decreases_to!(whole => whole->Object_0));
                    assert(decreases_to!(values => values[i]));
                    assert(decreases_to!(values[i] => values[i].1));
                }
                out.push((name, lift(value)));
            }
            let r = Json::Object(out);
            assert(r@->Object_0 =~= values);
            r
        },
    }
}

} // verus!
