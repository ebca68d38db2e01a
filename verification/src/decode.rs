//! Reading the members of upstream JSON objects, and the records that can
//! be read from a JSON value.

use vstd::prelude::*;

use crate::error::{DecodeError, Field};
use crate::json::{Json, JsonValue};

verus! {

/// The text that the member `field` of `json` holds. The member must be
/// there and hold a string.
pub open spec fn text_of(json: JsonValue, field: Field) -> Result<Seq<char>, DecodeError> {
    match json.member(field.key()) {
        None => Err(DecodeError::Missing(field)),
        Some(JsonValue::String(s)) => Ok(s),
        Some(other) => Err(DecodeError::Unexpected(field, other.shape())),
    }
}

/// The text that the member `field` of `json` holds, if any. The member may
/// be absent or null; if it holds anything else, that must be a string.
pub open spec fn optional_text_of(json: JsonValue, field: Field) -> Result<
    Option<Seq<char>>,
    DecodeError,
> {
    match json.member(field.key()) {
        None => Ok(None),
        Some(JsonValue::Null) => Ok(None),
        Some(JsonValue::String(s)) => Ok(Some(s)),
        Some(other) => Err(DecodeError::Unexpected(field, other.shape())),
    }
}

/// The number that the member `field` of `json` holds. The member must be
/// there and hold a number.
pub open spec fn number_of(json: JsonValue, field: Field) -> Result<
    serde_json::Number,
    DecodeError,
> {
    match json.member(field.key()) {
        None => Err(DecodeError::Missing(field)),
        Some(JsonValue::Number(n)) => Ok(n),
        Some(other) => Err(DecodeError::Unexpected(field, other.shape())),
    }
}

/// The texts that `items` hold, in order. Every item must be a string: the
/// first that is not is reported under `field`.
pub open spec fn texts_in(items: Seq<JsonValue>, field: Field) -> Result<
    Seq<Seq<char>>,
    DecodeError,
>
    decreases items.len(),
{
    if items.len() == 0 {
        Ok(Seq::empty())
    } else {
        match texts_in(items.drop_last(), field) {
            Err(e) => Err(e),
            Ok(front) => match items.last() {
                JsonValue::String(s) => Ok(front.push(s)),
                other => Err(DecodeError::Unexpected(field, other.shape())),
            },
        }
    }
}

/// The texts that the member `field` of `json` holds. The member must be
/// there and hold an array of strings.
pub open spec fn texts_of(json: JsonValue, field: Field) -> Result<Seq<Seq<char>>, DecodeError> {
    match json.member(field.key()) {
        None => Err(DecodeError::Missing(field)),
        Some(JsonValue::Array(items)) => texts_in(items, field),
        Some(other) => Err(DecodeError::Unexpected(field, other.shape())),
    }
}

/// The object that the member `field` of `json` holds. The member must be
/// there and hold an object.
pub open spec fn object_of(json: JsonValue, field: Field) -> Result<JsonValue, DecodeError> {
    match json.member(field.key()) {
        None => Err(DecodeError::Missing(field)),
        Some(JsonValue::Object(members)) => Ok(JsonValue::Object(members)),
        Some(other) => Err(DecodeError::Unexpected(field, other.shape())),
    }
}

/// Reads the member `field` of `json` as text.
pub fn text(json: &Json, field: Field) -> (r: Result<String, DecodeError>)
    ensures
        text_of(json@, field) == match r {
            Ok(s) => Ok(s@),
            Err(e) => Err(e),
        },
{
    match json.member(field.name()) {
        None => Err(DecodeError::Missing(field)),
        Some(Json::String(s)) => Ok(s.clone()),
        Some(other) => Err(DecodeError::Unexpected(field, other.shape())),
    }
}

/// Reads the member `field` of `json` as text that may be left out.
pub fn optional_text(json: &Json, field: Field) -> (r: Result<Option<String>, DecodeError>)
    ensures
        optional_text_of(json@, field) == match r {
            Ok(Some(s)) => Ok(Some(s@)),
            Ok(None) => Ok(None),
            Err(e) => Err(e),
        },
{
    match json.member(field.name()) {
        None => Ok(None),
        Some(Json::Null) => Ok(None),
        Some(Json::String(s)) => Ok(Some(s.clone())),
        Some(other) => Err(DecodeError::Unexpected(field, other.shape())),
    }
}

/// Reads the member `field` of `json` as a number.
pub fn number(json: &Json, field: Field) -> (r: Result<serde_json::Number, DecodeError>)
    ensures
        number_of(json@, field) == r,
{
    match json.member(field.name()) {
        None => Err(DecodeError::Missing(field)),
        Some(Json::Number(n)) => Ok(n.clone()),
        Some(other) => Err(DecodeError::Unexpected(field, other.shape())),
    }
}

/// The views of the strings in `texts`, in order.
pub open spec fn views(texts: Seq<String>) -> Seq<Seq<char>> {
    texts.map_values(|s: String| s@)
}

/// A list of texts is read whole or not at all: where every item is a
/// string, there is one text for each, in order; else the first item that is
/// no string is reported with its shape.
pub proof fn lemma_texts_in_all_or_first_failure(items: Seq<JsonValue>, field: Field)
    ensures
        match texts_in(items, field) {
            Ok(list) => list.len() == items.len() && forall|i: int|
                0 <= i < items.len() ==> #[trigger] items[i] == JsonValue::String(list[i]),
            Err(e) => exists|i: int|
                0 <= i < items.len() && !(#[trigger] items[i] is String) && e
                    == DecodeError::Unexpected(field, items[i].shape()) && forall|k: int|
                    0 <= k < i ==> #[trigger] items[k] is String,
        },
    decreases items.len(),
{
    if items.len() > 0 {
        let front = items.drop_last();
        let last = items.len() - 1;
        lemma_texts_in_all_or_first_failure(front, field);
        assert forall|i: int| 0 <= i < last implies front[i] == items[i] by {}
        match texts_in(front, field) {
            Ok(list) => {
                if !(items[last] is String) {
                    assert forall|k: int| 0 <= k < last implies #[trigger] items[k] is String by {
                        assert(front[k] == JsonValue::String(list[k]));
                    }
                } else {
                    let whole = texts_in(items, field)->Ok_0;
                    assert forall|i: int| 0 <= i < items.len() implies #[trigger] items[i]
                        == JsonValue::String(whole[i]) by {
                        if i < last {
                            assert(front[i] == JsonValue::String(list[i]));
                        }
                    }
                }
            },
            Err(e) => {
                let i = choose|i: int|
                    0 <= i < front.len() && !(#[trigger] front[i] is String) && e
                        == DecodeError::Unexpected(field, front[i].shape()) && forall|k: int|
                        0 <= k < i ==> #[trigger] front[k] is String;
                assert(!(items[i] is String));
                assert forall|k: int| 0 <= k < i implies #[trigger] items[k] is String by {
                    assert(front[k] is String);
                }
            },
        }
    }
}

/// Once a front part of `items` holds something that is no string, the
/// whole of `items` fails as that front part does.
proof fn lemma_texts_in_failure_lasts(items: Seq<JsonValue>, field: Field, n: int)
    requires
        0 <= n <= items.len(),
        texts_in(items.take(n), field) is Err,
    ensures
        texts_in(items, field) == texts_in(items.take(n), field),
    decreases items.len() - n,
{
    if n < items.len() {
        assert(items.take(n + 1).drop_last() =~= items.take(n));
        lemma_texts_in_failure_lasts(items, field, n + 1);
    } else {
        assert(items.take(n) =~= items);
    }
}

/// Reads the member `field` of `json` as a list of texts.
pub fn texts(json: &Json, field: Field) -> (r: Result<Vec<String>, DecodeError>)
    ensures
        texts_of(json@, field) == match r {
            Ok(list) => Ok(views(list@)),
            Err(e) => Err(e),
        },
{
    match json.member(field.name()) {
        None => Err(DecodeError::Missing(field)),
        Some(Json::Array(items)) => {
            let ghost all = json@.member(field.key())->0->Array_0;
            assert(all.len() == items@.len());
            let mut list: Vec<String> = Vec::new();
            let mut i: usize = 0;
            assert(all.take(0) =~= Seq::empty());
            assert(views(list@) =~= Seq::empty());
            while i < items.len()
                invariant
                    i <= items@.len(),
                    all.len() == items@.len(),
                    json@.member(field.key()) == Some(JsonValue::Array(all)),
                    forall|k: int| 0 <= k < items@.len() ==> (#[trigger] items@[k])@ == all[k],
                    texts_in(all.take(i as int), field) == Ok::<Seq<Seq<char>>, DecodeError>(
                        views(list@),
                    ),
                decreases items@.len() - i,
            {
                proof {
                    assert(all.take(i + 1).drop_last() =~= all.take(i as int));
                    assert(all.take(i + 1).last() == all[i as int]);
                }
                let ghost before = list@;
                match &items[i] {
                    Json::String(s) => {
                        list.push(s.clone());
                        assert(views(list@) =~= views(before).push(s@));
                    },
                    other => {
                        proof {
                            lemma_texts_in_failure_lasts(all, field, i + 1);
                        }
                        return Err(DecodeError::Unexpected(field, other.shape()));
                    },
                }
                i += 1;
            }
            assert(all.take(i as int) =~= all);
            Ok(list)
        },
        Some(other) => Err(DecodeError::Unexpected(field, other.shape())),
    }
}

/// Reads the member `field` of `json` as an object.
pub fn object(json: &Json, field: Field) -> (r: Result<&Json, DecodeError>)
    ensures
        object_of(json@, field) == match r {
            Ok(inner) => Ok(inner@),
            Err(e) => Err(e),
        },
{
    match json.member(field.name()) {
        None => Err(DecodeError::Missing(field)),
        Some(inner) => match inner {
            Json::Object(_) => Ok(inner),
            other => Err(DecodeError::Unexpected(field, other.shape())),
        },
    }
}

/// A record that can be read from a JSON value.
pub trait Decode: Sized {
    /// The mathematical model of a record of this kind.
    type Model;

    /// The model of this record.
    spec fn model(&self) -> Self::Model;

    /// The record that `json` gives, or why it gives none.
    spec fn decoded(json: JsonValue) -> Result<Self::Model, DecodeError>;

    /// Reads a record from `json`.
    fn decode(json: &Json) -> (r: Result<Self, DecodeError>)
        ensures
            Self::decoded(json@) == match r {
                Ok(record) => Ok(record.model()),
                Err(e) => Err(e),
            },
    ;
}

/// The records that `items` give, in order. Every item must give a record:
/// the failure of the first that gives none is the failure of the list.
pub open spec fn records_in<T: Decode>(items: Seq<JsonValue>) -> Result<Seq<T::Model>, DecodeError>
    decreases items.len(),
{
    if items.len() == 0 {
        Ok(Seq::empty())
    } else {
        match records_in::<T>(items.drop_last()) {
            Err(e) => Err(e),
            Ok(front) => match T::decoded(items.last()) {
                Ok(record) => Ok(front.push(record)),
                Err(e) => Err(e),
            },
        }
    }
}

/// A list of records is read whole or not at all: where every item gives a
/// record, there is one record for each, in order; else the list fails as
/// the first item that gives none.
pub proof fn lemma_records_in_all_or_first_failure<T: Decode>(items: Seq<JsonValue>)
    ensures
        match records_in::<T>(items) {
            Ok(list) => list.len() == items.len() && forall|i: int|
                0 <= i < items.len() ==> T::decoded(#[trigger] items[i]) == Ok::<
                    T::Model,
                    DecodeError,
                >(list[i]),
            Err(e) => exists|i: int|
                0 <= i < items.len() && T::decoded(#[trigger] items[i]) == Err::<
                    T::Model,
                    DecodeError,
                >(e) && forall|k: int| 0 <= k < i ==> T::decoded(#[trigger] items[k]) is Ok,
        },
    decreases items.len(),
{
    if items.len() > 0 {
        let front = items.drop_last();
        let last = items.len() - 1;
        lemma_records_in_all_or_first_failure::<T>(front);
        assert forall|i: int| 0 <= i < last implies front[i] == items[i] by {}
        match records_in::<T>(front) {
            Ok(list) => {
                match T::decoded(items[last]) {
                    Ok(record) => {
                        let whole = records_in::<T>(items)->Ok_0;
                        assert forall|i: int| 0 <= i < items.len() implies T::decoded(
                            #[trigger] items[i],
                        ) == Ok::<T::Model, DecodeError>(whole[i]) by {
                            if i < last {
                                assert(T::decoded(front[i]) == Ok::<T::Model, DecodeError>(
                                    list[i],
                                ));
                            }
                        }
                    },
                    Err(e) => {
                        assert forall|k: int| 0 <= k < last implies T::decoded(
                            #[trigger] items[k],
                        ) is Ok by {
                            assert(T::decoded(front[k]) is Ok);
                        }
                    },
                }
            },
            Err(e) => {
                let i = choose|i: int|
                    0 <= i < front.len() && T::decoded(#[trigger] front[i]) == Err::<
                        T::Model,
                        DecodeError,
                    >(e) && forall|k: int| 0 <= k < i ==> T::decoded(#[trigger] front[k]) is Ok;
                assert(T::decoded(items[i]) == Err::<T::Model, DecodeError>(e));
                assert forall|k: int| 0 <= k < i implies T::decoded(#[trigger] items[k]) is Ok by {
                    assert(T::decoded(front[k]) is Ok);
                }
            },
        }
    }
}

/// The models of `records`, in order.
pub open spec fn models<T: Decode>(records: Seq<T>) -> Seq<T::Model> {
    records.map_values(|record: T| record.model())
}

/// Once a front part of `items` holds something that gives no record, the
/// whole of `items` fails as that front part does.
proof fn lemma_records_in_failure_lasts<T: Decode>(items: Seq<JsonValue>, n: int)
    requires
        0 <= n <= items.len(),
        records_in::<T>(items.take(n)) is Err,
    ensures
        records_in::<T>(items) == records_in::<T>(items.take(n)),
    decreases items.len() - n,
{
    if n < items.len() {
        assert(items.take(n + 1).drop_last() =~= items.take(n));
        lemma_records_in_failure_lasts::<T>(items, n + 1);
    } else {
        assert(items.take(n) =~= items);
    }
}

/// Reads one record from each of `items`, in order.
pub fn records<T: Decode>(items: &Vec<Json>) -> (r: Result<Vec<T>, DecodeError>)
    ensures
        records_in::<T>(items@.map_values(|j: Json| j@)) == match r {
            Ok(list) => Ok(models(list@)),
            Err(e) => Err(e),
        },
{
    let ghost all = items@.map_values(|j: Json| j@);
    let mut list: Vec<T> = Vec::new();
    let mut i: usize = 0;
    assert(all.take(0) =~= Seq::empty());
    assert(models(list@) =~= Seq::empty());
    while i < items.len()
        invariant
            i <= items@.len(),
            all == items@.map_values(|j: Json| j@),
            records_in::<T>(all.take(i as int)) == Ok::<Seq<T::Model>, DecodeError>(
                models(list@),
            ),
        decreases items@.len() - i,
    {
        proof {
            assert(all.take(i + 1).drop_last() =~= all.take(i as int));
            assert(all.take(i + 1).last() == items@[i as int]@);
        }
        let ghost before = list@;
        match T::decode(&items[i]) {
            Ok(record) => {
                list.push(record);
                assert(models(list@) =~= models(before).push(record.model()));
            },
            Err(e) => {
                proof {
                    lemma_records_in_failure_lasts::<T>(all, i + 1);
                }
                return Err(e);
            },
        }
        i += 1;
    }
    assert(all.take(i as int) =~= all);
    Ok(list)
}

/// A list of records is read from a JSON array, item by item.
impl<T: Decode> Decode for Vec<T> {
    type Model = Seq<T::Model>;

    open spec fn model(&self) -> Seq<T::Model> {
        models(self@)
    }

    open spec fn decoded(json: JsonValue) -> Result<Seq<T::Model>, DecodeError> {
        match json {
            JsonValue::Array(items) => records_in::<T>(items),
            other => Err(DecodeError::NotAList(other.shape())),
        }
    }

    fn decode(json: &Json) -> (r: Result<Self, DecodeError>) {
        match json {
            Json::Array(items) => {
                assert(json@->Array_0 =~= items@.map_values(|j: Json| j@));
                records(items)
            },
            other => Err(DecodeError::NotAList(other.shape())),
        }
    }
}

} // verus!
