//! The name of a bus stop, which the upstream service sends in two forms.

use vstd::prelude::*;

use crate::decode::{optional_text, optional_text_of, text, text_of};
use crate::error::{DecodeError, Field};
use crate::json::{Json, JsonValue};

verus! {

/// The name of a bus stop.
#[derive(Clone, Debug, PartialEq, Eq)]
pub struct Title {
    /// The name in English, where the service gives one.
    pub localized_name: Option<String>,
    /// The name in Japanese.
    pub primary_name: String,
    /// The name in kana, where the service gives one.
    pub alternate_script_name: Option<String>,
}

/// The mathematical model of a [`Title`].
pub ghost struct TitleView {
    pub localized_name: Option<Seq<char>>,
    pub primary_name: Seq<char>,
    pub alternate_script_name: Option<Seq<char>>,
}

/// The view of a string that may be absent.
pub open spec fn optional_view(text: Option<String>) -> Option<Seq<char>> {
    match text {
        Some(s) => Some(s@),
        None => None,
    }
}

impl View for Title {
    type V = TitleView;

    open spec fn view(&self) -> TitleView {
        TitleView {
            localized_name: optional_view(self.localized_name),
            primary_name: self.primary_name@,
            alternate_script_name: optional_view(self.alternate_script_name),
        }
    }
}

/// The title with the primary name `name` and no other name.
pub open spec fn plain_title(name: Seq<char>) -> TitleView {
    TitleView { localized_name: None, primary_name: name, alternate_script_name: None }
}

/// The title that `json` holds in the structured form: an object whose member
/// `ja` is a string and whose members `en` and `ja-Hrkt` are strings, null or
/// absent. `None` where `json` has not that form.
pub open spec fn structured_title(json: JsonValue) -> Option<TitleView> {
    match (
        optional_text_of(json, Field::LocalizedName),
        text_of(json, Field::PrimaryName),
        optional_text_of(json, Field::AlternateScriptName),
    ) {
        (Ok(localized_name), Ok(primary_name), Ok(alternate_script_name)) => Some(
            TitleView { localized_name, primary_name, alternate_script_name },
        ),
        _ => None,
    }
}

/// The title that `json` holds. The structured form is tried first; a value
/// that has not that form must be a plain string, which is then the primary
/// name. Anything else is reported with its shape.
pub open spec fn title_of(json: JsonValue) -> Result<TitleView, DecodeError> {
    match structured_title(json) {
        Some(title) => Ok(title),
        None => match json {
            JsonValue::String(name) => Ok(plain_title(name)),
            other => Err(DecodeError::Unexpected(Field::Title, other.shape())),
        },
    }
}

/// Reads the title of a bus stop from the value of its `title` member. The
/// service sends either a plain string or an object with the names by
/// language; both give a title, and no value gives `Ok(None)`.
pub fn deserialize_title(json: &Json) -> (r: Result<Option<Title>, DecodeError>)
    ensures
        match r {
            Ok(Some(title)) => title_of(json@) == Ok::<TitleView, DecodeError>(title@),
            Ok(None) => false,
            Err(e) => title_of(json@) == Err::<TitleView, DecodeError>(e),
        },
{
    match structured(json) {
        Some(title) => Ok(Some(title)),
        None => match json {
            Json::String(name) => Ok(
                Some(
                    Title {
                        localized_name: None,
                        primary_name: name.clone(),
                        alternate_script_name: None,
                    },
                ),
            ),
            other => Err(DecodeError::Unexpected(Field::Title, other.shape())),
        },
    }
}

/// Reads a title in the structured form.
fn structured(json: &Json) -> (r: Option<Title>)
    ensures
        structured_title(json@) == match r {
            Some(title) => Some(title@),
            None => None,
        },
{
    let localized_name = match optional_text(json, Field::LocalizedName) {
        Ok(name) => name,
        Err(_) => {
            return None;
        },
    };
    let primary_name = match text(json, Field::PrimaryName) {
        Ok(name) => name,
        Err(_) => {
            return None;
        },
    };
    let alternate_script_name = match optional_text(json, Field::AlternateScriptName) {
        Ok(name) => name,
        Err(_) => {
            return None;
        },
    };
    Some(Title { localized_name, primary_name, alternate_script_name })
}

/// A title that arrives as a plain string has that string as its primary
/// name and no other name.
pub proof fn lemma_plain_string_is_primary_name(name: Seq<char>)
    ensures
        title_of(JsonValue::String(name)) == Ok::<TitleView, DecodeError>(plain_title(name)),
{
}

/// A title that arrives as an object with the strings `en`, `ja` and
/// `ja-Hrkt` has them as its localized name, its primary name and its name in
/// the alternate script.
pub proof fn lemma_structured_title_maps_fields(
    json: JsonValue,
    en: Seq<char>,
    ja: Seq<char>,
    hrkt: Seq<char>,
)
    requires
        json.member(Field::LocalizedName.key()) == Some(JsonValue::String(en)),
        json.member(Field::PrimaryName.key()) == Some(JsonValue::String(ja)),
        json.member(Field::AlternateScriptName.key()) == Some(JsonValue::String(hrkt)),
    ensures
        title_of(json) == Ok::<TitleView, DecodeError>(
            TitleView {
                localized_name: Some(en),
                primary_name: ja,
                alternate_script_name: Some(hrkt),
            },
        ),
{
}

} // verus!
