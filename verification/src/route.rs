//! Route patterns: the courses that buses run between two stops.

use vstd::prelude::*;

use crate::decode::{text, text_of, Decode};
use crate::error::{DecodeError, Field};
use crate::json::{Json, JsonValue};

verus! {

/// A route pattern.
#[derive(Clone, Debug, PartialEq, Eq)]
pub struct RoutePattern {
    /// An identifier of the pattern. Nothing fills it in yet: it is empty in
    /// every pattern that this library hands out.
    pub pattern_id: String,
    pub route_name: String,
    /// The stop where the course starts, by its identifier.
    pub from_stop_ref: String,
    /// The stop where the course ends, by its identifier.
    pub to_stop_ref: String,
}

/// The mathematical model of a [`RoutePattern`].
pub ghost struct RoutePatternView {
    pub pattern_id: Seq<char>,
    pub route_name: Seq<char>,
    pub from_stop_ref: Seq<char>,
    pub to_stop_ref: Seq<char>,
}

impl View for RoutePattern {
    type V = RoutePatternView;

    open spec fn view(&self) -> RoutePatternView {
        RoutePatternView {
            pattern_id: self.pattern_id@,
            route_name: self.route_name@,
            from_stop_ref: self.from_stop_ref@,
            to_stop_ref: self.to_stop_ref@,
        }
    }
}

/// The route pattern that `json` holds. The members are read in the order of
/// the fields of [`RoutePattern`], and the first that fails is reported.
pub open spec fn route_of(json: JsonValue) -> Result<RoutePatternView, DecodeError> {
    if !(json is Object) {
        Err(DecodeError::NotARecord(json.shape()))
    } else {
        match text_of(json, Field::RouteName) {
            Err(e) => Err(e),
            Ok(route_name) => match text_of(json, Field::FromStopRef) {
                Err(e) => Err(e),
                Ok(from_stop_ref) => match text_of(json, Field::ToStopRef) {
                    Err(e) => Err(e),
                    Ok(to_stop_ref) => Ok(
                        RoutePatternView {
                            pattern_id: Seq::empty(),
                            route_name,
                            from_stop_ref,
                            to_stop_ref,
                        },
                    ),
                },
            },
        }
    }
}

impl Decode for RoutePattern {
    type Model = RoutePatternView;

    open spec fn model(&self) -> RoutePatternView {
        self@
    }

    open spec fn decoded(json: JsonValue) -> Result<RoutePatternView, DecodeError> {
        route_of(json)
    }

    fn decode(json: &Json) -> (r: Result<Self, DecodeError>) {
        match json {
            Json::Object(_) => {},
            other => {
                return Err(DecodeError::NotARecord(other.shape()));
            },
        }
        let route_name = text(json, Field::RouteName)?;
        let from_stop_ref = text(json, Field::FromStopRef)?;
        let to_stop_ref = text(json, Field::ToStopRef)?;
        Ok(RoutePattern { pattern_id: String::new(), route_name, from_stop_ref, to_stop_ref })
    }
}

} // verus!
