//! The timetables of bus stops.

use vstd::prelude::*;

use crate::decode::{models, records, records_in, text, text_of, Decode};
use crate::error::{DecodeError, Field};
use crate::json::{Json, JsonValue};

verus! {

/// One departure in a timetable.
#[derive(Clone, Debug, PartialEq, Eq)]
pub struct TimetableEntry {
    /// The time of the departure, as the service writes it.
    pub departure_time: String,
}

/// The mathematical model of a [`TimetableEntry`].
pub ghost struct TimetableEntryView {
    pub departure_time: Seq<char>,
}

impl View for TimetableEntry {
    type V = TimetableEntryView;

    open spec fn view(&self) -> TimetableEntryView {
        TimetableEntryView { departure_time: self.departure_time@ }
    }
}

/// The departure that `json` holds.
pub open spec fn entry_of(json: JsonValue) -> Result<TimetableEntryView, DecodeError> {
    if !(json is Object) {
        Err(DecodeError::NotARecord(json.shape()))
    } else {
        match text_of(json, Field::DepartureTime) {
            Err(e) => Err(e),
            Ok(departure_time) => Ok(TimetableEntryView { departure_time }),
        }
    }
}

impl Decode for TimetableEntry {
    type Model = TimetableEntryView;

    open spec fn model(&self) -> TimetableEntryView {
        self@
    }

    open spec fn decoded(json: JsonValue) -> Result<TimetableEntryView, DecodeError> {
        entry_of(json)
    }

    fn decode(json: &Json) -> (r: Result<Self, DecodeError>) {
        match json {
            Json::Object(_) => {},
            other => {
                return Err(DecodeError::NotARecord(other.shape()));
            },
        }
        let departure_time = text(json, Field::DepartureTime)?;
        Ok(TimetableEntry { departure_time })
    }
}

/// The timetable of one bus stop.
#[derive(Clone, Debug, PartialEq, Eq)]
pub struct StopTimetable {
    /// The stop that the timetable belongs to, by its identifier.
    pub stop_ref: String,
    /// The departures, in the order in which the service sends them.
    pub departures: Vec<TimetableEntry>,
}

/// The mathematical model of a [`StopTimetable`].
pub ghost struct StopTimetableView {
    pub stop_ref: Seq<char>,
    pub departures: Seq<TimetableEntryView>,
}

impl View for StopTimetable {
    type V = StopTimetableView;

    open spec fn view(&self) -> StopTimetableView {
        StopTimetableView {
            stop_ref: self.stop_ref@,
            departures: models::<TimetableEntry>(self.departures@),
        }
    }
}

/// The departures that the member `odpt:timeTable` of `json` holds. The
/// member must be there and hold an array of departures.
pub open spec fn departures_of(json: JsonValue) -> Result<Seq<TimetableEntryView>, DecodeError> {
    match json.member(Field::Departures.key()) {
        None => Err(DecodeError::Missing(Field::Departures)),
        Some(JsonValue::Array(items)) => records_in::<TimetableEntry>(items),
        Some(other) => Err(DecodeError::Unexpected(Field::Departures, other.shape())),
    }
}

/// The timetable that `json` holds. The members are read in the order of the
/// fields of [`StopTimetable`], and the first that fails is reported.
pub open spec fn timetable_of(json: JsonValue) -> Result<StopTimetableView, DecodeError> {
    if !(json is Object) {
        Err(DecodeError::NotARecord(json.shape()))
    } else {
        match text_of(json, Field::StopRef) {
            Err(e) => Err(e),
            Ok(stop_ref) => match departures_of(json) {
                Err(e) => Err(e),
                Ok(departures) => Ok(StopTimetableView { stop_ref, departures }),
            },
        }
    }
}

impl Decode for StopTimetable {
    type Model = StopTimetableView;

    open spec fn model(&self) -> StopTimetableView {
        self@
    }

    open spec fn decoded(json: JsonValue) -> Result<StopTimetableView, DecodeError> {
        timetable_of(json)
    }

    fn decode(json: &Json) -> (r: Result<Self, DecodeError>) {
        match json {
            Json::Object(_) => {},
            other => {
                return Err(DecodeError::NotARecord(other.shape()));
            },
        }
        let stop_ref = text(json, Field::StopRef)?;
        let departures = match json.member(Field::Departures.name()) {
            None => {
                return Err(DecodeError::Missing(Field::Departures));
            },
            Some(Json::Array(items)) => {
                assert(json@.member(Field::Departures.key())->0->Array_0 =~= items@.map_values(
                    |j: Json| j@,
                ));
                records::<TimetableEntry>(items)?
            },
            Some(other) => {
                return Err(DecodeError::Unexpected(Field::Departures, other.shape()));
            },
        };
        Ok(StopTimetable { stop_ref, departures })
    }
}

} // verus!
