//! Where the vehicles are: the realtime feed and the positions in it.

use vstd::prelude::*;

use crate::decode::{
    models,
    number,
    number_of,
    object,
    object_of,
    records,
    records_in,
    text,
    text_of,
    Decode,
};
use crate::error::{DecodeError, Field};
use crate::json::{Json, JsonValue};

verus! {

/// A point on the map.
#[derive(Clone, Debug, PartialEq)]
pub struct Position {
    pub latitude: serde_json::Number,
    pub longitude: serde_json::Number,
}

/// Where one vehicle is.
#[derive(Clone, Debug, PartialEq)]
pub struct VehiclePosition {
    /// The identifier of this entry of the feed.
    pub id: String,
    /// The trip that the vehicle is on, by its identifier.
    pub trip_id: String,
    /// The vehicle, by its identifier.
    pub vehicle_id: String,
    pub position: Position,
}

/// The mathematical model of a [`VehiclePosition`].
pub ghost struct VehiclePositionView {
    pub id: Seq<char>,
    pub trip_id: Seq<char>,
    pub vehicle_id: Seq<char>,
    pub position: Position,
}

impl View for VehiclePosition {
    type V = VehiclePositionView;

    open spec fn view(&self) -> VehiclePositionView {
        VehiclePositionView {
            id: self.id@,
            trip_id: self.trip_id@,
            vehicle_id: self.vehicle_id@,
            position: self.position,
        }
    }
}

/// The text that the member `inner` of the object under `outer` holds.
pub open spec fn nested_text_of(json: JsonValue, outer: Field, inner: Field) -> Result<
    Seq<char>,
    DecodeError,
> {
    match object_of(json, outer) {
        Err(e) => Err(e),
        Ok(object) => text_of(object, inner),
    }
}

/// The point that the member `position` of `json` holds: an object with the
/// numbers `latitude` and `longitude`.
pub open spec fn position_of(json: JsonValue) -> Result<Position, DecodeError> {
    match object_of(json, Field::Position) {
        Err(e) => Err(e),
        Ok(object) => match number_of(object, Field::PositionLatitude) {
            Err(e) => Err(e),
            Ok(latitude) => match number_of(object, Field::PositionLongitude) {
                Err(e) => Err(e),
                Ok(longitude) => Ok(Position { latitude, longitude }),
            },
        },
    }
}

/// The vehicle position that `json` holds. The members are read in the order
/// of the fields of [`VehiclePosition`], and the first that fails is
/// reported.
pub open spec fn vehicle_of(json: JsonValue) -> Result<VehiclePositionView, DecodeError> {
    if !(json is Object) {
        Err(DecodeError::NotARecord(json.shape()))
    } else {
        match text_of(json, Field::Id) {
            Err(e) => Err(e),
            Ok(id) => match nested_text_of(json, Field::Trip, Field::TripId) {
                Err(e) => Err(e),
                Ok(trip_id) => match nested_text_of(json, Field::Vehicle, Field::VehicleId) {
                    Err(e) => Err(e),
                    Ok(vehicle_id) => match position_of(json) {
                        Err(e) => Err(e),
                        Ok(position) => Ok(
                            VehiclePositionView { id, trip_id, vehicle_id, position },
                        ),
                    },
                },
            },
        }
    }
}

/// Reads the member `inner` of the object under `outer` as text.
fn nested_text(json: &Json, outer: Field, inner: Field) -> (r: Result<String, DecodeError>)
    ensures
        nested_text_of(json@, outer, inner) == match r {
            Ok(s) => Ok(s@),
            Err(e) => Err(e),
        },
{
    let object = object(json, outer)?;
    text(object, inner)
}

/// Reads the member `position` of `json` as a point.
fn position(json: &Json) -> (r: Result<Position, DecodeError>)
    ensures
        position_of(json@) == r,
{
    let object = object(json, Field::Position)?;
    let latitude = number(object, Field::PositionLatitude)?;
    let longitude = number(object, Field::PositionLongitude)?;
    Ok(Position { latitude, longitude })
}

impl Decode for VehiclePosition {
    type Model = VehiclePositionView;

    open spec fn model(&self) -> VehiclePositionView {
        self@
    }

    open spec fn decoded(json: JsonValue) -> Result<VehiclePositionView, DecodeError> {
        vehicle_of(json)
    }

    fn decode(json: &Json) -> (r: Result<Self, DecodeError>) {
        match json {
            Json::Object(_) => {},
            other => {
                return Err(DecodeError::NotARecord(other.shape()));
            },
        }
        let id = text(json, Field::Id)?;
        let trip_id = nested_text(json, Field::Trip, Field::TripId)?;
        let vehicle_id = nested_text(json, Field::Vehicle, Field::VehicleId)?;
        let position = position(json)?;
        Ok(VehiclePosition { id, trip_id, vehicle_id, position })
    }
}

/// The realtime feed as the service sends it: an envelope round the vehicle
/// positions.
#[derive(Clone, Debug, PartialEq)]
pub struct VehiclePositionFeed {
    /// The vehicle positions, in the order in which the service sends them.
    pub entity: Vec<VehiclePosition>,
}

/// The mathematical model of a [`VehiclePositionFeed`].
pub ghost struct VehiclePositionFeedView {
    pub entity: Seq<VehiclePositionView>,
}

impl View for VehiclePositionFeed {
    type V = VehiclePositionFeedView;

    open spec fn view(&self) -> VehiclePositionFeedView {
        VehiclePositionFeedView { entity: models::<VehiclePosition>(self.entity@) }
    }
}

/// The feed that `json` holds: an object whose member `entity` is an array of
/// vehicle positions.
pub open spec fn feed_of(json: JsonValue) -> Result<VehiclePositionFeedView, DecodeError> {
    if !(json is Object) {
        Err(DecodeError::NotARecord(json.shape()))
    } else {
        match json.member(Field::Entity.key()) {
            None => Err(DecodeError::Missing(Field::Entity)),
            Some(JsonValue::Array(items)) => match records_in::<VehiclePosition>(items) {
                Err(e) => Err(e),
                Ok(entity) => Ok(VehiclePositionFeedView { entity }),
            },
            Some(other) => Err(DecodeError::Unexpected(Field::Entity, other.shape())),
        }
    }
}

impl Decode for VehiclePositionFeed {
    type Model = VehiclePositionFeedView;

    open spec fn model(&self) -> VehiclePositionFeedView {
        self@
    }

    open spec fn decoded(json: JsonValue) -> Result<VehiclePositionFeedView, DecodeError> {
        feed_of(json)
    }

    fn decode(json: &Json) -> (r: Result<Self, DecodeError>) {
        match json {
            Json::Object(_) => {},
            other => {
                return Err(DecodeError::NotARecord(other.shape()));
            },
        }
        match json.member(Field::Entity.name()) {
            None => Err(DecodeError::Missing(Field::Entity)),
            Some(Json::Array(items)) => {
                assert(json@.member(Field::Entity.key())->0->Array_0 =~= items@.map_values(
                    |j: Json| j@,
                ));
                let entity = records::<VehiclePosition>(items)?;
                Ok(VehiclePositionFeed { entity })
            },
            Some(other) => Err(DecodeError::Unexpected(Field::Entity, other.shape())),
        }
    }
}

} // verus!
