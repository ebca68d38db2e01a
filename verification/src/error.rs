//! What can go wrong when a record set is fetched, and how a failure reads to
//! the host.

use vstd::prelude::*;
use vstd::string::*;

use crate::json::Shape;
use crate::status::{code_digits, digit_char, is_status_code, status_line, Status};

verus! {

/// A member of an upstream JSON object that a decoder reads.
#[derive(Clone, Copy, Debug, PartialEq, Eq, Structural)]
pub enum Field {
    /// `title`: the name of a bus stop.
    Title,
    /// `en`: the localized name inside a structured title.
    LocalizedName,
    /// `ja`: the primary name inside a structured title.
    PrimaryName,
    /// `ja-Hrkt`: the name in the alternate script inside a structured title.
    AlternateScriptName,
    /// `owl:sameAs`: the identifier of a bus stop.
    ExternalId,
    /// `geo:lat`
    Latitude,
    /// `geo:long`
    Longitude,
    /// `odpt:busroutePattern`: the route patterns that serve a bus stop.
    RoutePatternRefs,
    /// `odpt:busstopPoleTimetable`: the timetables of a bus stop.
    TimetableRefs,
    /// `odpt:routeName`
    RouteName,
    /// `odpt:fromBusstopPole`
    FromStopRef,
    /// `odpt:toBusstopPole`
    ToStopRef,
    /// `odpt:busstopPole`: the bus stop that a timetable belongs to.
    StopRef,
    /// `odpt:timeTable`: the departures of a timetable.
    Departures,
    /// `odpt:departureTime`
    DepartureTime,
    /// `entity`: the vehicle positions inside a realtime feed.
    Entity,
    /// `id`: the identifier of a vehicle position.
    Id,
    /// `gtfs:trip`
    Trip,
    /// `gtfs:tripId`
    TripId,
    /// `gtfs:vehicle`
    Vehicle,
    /// `gtfs:id`: the identifier of the vehicle.
    VehicleId,
    /// `position`
    Position,
    /// `latitude`, inside a position.
    PositionLatitude,
    /// `longitude`, inside a position.
    PositionLongitude,
}

impl Field {
    /// The name under which the upstream service sends this member.
    pub open spec fn key(self) -> Seq<char> {
        match self {
            Field::Title => "title"@,
            Field::LocalizedName => "en"@,
            Field::PrimaryName => "ja"@,
            Field::AlternateScriptName => "ja-Hrkt"@,
            Field::ExternalId => "owl:sameAs"@,
            Field::Latitude => "geo:lat"@,
            Field::Longitude => "geo:long"@,
            Field::RoutePatternRefs => "odpt:busroutePattern"@,
            Field::TimetableRefs => "odpt:busstopPoleTimetable"@,
            Field::RouteName => "odpt:routeName"@,
            Field::FromStopRef => "odpt:fromBusstopPole"@,
            Field::ToStopRef => "odpt:toBusstopPole"@,
            Field::StopRef => "odpt:busstopPole"@,
            Field::Departures => "odpt:timeTable"@,
            Field::DepartureTime => "odpt:departureTime"@,
            Field::Entity => "entity"@,
            Field::Id => "id"@,
            Field::Trip => "gtfs:trip"@,
            Field::TripId => "gtfs:tripId"@,
            Field::Vehicle => "gtfs:vehicle"@,
            Field::VehicleId => "gtfs:id"@,
            Field::Position => "position"@,
            Field::PositionLatitude => "latitude"@,
            Field::PositionLongitude => "longitude"@,
        }
    }

    /// The name under which the upstream service sends this member.
    pub fn name(self) -> (r: &'static str)
        ensures
            r@ == self.key(),
    {
        match self {
            Field::Title => "title",
            Field::LocalizedName => "en",
            Field::PrimaryName => "ja",
            Field::AlternateScriptName => "ja-Hrkt",
            Field::ExternalId => "owl:sameAs",
            Field::Latitude => "geo:lat",
            Field::Longitude => "geo:long",
            Field::RoutePatternRefs => "odpt:busroutePattern",
            Field::TimetableRefs => "odpt:busstopPoleTimetable",
            Field::RouteName => "odpt:routeName",
            Field::FromStopRef => "odpt:fromBusstopPole",
            Field::ToStopRef => "odpt:toBusstopPole",
            Field::StopRef => "odpt:busstopPole",
            Field::Departures => "odpt:timeTable",
            Field::DepartureTime => "odpt:departureTime",
            Field::Entity => "entity",
            Field::Id => "id",
            Field::Trip => "gtfs:trip",
            Field::TripId => "gtfs:tripId",
            Field::Vehicle => "gtfs:vehicle",
            Field::VehicleId => "gtfs:id",
            Field::Position => "position",
            Field::PositionLatitude => "latitude",
            Field::PositionLongitude => "longitude",
        }
    }
}

/// Why a response body could not be turned into records.
#[derive(Clone, Copy, Debug, PartialEq, Eq, Structural)]
pub enum DecodeError {
    /// The body could not be read to its end.
    Unread,
    /// The body is no JSON text.
    Syntax,
    /// A list of records was asked for and a value of this shape came.
    NotAList(Shape),
    /// A record was asked for and a value of this shape, no object, came.
    NotARecord(Shape),
    /// A record lacks this member.
    Missing(Field),
    /// This member holds a value of a shape that it may not have.
    Unexpected(Field, Shape),
}

/// Why a fetch failed.
#[derive(Clone, Copy, Debug, PartialEq, Eq)]
pub enum FetchError {
    /// No response came: the transport failed.
    Network,
    /// The service answered with a status outside 200 to 299.
    Http(Status),
    /// The body of a successful response could not be decoded.
    Decode(DecodeError),
}

impl FetchError {
    /// The one line that the host is shown for this failure.
    pub open spec fn message_of(self) -> Seq<char> {
        match self {
            FetchError::Network => "リクエストエラー"@,
            FetchError::Http(status) => "API エラー: "@ + status_line(status@),
            FetchError::Decode(_) => "JSON 解析エラー"@,
        }
    }

    /// The one line that the host is shown for this failure. Only an HTTP
    /// failure says more than its kind: its line ends in the status.
    pub fn message(&self) -> (r: String)
        ensures
            r@ == self.message_of(),
    {
        match self {
            FetchError::Network => "リクエストエラー".to_owned(),
            FetchError::Http(status) => {
                let mut line = "API エラー: ".to_owned();
                let text = status.text();
                line.append(text.as_str());
                line
            },
            FetchError::Decode(_) => "JSON 解析エラー".to_owned(),
        }
    }
}

/// The line of an HTTP failure is the line of no other kind of failure.
pub proof fn lemma_http_message_is_its_own(status: Status, other: FetchError)
    requires
        !(other is Http),
    ensures
        FetchError::Http(status).message_of() != other.message_of(),
{
    reveal_strlit("リクエストエラー");
    reveal_strlit("API エラー: ");
    reveal_strlit("JSON 解析エラー");
    let line = FetchError::Http(status).message_of();
    assert(line[0] == 'A');
    assert(other.message_of()[0] != 'A');
}

/// The line of an HTTP failure tells the status: two statuses with the same
/// line are the same status.
pub proof fn lemma_http_message_tells_status(a: Status, b: Status)
    requires
        is_status_code(a@),
        is_status_code(b@),
        FetchError::Http(a).message_of() == FetchError::Http(b).message_of(),
    ensures
        a@ == b@,
{
    reveal_strlit("API エラー: ");
    reveal_strlit("0123456789");
    let la = FetchError::Http(a).message_of();
    let lb = FetchError::Http(b).message_of();
    let n = "API エラー: "@.len() as int;
    assert(la[n] == code_digits(a@)[0]);
    assert(la[n + 1] == code_digits(a@)[1]);
    assert(la[n + 2] == code_digits(a@)[2]);
    assert(lb[n] == code_digits(b@)[0]);
    assert(lb[n + 1] == code_digits(b@)[1]);
    assert(lb[n + 2] == code_digits(b@)[2]);
    lemma_digit_char_tells_digit(a@ as int / 100, b@ as int / 100);
    lemma_digit_char_tells_digit(a@ as int / 10 % 10, b@ as int / 10 % 10);
    lemma_digit_char_tells_digit(a@ as int % 10, b@ as int % 10);
}

/// Two digits with the same character are the same digit.
proof fn lemma_digit_char_tells_digit(x: int, y: int)
    requires
        0 <= x < 10,
        0 <= y < 10,
        digit_char(x) == digit_char(y),
    ensures
        x == y,
{
    reveal_strlit("0123456789");
}

} // verus!
