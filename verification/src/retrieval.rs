//! The four retrieval operations: where each one fetches from, and what it
//! hands to the host once the fetch has ended.

use vstd::prelude::*;
use vstd::string::*;

use crate::decode::models;
use crate::error::FetchError;
use crate::route::RoutePattern;
use crate::stop::{with_short_id_of, with_short_ids, BusStop, BusStopView};
use crate::timetable::StopTimetable;
use crate::vehicle::{VehiclePosition, VehiclePositionFeed};

verus! {

/// One of the retrieval operations.
#[derive(Clone, Copy, Debug, PartialEq, Eq, Structural)]
pub enum Operation {
    BusStops,
    BusRoutes,
    BusTimetables,
    BusRealtime,
}

/// Where the upstream service is.
pub open spec fn base_url() -> Seq<char> {
    "https://api-public.odpt.org/api/v4/"@
}

impl Operation {
    /// What follows the address of the service in the address from which
    /// this operation fetches.
    pub open spec fn path_of(self) -> Seq<char> {
        match self {
            Operation::BusStops => "odpt:BusstopPole.json"@,
            Operation::BusRoutes => "odpt:BusroutePattern.json"@,
            Operation::BusTimetables => "odpt:BusstopPoleTimetable.json"@,
            Operation::BusRealtime => "gtfs/realtime/ToeiBus"@,
        }
    }

    /// What follows the address of the service in the address from which
    /// this operation fetches.
    pub fn path(self) -> (r: &'static str)
        ensures
            r@ == self.path_of(),
    {
        match self {
            Operation::BusStops => "odpt:BusstopPole.json",
            Operation::BusRoutes => "odpt:BusroutePattern.json",
            Operation::BusTimetables => "odpt:BusstopPoleTimetable.json",
            Operation::BusRealtime => "gtfs/realtime/ToeiBus",
        }
    }

    /// The address from which this operation fetches. The request carries no
    /// query and no credentials.
    pub fn url(self) -> (r: String)
        ensures
            r@ == base_url() + self.path_of(),
    {
        let mut url = "https://api-public.odpt.org/api/v4/".to_owned();
        url.append(self.path());
        url
    }
}

/// Ends the retrieval of the bus stops: every stop gets its short
/// identifier, and a failure becomes its line.
pub fn get_bus_stops(fetched: Result<Vec<BusStop>, FetchError>) -> (r: Result<Vec<BusStop>, String>)
    ensures
        match fetched {
            Ok(stops) => r matches Ok(filled) && models::<BusStop>(filled@) == models::<BusStop>(
                stops@,
            ).map_values(|stop: BusStopView| with_short_id_of(stop)),
            Err(e) => r matches Err(line) && line@ == e.message_of(),
        },
{
    match fetched {
        Ok(stops) => Ok(with_short_ids(stops)),
        Err(e) => Err(e.message()),
    }
}

/// Ends the retrieval of the route patterns: they are handed on as they
/// came, and a failure becomes its line.
pub fn get_bus_routes(fetched: Result<Vec<RoutePattern>, FetchError>) -> (r: Result<
    Vec<RoutePattern>,
    String,
>)
    ensures
        match fetched {
            Ok(routes) => r == Ok::<Vec<RoutePattern>, String>(routes),
            Err(e) => r matches Err(line) && line@ == e.message_of(),
        },
{
    match fetched {
        Ok(routes) => Ok(routes),
        Err(e) => Err(e.message()),
    }
}

/// Ends the retrieval of the timetables: they are handed on as they came,
/// and a failure becomes its line.
pub fn get_bus_timetables(fetched: Result<Vec<StopTimetable>, FetchError>) -> (r: Result<
    Vec<StopTimetable>,
    String,
>)
    ensures
        match fetched {
            Ok(timetables) => r == Ok::<Vec<StopTimetable>, String>(timetables),
            Err(e) => r matches Err(line) && line@ == e.message_of(),
        },
{
    match fetched {
        Ok(timetables) => Ok(timetables),
        Err(e) => Err(e.message()),
    }
}

/// Ends the retrieval of the vehicle positions: the positions are taken out
/// of the feed that held them, and a failure becomes its line.
pub fn get_bus_realtime(fetched: Result<VehiclePositionFeed, FetchError>) -> (r: Result<
    Vec<VehiclePosition>,
    String,
>)
    ensures
        match fetched {
            Ok(feed) => r == Ok::<Vec<VehiclePosition>, String>(feed.entity),
            Err(e) => r matches Err(line) && line@ == e.message_of(),
        },
{
    match fetched {
        Ok(feed) => Ok(feed.entity),
        Err(e) => Err(e.message()),
    }
}

} // verus!
