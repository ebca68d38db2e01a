//! Retrieval and normalisation of public-transit open data: bus stops, route
//! patterns, stop timetables and realtime vehicle positions.

pub mod decode;
pub mod error;
pub mod fetch;
pub mod json;
pub mod retrieval;
pub mod route;
pub mod status;
pub mod stop;
pub mod timetable;
pub mod title;
pub mod vehicle;
