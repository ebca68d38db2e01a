//! Bus stops, and the short identifier that is derived for each.

use vstd::prelude::*;
use vstd::string::*;

use crate::decode::{
    models,
    number,
    number_of,
    text,
    text_of,
    texts,
    texts_of,
    views,
    Decode,
};
use crate::error::{DecodeError, Field};
use crate::json::{Json, JsonValue};
use crate::title::{deserialize_title, title_of, Title, TitleView};

verus! {

/// A bus stop.
#[derive(Clone, Debug, PartialEq)]
pub struct BusStop {
    /// The name of the stop.
    pub title: Option<Title>,
    /// The identifier under which the service knows the stop.
    pub external_id: String,
    /// What follows the last `.` of `external_id`. The service does not send
    /// it: a stop that was just decoded has it empty, and
    /// [`with_short_ids`] fills it in.
    pub short_id: String,
    pub latitude: serde_json::Number,
    pub longitude: serde_json::Number,
    /// The route patterns that serve the stop, by their identifiers.
    pub route_pattern_refs: Vec<String>,
    /// The timetables of the stop, by their identifiers.
    pub timetable_refs: Vec<String>,
}

/// The mathematical model of a [`BusStop`].
pub ghost struct BusStopView {
    pub title: Option<TitleView>,
    pub external_id: Seq<char>,
    pub short_id: Seq<char>,
    pub latitude: serde_json::Number,
    pub longitude: serde_json::Number,
    pub route_pattern_refs: Seq<Seq<char>>,
    pub timetable_refs: Seq<Seq<char>>,
}

impl View for BusStop {
    type V = BusStopView;

    open spec fn view(&self) -> BusStopView {
        BusStopView {
            title: match self.title {
                Some(title) => Some(title@),
                None => None,
            },
            external_id: self.external_id@,
            short_id: self.short_id@,
            latitude: self.latitude,
            longitude: self.longitude,
            route_pattern_refs: views(self.route_pattern_refs@),
            timetable_refs: views(self.timetable_refs@),
        }
    }
}

/// The short identifier that belongs to `external_id`: what follows its last
/// `.`, and the whole of it where it holds no `.`.
pub open spec fn short_id_of(external_id: Seq<char>) -> Seq<char> {
    match external_id.index_of_last('.') {
        Some(dot) => external_id.subrange(dot + 1, external_id.len() as int),
        None => external_id,
    }
}

/// The title that the member `title` of `json` holds. The member must be
/// there.
pub open spec fn title_member_of(json: JsonValue) -> Result<TitleView, DecodeError> {
    match json.member(Field::Title.key()) {
        None => Err(DecodeError::Missing(Field::Title)),
        Some(raw) => title_of(raw),
    }
}

/// The bus stop that `json` holds, with its short identifier still empty.
/// The members are read in the order of the fields of [`BusStop`], and the
/// first that fails is reported.
pub open spec fn stop_of(json: JsonValue) -> Result<BusStopView, DecodeError> {
    if !(json is Object) {
        Err(DecodeError::NotARecord(json.shape()))
    } else {
        match title_member_of(json) {
            Err(e) => Err(e),
            Ok(title) => match text_of(json, Field::ExternalId) {
                Err(e) => Err(e),
                Ok(external_id) => match number_of(json, Field::Latitude) {
                    Err(e) => Err(e),
                    Ok(latitude) => match number_of(json, Field::Longitude) {
                        Err(e) => Err(e),
                        Ok(longitude) => match texts_of(json, Field::RoutePatternRefs) {
                            Err(e) => Err(e),
                            Ok(route_pattern_refs) => match texts_of(json, Field::TimetableRefs) {
                                Err(e) => Err(e),
                                Ok(timetable_refs) => Ok(
                                    BusStopView {
                                        title: Some(title),
                                        external_id,
                                        short_id: Seq::empty(),
                                        latitude,
                                        longitude,
                                        route_pattern_refs,
                                        timetable_refs,
                                    },
                                ),
                            },
                        },
                    },
                },
            },
        }
    }
}

impl Decode for BusStop {
    type Model = BusStopView;

    open spec fn model(&self) -> BusStopView {
        self@
    }

    open spec fn decoded(json: JsonValue) -> Result<BusStopView, DecodeError> {
        stop_of(json)
    }

    fn decode(json: &Json) -> (r: Result<Self, DecodeError>) {
        match json {
            Json::Object(_) => {},
            other => {
                return Err(DecodeError::NotARecord(other.shape()));
            },
        }
        let title = match json.member(Field::Title.name()) {
            None => {
                return Err(DecodeError::Missing(Field::Title));
            },
            Some(raw) => deserialize_title(raw)?,
        };
        let external_id = text(json, Field::ExternalId)?;
        let latitude = number(json, Field::Latitude)?;
        let longitude = number(json, Field::Longitude)?;
        let route_pattern_refs = texts(json, Field::RoutePatternRefs)?;
        let timetable_refs = texts(json, Field::TimetableRefs)?;
        Ok(
            BusStop {
                title,
                external_id,
                short_id: String::new(),
                latitude,
                longitude,
                route_pattern_refs,
                timetable_refs,
            },
        )
    }
}

/// Derives the short identifier of a bus stop from its identifier: what
/// follows the last `.`. An identifier without a `.` is its own short
/// identifier.
pub fn short_id(external_id: &str) -> (r: String)
    ensures
        r@ == short_id_of(external_id@),
{
    let n = external_id.unicode_len();
    let mut start: usize = 0;
    let mut i: usize = 0;
    for c in it: external_id.chars()
        invariant
            it.seq() == external_id@,
            n == external_id@.len(),
            i == it.index(),
            start <= i,
            start > 0 ==> external_id@[start - 1] == '.',
            forall|k: int| start <= k < i ==> external_id@[k] != '.',
    {
        i += 1;
        if c == '.' {
            start = i;
        }
    }
    proof {
        external_id@.index_of_last_ensures('.');
        match external_id@.index_of_last('.') {
            Some(dot) => {
                assert(dot + 1 == start) by {
                    if dot >= start {
                        assert(external_id@[dot] != '.');
                    }
                    if dot + 1 < start {
                        assert(external_id@[start - 1] == '.');
                    }
                }
            },
            None => {
                if start > 0 {
                    assert(external_id@.contains(external_id@[start - 1]));
                }
                assert(external_id@.subrange(0, n as int) =~= external_id@);
            },
        }
    }
    external_id.substring_char(start, n).to_owned()
}

/// The bus stop `stop` with its short identifier derived from its
/// identifier, and nothing else changed.
pub open spec fn with_short_id_of(stop: BusStopView) -> BusStopView {
    BusStopView { short_id: short_id_of(stop.external_id), ..stop }
}

/// Gives each of `stops` its short identifier. The stops stay in order, and
/// nothing else in them changes.
pub fn with_short_ids(stops: Vec<BusStop>) -> (r: Vec<BusStop>)
    ensures
        models::<BusStop>(r@) == models::<BusStop>(stops@).map_values(
            |stop: BusStopView| with_short_id_of(stop),
        ),
{
    let ghost given = stops@;
    let mut filled: Vec<BusStop> = Vec::new();
    for stop in it: stops.into_iter()
        invariant
            it.seq() == given,
            filled@.len() == it.index(),
            forall|i: int|
                0 <= i < filled@.len() ==> (#[trigger] filled@[i])@ == with_short_id_of(given[i]@),
    {
        let short = short_id(stop.external_id.as_str());
        filled.push(BusStop { short_id: short, ..stop });
    }
    assert(models::<BusStop>(filled@) =~= models::<BusStop>(given).map_values(
        |stop: BusStopView| with_short_id_of(stop),
    ));
    filled
}

/// Where the identifier of a bus stop holds a `.`, the short identifier is
/// what stands strictly after the last one.
pub proof fn lemma_short_id_follows_last_dot(external_id: Seq<char>, dot: int)
    requires
        0 <= dot < external_id.len(),
        external_id[dot] == '.',
        forall|k: int| dot < k < external_id.len() ==> external_id[k] != '.',
    ensures
        short_id_of(external_id) == external_id.subrange(dot + 1, external_id.len() as int),
        !short_id_of(external_id).contains('.'),
{
    external_id.index_of_last_ensures('.');
    assert(external_id.contains('.'));
    let last = external_id.index_of_last('.')->0;
    assert(last == dot) by {
        if last < dot {
            assert(external_id[dot] != '.');
        }
        if dot < last {
            assert(external_id[last] != '.');
        }
    }
}

/// A bus stop whose identifier holds a `.` gets as its short identifier
/// what stands strictly after the last one, and keeps all else.
pub proof fn lemma_filled_stop_has_short_id(stop: BusStopView, dot: int)
    requires
        0 <= dot < stop.external_id.len(),
        stop.external_id[dot] == '.',
        forall|k: int| dot < k < stop.external_id.len() ==> stop.external_id[k] != '.',
    ensures
        with_short_id_of(stop).short_id == stop.external_id.subrange(
            dot + 1,
            stop.external_id.len() as int,
        ),
        with_short_id_of(stop) == (BusStopView { short_id: with_short_id_of(stop).short_id, ..stop }),
{
    lemma_short_id_follows_last_dot(stop.external_id, dot);
}

} // verus!
