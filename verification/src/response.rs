//! The answer of the service: how it is read from the body of a response
//! and written out again.

use crate::error::RouteError;
use crate::guide::{Guide, GuideModel};
use crate::json::{
    empty_object, is_object, member_of, parse, parsed, render, rendered, value_model, Json,
    Numeral,
};
use crate::request::check_status;
use crate::schema::{
    accepts_field, decode_field, distinct_entry_keys, encode_field, exact_field, field,
    lemma_object_is, lemma_object_member, lemma_object_member_absent, lemma_rewritten_field,
    lemma_written_field, object_of, optional_model, read_field, written, Entry, Mismatch,
    Schema,
};
use vstd::pervasive::unreached;
use vstd::prelude::*;

verus! {

/// A sum of tolls.
#[derive(Debug, PartialEq)]
pub struct Toll {
    /// The amount.
    pub toll: Option<serde_json::Number>,
}

/// The mathematical value of a [`Toll`].
pub ghost struct TollModel {
    pub toll: Option<Numeral>,
}

impl Schema for Toll {
    type Model = TollModel;

    open spec fn model(&self) -> TollModel {
        TollModel {
            toll: optional_model(self.toll),
        }
    }

    open spec fn accepts(doc: Json) -> bool {
        &&& doc is Object
        &&& accepts_field::<serde_json::Number>(doc, "toll"@)
    }

    open spec fn read(doc: Json) -> TollModel {
        TollModel {
            toll: read_field::<serde_json::Number>(doc, "toll"@),
        }
    }

    open spec fn write(m: TollModel) -> Json {
        object_of(Toll::entries(m))
    }

    open spec fn exact(doc: Json) -> bool {
        &&& forall|key: Seq<char>|
            #[trigger] doc->Object_0.contains_key(key) ==> {
                &&& Toll::knows(key)
                &&& !(doc->Object_0[key] is Null)
            }
        &&& exact_field::<serde_json::Number>(doc, "toll"@)
    }

    fn decode(v: &serde_json::Value) -> (r: Result<Toll, Mismatch>) {
        if !is_object(v) {
            return Err(Mismatch);
        }
        let toll = decode_field::<serde_json::Number>(v, "toll")?;
        Ok(Toll { toll })
    }

    fn encode(&self) -> (v: serde_json::Value) {
        let ghost entries = Toll::entries(self.model());
        let mut v = empty_object();
        encode_field::<serde_json::Number>(&mut v, "toll", &self.toll, Ghost(entries), Ghost(0));
        v
    }

    proof fn lemma_rewrite(doc: Json) {
        let m = Toll::read(doc);
        let entries = Toll::entries(m);
        Toll::lemma_keys(m);
        lemma_rewritten_field::<serde_json::Number>(doc, "toll"@);
        assert(member_of(doc, entries[0].0) == entries[0].1);
        assert forall|key: Seq<char>| doc->Object_0.contains_key(key) implies exists|i: int|
            0 <= i < entries.len() && (#[trigger] entries[i]).0 == key by {
            if key == "toll"@ {
                assert(entries[0].0 == key);
            }
        }
        lemma_object_is(entries, doc->Object_0);
    }

    proof fn lemma_round_trip(m: TollModel) {
        Toll::lemma_keys(m);
        let entries = Toll::entries(m);
        lemma_written_field::<serde_json::Number>(entries, 0, m.toll);
    }
}

impl Toll {
    /// The fields of a value, each with its key and with what is written
    /// under it.
    pub open spec fn entries(m: TollModel) -> Seq<Entry> {
        seq![
            ("toll"@, written::<serde_json::Number>(m.toll)),
        ]
    }

    /// Whether `key` is the key of a field.
    pub open spec fn knows(key: Seq<char>) -> bool {
        ||| key == "toll"@
    }

    /// No two fields share a key.
    pub proof fn lemma_keys(m: TollModel)
        ensures
            distinct_entry_keys(Toll::entries(m)),
    {
        reveal_strlit("toll");
        assert("toll"@ =~= seq!['t', 'o', 'l', 'l']);
    }
}

/// A date and a time of day.
#[derive(Debug, PartialEq)]
pub struct DateTime {
    /// The date, as `yyyyMMdd`.
    pub date: Option<String>,
    /// The time of day, as `HHmmss`.
    pub time: Option<String>,
}

/// The mathematical value of a [`DateTime`].
pub ghost struct DateTimeModel {
    pub date: Option<Seq<char>>,
    pub time: Option<Seq<char>>,
}

impl Schema for DateTime {
    type Model = DateTimeModel;

    open spec fn model(&self) -> DateTimeModel {
        DateTimeModel {
            date: optional_model(self.date),
            time: optional_model(self.time),
        }
    }

    open spec fn accepts(doc: Json) -> bool {
        &&& doc is Object
        &&& accepts_field::<String>(doc, "date"@)
        &&& accepts_field::<String>(doc, "time"@)
    }

    open spec fn read(doc: Json) -> DateTimeModel {
        DateTimeModel {
            date: read_field::<String>(doc, "date"@),
            time: read_field::<String>(doc, "time"@),
        }
    }

    open spec fn write(m: DateTimeModel) -> Json {
        object_of(DateTime::entries(m))
    }

    open spec fn exact(doc: Json) -> bool {
        &&& forall|key: Seq<char>|
            #[trigger] doc->Object_0.contains_key(key) ==> {
                &&& DateTime::knows(key)
                &&& !(doc->Object_0[key] is Null)
            }
        &&& exact_field::<String>(doc, "date"@)
        &&& exact_field::<String>(doc, "time"@)
    }

    fn decode(v: &serde_json::Value) -> (r: Result<DateTime, Mismatch>) {
        if !is_object(v) {
            return Err(Mismatch);
        }
        let date = decode_field::<String>(v, "date")?;
        let time = decode_field::<String>(v, "time")?;
        Ok(DateTime { date, time })
    }

    fn encode(&self) -> (v: serde_json::Value) {
        let ghost entries = DateTime::entries(self.model());
        let mut v = empty_object();
        encode_field::<String>(&mut v, "date", &self.date, Ghost(entries), Ghost(0));
        encode_field::<String>(&mut v, "time", &self.time, Ghost(entries), Ghost(1));
        v
    }

    proof fn lemma_rewrite(doc: Json) {
        let m = DateTime::read(doc);
        let entries = DateTime::entries(m);
        DateTime::lemma_keys(m);
        lemma_rewritten_field::<String>(doc, "date"@);
        assert(member_of(doc, entries[0].0) == entries[0].1);
        lemma_rewritten_field::<String>(doc, "time"@);
        assert(member_of(doc, entries[1].0) == entries[1].1);
        assert forall|key: Seq<char>| doc->Object_0.contains_key(key) implies exists|i: int|
            0 <= i < entries.len() && (#[trigger] entries[i]).0 == key by {
            if key == "date"@ {
                assert(entries[0].0 == key);
            } else {
                assert(entries[1].0 == key);
            }
        }
        lemma_object_is(entries, doc->Object_0);
    }

    proof fn lemma_round_trip(m: DateTimeModel) {
        DateTime::lemma_keys(m);
        let entries = DateTime::entries(m);
        lemma_written_field::<String>(entries, 0, m.date);
        lemma_written_field::<String>(entries, 1, m.time);
    }
}

impl DateTime {
    /// The fields of a value, each with its key and with what is written
    /// under it.
    pub open spec fn entries(m: DateTimeModel) -> Seq<Entry> {
        seq![
            ("date"@, written::<String>(m.date)),
            ("time"@, written::<String>(m.time)),
        ]
    }

    /// Whether `key` is the key of a field.
    pub open spec fn knows(key: Seq<char>) -> bool {
        ||| key == "date"@
        ||| key == "time"@
    }

    /// No two fields share a key.
    pub proof fn lemma_keys(m: DateTimeModel)
        ensures
            distinct_entry_keys(DateTime::entries(m)),
    {
        reveal_strlit("date");
        assert("date"@ =~= seq!['d', 'a', 't', 'e']);
        reveal_strlit("time");
        assert("time"@ =~= seq!['t', 'i', 'm', 'e']);
    }
}

/// The totals of a route.
#[derive(Debug, PartialEq)]
pub struct RouteSummary {
    /// The length of the route.
    pub total_distance: Option<serde_json::Number>,
    /// The time that the route takes.
    pub total_travel_time: Option<serde_json::Number>,
    /// The tolls of the route.
    pub total_toll: Option<Toll>,
    /// The tolls of the route with electronic toll collection.
    pub total_toll_etc: Option<Toll>,
    /// When the route is left on.
    pub departure_time: Option<DateTime>,
    /// The time that each section takes.
    pub section_time: Option<Vec<serde_json::Number>>,
}

/// The mathematical value of a [`RouteSummary`].
pub ghost struct RouteSummaryModel {
    pub total_distance: Option<Numeral>,
    pub total_travel_time: Option<Numeral>,
    pub total_toll: Option<TollModel>,
    pub total_toll_etc: Option<TollModel>,
    pub departure_time: Option<DateTimeModel>,
    pub section_time: Option<Seq<Numeral>>,
}

impl Schema for RouteSummary {
    type Model = RouteSummaryModel;

    open spec fn model(&self) -> RouteSummaryModel {
        RouteSummaryModel {
            total_distance: optional_model(self.total_distance),
            total_travel_time: optional_model(self.total_travel_time),
            total_toll: optional_model(self.total_toll),
            total_toll_etc: optional_model(self.total_toll_etc),
            departure_time: optional_model(self.departure_time),
            section_time: optional_model(self.section_time),
        }
    }

    open spec fn accepts(doc: Json) -> bool {
        &&& doc is Object
        &&& accepts_field::<serde_json::Number>(doc, "totalDistance"@)
        &&& accepts_field::<serde_json::Number>(doc, "totalTravelTime"@)
        &&& accepts_field::<Toll>(doc, "totalToll"@)
        &&& accepts_field::<Toll>(doc, "totalTollEtc"@)
        &&& accepts_field::<DateTime>(doc, "departureTime"@)
        &&& accepts_field::<Vec<serde_json::Number>>(doc, "sectionTime"@)
    }

    open spec fn read(doc: Json) -> RouteSummaryModel {
        RouteSummaryModel {
            total_distance: read_field::<serde_json::Number>(doc, "totalDistance"@),
            total_travel_time: read_field::<serde_json::Number>(doc, "totalTravelTime"@),
            total_toll: read_field::<Toll>(doc, "totalToll"@),
            total_toll_etc: read_field::<Toll>(doc, "totalTollEtc"@),
            departure_time: read_field::<DateTime>(doc, "departureTime"@),
            section_time: read_field::<Vec<serde_json::Number>>(doc, "sectionTime"@),
        }
    }

    open spec fn write(m: RouteSummaryModel) -> Json {
        object_of(RouteSummary::entries(m))
    }

    open spec fn exact(doc: Json) -> bool {
        &&& forall|key: Seq<char>|
            #[trigger] doc->Object_0.contains_key(key) ==> {
                &&& RouteSummary::knows(key)
                &&& !(doc->Object_0[key] is Null)
            }
        &&& exact_field::<serde_json::Number>(doc, "totalDistance"@)
        &&& exact_field::<serde_json::Number>(doc, "totalTravelTime"@)
        &&& exact_field::<Toll>(doc, "totalToll"@)
        &&& exact_field::<Toll>(doc, "totalTollEtc"@)
        &&& exact_field::<DateTime>(doc, "departureTime"@)
        &&& exact_field::<Vec<serde_json::Number>>(doc, "sectionTime"@)
    }

    fn decode(v: &serde_json::Value) -> (r: Result<RouteSummary, Mismatch>) {
        if !is_object(v) {
            return Err(Mismatch);
        }
        let total_distance = decode_field::<serde_json::Number>(v, "totalDistance")?;
        let total_travel_time = decode_field::<serde_json::Number>(v, "totalTravelTime")?;
        let total_toll = decode_field::<Toll>(v, "totalToll")?;
        let total_toll_etc = decode_field::<Toll>(v, "totalTollEtc")?;
        let departure_time = decode_field::<DateTime>(v, "departureTime")?;
        let section_time = decode_field::<Vec<serde_json::Number>>(v, "sectionTime")?;
        Ok(RouteSummary {
            total_distance,
            total_travel_time,
            total_toll,
            total_toll_etc,
            departure_time,
            section_time,
        })
    }

    fn encode(&self) -> (v: serde_json::Value) {
        let ghost entries = RouteSummary::entries(self.model());
        let mut v = empty_object();
        encode_field::<serde_json::Number>(
            &mut v,
            "totalDistance",
            &self.total_distance,
            Ghost(entries),
            Ghost(0),
        );
        encode_field::<serde_json::Number>(
            &mut v,
            "totalTravelTime",
            &self.total_travel_time,
            Ghost(entries),
            Ghost(1),
        );
        encode_field::<Toll>(&mut v, "totalToll", &self.total_toll, Ghost(entries), Ghost(2));
        encode_field::<Toll>(
            &mut v,
            "totalTollEtc",
            &self.total_toll_etc,
            Ghost(entries),
            Ghost(3),
        );
        encode_field::<DateTime>(
            &mut v,
            "departureTime",
            &self.departure_time,
            Ghost(entries),
            Ghost(4),
        );
        encode_field::<Vec<serde_json::Number>>(
            &mut v,
            "sectionTime",
            &self.section_time,
            Ghost(entries),
            Ghost(5),
        );
        v
    }

    proof fn lemma_rewrite(doc: Json) {
        let m = RouteSummary::read(doc);
        let entries = RouteSummary::entries(m);
        RouteSummary::lemma_keys(m);
        lemma_rewritten_field::<serde_json::Number>(doc, "totalDistance"@);
        assert(member_of(doc, entries[0].0) == entries[0].1);
        lemma_rewritten_field::<serde_json::Number>(doc, "totalTravelTime"@);
        assert(member_of(doc, entries[1].0) == entries[1].1);
        lemma_rewritten_field::<Toll>(doc, "totalToll"@);
        assert(member_of(doc, entries[2].0) == entries[2].1);
        lemma_rewritten_field::<Toll>(doc, "totalTollEtc"@);
        assert(member_of(doc, entries[3].0) == entries[3].1);
        lemma_rewritten_field::<DateTime>(doc, "departureTime"@);
        assert(member_of(doc, entries[4].0) == entries[4].1);
        lemma_rewritten_field::<Vec<serde_json::Number>>(doc, "sectionTime"@);
        assert(member_of(doc, entries[5].0) == entries[5].1);
        assert forall|key: Seq<char>| doc->Object_0.contains_key(key) implies exists|i: int|
            0 <= i < entries.len() && (#[trigger] entries[i]).0 == key by {
            if key == "totalDistance"@ {
                assert(entries[0].0 == key);
            } else if key == "totalTravelTime"@ {
                assert(entries[1].0 == key);
            } else if key == "totalToll"@ {
                assert(entries[2].0 == key);
            } else if key == "totalTollEtc"@ {
                assert(entries[3].0 == key);
            } else if key == "departureTime"@ {
                assert(entries[4].0 == key);
            } else {
                assert(entries[5].0 == key);
            }
        }
        lemma_object_is(entries, doc->Object_0);
    }

    proof fn lemma_round_trip(m: RouteSummaryModel) {
        RouteSummary::lemma_keys(m);
        let entries = RouteSummary::entries(m);
        lemma_written_field::<serde_json::Number>(entries, 0, m.total_distance);
        lemma_written_field::<serde_json::Number>(entries, 1, m.total_travel_time);
        lemma_written_field::<Toll>(entries, 2, m.total_toll);
        lemma_written_field::<Toll>(entries, 3, m.total_toll_etc);
        lemma_written_field::<DateTime>(entries, 4, m.departure_time);
        lemma_written_field::<Vec<serde_json::Number>>(entries, 5, m.section_time);
    }
}

impl RouteSummary {
    /// The fields of a value, each with its key and with what is written
    /// under it.
    pub open spec fn entries(m: RouteSummaryModel) -> Seq<Entry> {
        seq![
            ("totalDistance"@, written::<serde_json::Number>(m.total_distance)),
            ("totalTravelTime"@, written::<serde_json::Number>(m.total_travel_time)),
            ("totalToll"@, written::<Toll>(m.total_toll)),
            ("totalTollEtc"@, written::<Toll>(m.total_toll_etc)),
            ("departureTime"@, written::<DateTime>(m.departure_time)),
            ("sectionTime"@, written::<Vec<serde_json::Number>>(m.section_time)),
        ]
    }

    /// Whether `key` is the key of a field.
    pub open spec fn knows(key: Seq<char>) -> bool {
        ||| key == "totalDistance"@
        ||| key == "totalTravelTime"@
        ||| key == "totalToll"@
        ||| key == "totalTollEtc"@
        ||| key == "departureTime"@
        ||| key == "sectionTime"@
    }

    /// No two fields share a key.
    pub proof fn lemma_keys(m: RouteSummaryModel)
        ensures
            distinct_entry_keys(RouteSummary::entries(m)),
    {
        reveal_strlit("totalDistance");
        assert("totalDistance"@ =~= seq![
            't', 'o', 't', 'a', 'l', 'D', 'i', 's', 't', 'a', 'n', 'c', 'e',
        ]);
        reveal_strlit("totalTravelTime");
        assert("totalTravelTime"@ =~= seq![
            't', 'o', 't', 'a', 'l', 'T', 'r', 'a', 'v', 'e', 'l', 'T', 'i', 'm', 'e',
        ]);
        reveal_strlit("totalToll");
        assert("totalToll"@ =~= seq!['t', 'o', 't', 'a', 'l', 'T', 'o', 'l', 'l']);
        reveal_strlit("totalTollEtc");
        assert("totalTollEtc"@ =~= seq![
            't', 'o', 't', 'a', 'l', 'T', 'o', 'l', 'l', 'E', 't', 'c',
        ]);
        reveal_strlit("departureTime");
        assert("departureTime"@ =~= seq![
            'd', 'e', 'p', 'a', 'r', 't', 'u', 'r', 'e', 'T', 'i', 'm', 'e',
        ]);
        reveal_strlit("sectionTime");
        assert("sectionTime"@ =~= seq!['s', 'e', 'c', 't', 'i', 'o', 'n', 'T', 'i', 'm', 'e']);
    }
}

/// The answer of the service to a route request.
#[derive(Debug, PartialEq)]
pub struct RouteResult {
    /// The id of the route.
    pub route_id: Option<String>,
    /// How the calculation ended.
    pub status: Option<String>,
    /// The id under which the result can be fetched again.
    pub route_result_id: Option<String>,
    /// The totals of the route.
    pub summary: Option<RouteSummary>,
    /// The turn-by-turn description of the route.
    pub guide: Option<Vec<Guide>>,
}

/// The mathematical value of a [`RouteResult`].
pub ghost struct RouteResultModel {
    pub route_id: Option<Seq<char>>,
    pub status: Option<Seq<char>>,
    pub route_result_id: Option<Seq<char>>,
    pub summary: Option<RouteSummaryModel>,
    pub guide: Option<Seq<GuideModel>>,
}

impl Schema for RouteResult {
    type Model = RouteResultModel;

    open spec fn model(&self) -> RouteResultModel {
        RouteResultModel {
            route_id: optional_model(self.route_id),
            status: optional_model(self.status),
            route_result_id: optional_model(self.route_result_id),
            summary: optional_model(self.summary),
            guide: optional_model(self.guide),
        }
    }

    open spec fn accepts(doc: Json) -> bool {
        &&& doc is Object
        &&& accepts_field::<String>(doc, "routeId"@)
        &&& accepts_field::<String>(doc, "status"@)
        &&& accepts_field::<String>(doc, "routeResultId"@)
        &&& accepts_field::<RouteSummary>(doc, "summary"@)
        &&& accepts_field::<Vec<Guide>>(doc, "guide"@)
    }

    open spec fn read(doc: Json) -> RouteResultModel {
        RouteResultModel {
            route_id: read_field::<String>(doc, "routeId"@),
            status: read_field::<String>(doc, "status"@),
            route_result_id: read_field::<String>(doc, "routeResultId"@),
            summary: read_field::<RouteSummary>(doc, "summary"@),
            guide: read_field::<Vec<Guide>>(doc, "guide"@),
        }
    }

    open spec fn write(m: RouteResultModel) -> Json {
        object_of(RouteResult::entries(m))
    }

    open spec fn exact(doc: Json) -> bool {
        &&& forall|key: Seq<char>|
            #[trigger] doc->Object_0.contains_key(key) ==> {
                &&& RouteResult::knows(key)
                &&& !(doc->Object_0[key] is Null)
            }
        &&& exact_field::<String>(doc, "routeId"@)
        &&& exact_field::<String>(doc, "status"@)
        &&& exact_field::<String>(doc, "routeResultId"@)
        &&& exact_field::<RouteSummary>(doc, "summary"@)
        &&& exact_field::<Vec<Guide>>(doc, "guide"@)
    }

    fn decode(v: &serde_json::Value) -> (r: Result<RouteResult, Mismatch>) {
        if !is_object(v) {
            return Err(Mismatch);
        }
        let route_id = decode_field::<String>(v, "routeId")?;
        let status = decode_field::<String>(v, "status")?;
        let route_result_id = decode_field::<String>(v, "routeResultId")?;
        let summary = decode_field::<RouteSummary>(v, "summary")?;
        let guide = decode_field::<Vec<Guide>>(v, "guide")?;
        Ok(RouteResult { route_id, status, route_result_id, summary, guide })
    }

    fn encode(&self) -> (v: serde_json::Value) {
        let ghost entries = RouteResult::entries(self.model());
        let mut v = empty_object();
        encode_field::<String>(&mut v, "routeId", &self.route_id, Ghost(entries), Ghost(0));
        encode_field::<String>(&mut v, "status", &self.status, Ghost(entries), Ghost(1));
        encode_field::<String>(
            &mut v,
            "routeResultId",
            &self.route_result_id,
            Ghost(entries),
            Ghost(2),
        );
        encode_field::<RouteSummary>(&mut v, "summary", &self.summary, Ghost(entries), Ghost(3));
        encode_field::<Vec<Guide>>(&mut v, "guide", &self.guide, Ghost(entries), Ghost(4));
        v
    }

    proof fn lemma_rewrite(doc: Json) {
        let m = RouteResult::read(doc);
        let entries = RouteResult::entries(m);
        RouteResult::lemma_keys(m);
        lemma_rewritten_field::<String>(doc, "routeId"@);
        assert(member_of(doc, entries[0].0) == entries[0].1);
        lemma_rewritten_field::<String>(doc, "status"@);
        assert(member_of(doc, entries[1].0) == entries[1].1);
        lemma_rewritten_field::<String>(doc, "routeResultId"@);
        assert(member_of(doc, entries[2].0) == entries[2].1);
        lemma_rewritten_field::<RouteSummary>(doc, "summary"@);
        assert(member_of(doc, entries[3].0) == entries[3].1);
        lemma_rewritten_field::<Vec<Guide>>(doc, "guide"@);
        assert(member_of(doc, entries[4].0) == entries[4].1);
        assert forall|key: Seq<char>| doc->Object_0.contains_key(key) implies exists|i: int|
            0 <= i < entries.len() && (#[trigger] entries[i]).0 == key by {
            if key == "routeId"@ {
                assert(entries[0].0 == key);
            } else if key == "status"@ {
                assert(entries[1].0 == key);
            } else if key == "routeResultId"@ {
                assert(entries[2].0 == key);
            } else if key == "summary"@ {
                assert(entries[3].0 == key);
            } else {
                assert(entries[4].0 == key);
            }
        }
        lemma_object_is(entries, doc->Object_0);
    }

    proof fn lemma_round_trip(m: RouteResultModel) {
        RouteResult::lemma_keys(m);
        let entries = RouteResult::entries(m);
        lemma_written_field::<String>(entries, 0, m.route_id);
        lemma_written_field::<String>(entries, 1, m.status);
        lemma_written_field::<String>(entries, 2, m.route_result_id);
        lemma_written_field::<RouteSummary>(entries, 3, m.summary);
        lemma_written_field::<Vec<Guide>>(entries, 4, m.guide);
    }
}

impl RouteResult {
    /// The fields of a value, each with its key and with what is written
    /// under it.
    pub open spec fn entries(m: RouteResultModel) -> Seq<Entry> {
        seq![
            ("routeId"@, written::<String>(m.route_id)),
            ("status"@, written::<String>(m.status)),
            ("routeResultId"@, written::<String>(m.route_result_id)),
            ("summary"@, written::<RouteSummary>(m.summary)),
            ("guide"@, written::<Vec<Guide>>(m.guide)),
        ]
    }

    /// Whether `key` is the key of a field.
    pub open spec fn knows(key: Seq<char>) -> bool {
        ||| key == "routeId"@
        ||| key == "status"@
        ||| key == "routeResultId"@
        ||| key == "summary"@
        ||| key == "guide"@
    }

    /// No two fields share a key.
    pub proof fn lemma_keys(m: RouteResultModel)
        ensures
            distinct_entry_keys(RouteResult::entries(m)),
    {
        reveal_strlit("routeId");
        assert("routeId"@ =~= seq!['r', 'o', 'u', 't', 'e', 'I', 'd']);
        reveal_strlit("status");
        assert("status"@ =~= seq!['s', 't', 'a', 't', 'u', 's']);
        reveal_strlit("routeResultId");
        assert("routeResultId"@ =~= seq![
            'r', 'o', 'u', 't', 'e', 'R', 'e', 's', 'u', 'l', 't', 'I', 'd',
        ]);
        reveal_strlit("summary");
        assert("summary"@ =~= seq!['s', 'u', 'm', 'm', 'a', 'r', 'y']);
        reveal_strlit("guide");
        assert("guide"@ =~= seq!['g', 'u', 'i', 'd', 'e']);
    }
}

impl RouteResult {
    /// The route result as compact JSON text. A field without a value is
    /// left out.
    pub fn to_json_text(&self) -> (text: String)
        ensures
            text@ == rendered(RouteResult::write(self.model())),
    {
        let doc = self.encode();
        match render(&doc) {
            Ok(text) => text,
            Err(_) => unreached(),
        }
    }
}

/// What is made of the body of a response: the route result that the text
/// holds, or the reason for which it holds none.
pub open spec fn spec_parse_response(body: Seq<char>) -> Result<RouteResultModel, RouteError> {
    match parsed(body) {
        None => Err(RouteError::Syntax),
        Some(doc) => if RouteResult::accepts(doc) {
            Ok(RouteResult::read(doc))
        } else {
            Err(RouteError::Shape)
        },
    }
}

/// Reads a route result from the body of a response. The body must be a
/// text that the JSON reader takes, and the document a JSON object; each field of a route result may be missing or `null`, and
/// one that is there must have the shape of its type. Members that a route
/// result does not know are passed over.
pub fn parse_response(body: &str) -> (r: Result<RouteResult, RouteError>)
    ensures
        match r {
            Ok(result) => spec_parse_response(body@) == Ok::<RouteResultModel, RouteError>(
                result.model(),
            ),
            Err(e) => spec_parse_response(body@) == Err::<RouteResultModel, RouteError>(e),
        },
{
    match parse(body) {
        Err(_) => Err(RouteError::Syntax),
        Ok(doc) => match RouteResult::decode(&doc) {
            Ok(result) => Ok(result),
            Err(_) => Err(RouteError::Shape),
        },
    }
}

/// What is made of a response: the text that is printed for it, or the
/// reason for which nothing is printed.
pub open spec fn spec_answer_text(status: u16, body: Seq<char>) -> Result<Seq<char>, RouteError> {
    if status != 200 {
        Err(RouteError::Status(status))
    } else {
        match spec_parse_response(body) {
            Ok(result) => Ok(rendered(RouteResult::write(result))),
            Err(e) => Err(e),
        }
    }
}

/// Turns a response into the text that is printed for it: the status must
/// be 200 and the body a route result, which is written out again as
/// compact JSON.
pub fn answer_text(status: u16, body: &str) -> (r: Result<String, RouteError>)
    ensures
        match r {
            Ok(text) => spec_answer_text(status, body@) == Ok::<Seq<char>, RouteError>(text@),
            Err(e) => spec_answer_text(status, body@) == Err::<Seq<char>, RouteError>(e),
        },
{
    match check_status(status) {
        Err(e) => Err(e),
        Ok(()) => match parse_response(body) {
            Err(e) => Err(e),
            Ok(result) => Ok(result.to_json_text()),
        },
    }
}

/// Read and written again, a route result has a member for exactly those of
/// its fields that were there and not `null`. No member is `null`, no other
/// key appears, and the three texts are what they were.
pub proof fn lemma_rewritten_members(doc: Json, key: Seq<char>)
    requires
        RouteResult::accepts(doc),
    ensures
        ({
            let back = RouteResult::write(RouteResult::read(doc));
            &&& member_of(back, key) is Some <==> RouteResult::knows(key) && field(doc, key) is Some
            &&& member_of(back, key) matches Some(d) ==> !(d is Null)
            &&& key == "routeId"@ || key == "status"@ || key == "routeResultId"@ ==> member_of(
                back,
                key,
            ) == field(doc, key)
        }),
{
    let m = RouteResult::read(doc);
    let entries = RouteResult::entries(m);
    RouteResult::lemma_keys(m);
    if key == "routeId"@ {
        lemma_object_member(entries, 5, 0);
    } else if key == "status"@ {
        lemma_object_member(entries, 5, 1);
    } else if key == "routeResultId"@ {
        lemma_object_member(entries, 5, 2);
    } else if key == "summary"@ {
        lemma_object_member(entries, 5, 3);
        if m.summary is Some {
            RouteSummary::lemma_round_trip(m.summary->0);
        }
    } else if key == "guide"@ {
        lemma_object_member(entries, 5, 4);
        if m.guide is Some {
            Vec::<Guide>::lemma_round_trip(m.guide->0);
        }
    } else {
        lemma_object_member_absent(entries, 5, key);
    }
}

/// A response with status 200 whose body holds nothing but what a route
/// result knows is answered with the document of the body itself, written
/// out compactly: every value stands in the answer as it stood in the body.
pub proof fn lemma_exact_body_is_kept(body: Seq<char>)
    requires
        parsed(body) matches Some(doc) && RouteResult::accepts(doc) && RouteResult::exact(doc),
    ensures
        spec_answer_text(200, body) == Ok::<Seq<char>, RouteError>(rendered(parsed(body)->0)),
{
    RouteResult::lemma_rewrite(parsed(body)->0);
}

} // verus!
