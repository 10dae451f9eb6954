//! The parameters of a route request and the query pairs they are sent as.

use crate::codes::{
    optional_text, show_optional, CarType, Ferry, OnOff, OutputFormat, Priority, QueryValue,
    Tollway, VehicleType,
};
use crate::position::Position;
use crate::text::{decimal, is_digit, lemma_decimal_is_digits};
use vstd::prelude::*;

verus! {

/// A key and its value, as they stand in a query string.
pub type Pair = (Seq<char>, Seq<char>);

/// A key and the value it has, if it has one.
pub type Slot = (Seq<char>, Option<Seq<char>>);

/// How many optional modifiers a request has.
pub open spec fn modifier_count() -> int {
    27
}

/// The pairs that a slot contributes: one when it has a value, none otherwise.
pub open spec fn emitted(slot: Slot) -> Seq<Pair> {
    match slot.1 {
        Some(value) => seq![(slot.0, value)],
        None => Seq::<Pair>::empty(),
    }
}

/// The pairs of the first `n` slots, in the order of the slots.
pub open spec fn present_upto(slots: Seq<Slot>, n: int) -> Seq<Pair>
    decreases n,
{
    if n <= 0 {
        Seq::<Pair>::empty()
    } else {
        present_upto(slots, n - 1) + emitted(slots[n - 1])
    }
}

/// The pairs of all slots that have a value, in the order of the slots.
pub open spec fn present(slots: Seq<Slot>) -> Seq<Pair> {
    present_upto(slots, slots.len() as int)
}

/// Whether a key occurs among pairs.
pub open spec fn has_key(pairs: Seq<Pair>, key: Seq<char>) -> bool {
    exists|j: int| 0 <= j < pairs.len() && (#[trigger] pairs[j]).0 == key
}

/// Whether no key occurs twice among pairs.
pub open spec fn distinct_keys(pairs: Seq<Pair>) -> bool {
    forall|i: int, j: int|
        0 <= i < j < pairs.len() ==> (#[trigger] pairs[i]).0 != (#[trigger] pairs[j]).0
}

/// Whether no key occurs twice among slots.
pub open spec fn distinct_slot_keys(slots: Seq<Slot>) -> bool {
    forall|i: int, j: int|
        0 <= i < j < slots.len() ==> (#[trigger] slots[i]).0 != (#[trigger] slots[j]).0
}

/// The parameters of one route request. A request either asks for a new
/// calculation from `start` to `destination`, refined by any of the optional
/// modifiers, or, when `routeresultid` is set, fetches an earlier result again.
#[derive(Debug, PartialEq, Eq)]
pub struct CalcRouteRequestParam {
    /// Where the route starts, as `longitude,latitude`.
    pub start: String,
    /// Where the route ends, as `longitude,latitude`.
    pub destination: String,
    /// Starting angle in degrees, 0 to 359.
    pub startangle: Option<i16>,
    /// Waypoints, each `longitude,latitude,type,priority`, separated by `|`.
    pub via: Option<String>,
    /// Departure date and time, as `yyyyMMdd_HHmmss`.
    pub date: Option<String>,
    /// What the search prefers.
    pub priority: Option<Priority>,
    /// How toll roads are treated.
    pub tollway: Option<Tollway>,
    /// How ferries are treated.
    pub ferry: Option<Ferry>,
    /// Whether smart interchanges are used.
    pub smartic: Option<OnOff>,
    /// Whether electronic toll collection is used.
    pub etc: Option<OnOff>,
    /// Which tolls are computed; 1 asks for plain and discounted tolls.
    pub tolltarget: Option<u8>,
    /// The toll class of the car.
    pub cartype: Option<CarType>,
    /// Speed on ordinary roads, as decimal text.
    pub normalspeed: Option<String>,
    /// Speed on highways, as decimal text.
    pub highwayspeed: Option<String>,
    /// Speed on toll roads, as decimal text.
    pub tollwayspeed: Option<String>,
    /// Speed on ferries, as decimal text.
    pub ferryspeed: Option<String>,
    /// The class of vehicle that road regulations are applied for.
    pub vehicletype: Option<VehicleType>,
    /// Height of the vehicle in centimetres.
    pub height: Option<i32>,
    /// Load in kilograms.
    pub loadage: Option<i32>,
    /// Weight of the vehicle in kilograms.
    pub weight: Option<i32>,
    /// Width of the vehicle in centimetres.
    pub width: Option<i32>,
    /// 1 for a dangerous load.
    pub danger: Option<u8>,
    /// 1 to apply daytime restrictions.
    pub daytime: Option<u8>,
    /// 1 to apply restrictions on ordinary roads.
    pub generalroad: Option<u8>,
    /// Whether restrictions on toll roads are applied.
    pub tollroad: Option<OnOff>,
    /// Whether one-way restrictions are applied.
    pub regulations: Option<OnOff>,
    /// Whether a travel route is asked for.
    pub travel: Option<OnOff>,
    /// Whether the answer carries an id under which it can be fetched again.
    pub resulttype: Option<OnOff>,
    /// The id of an earlier result. When set, nothing else is sent.
    pub routeresultid: Option<String>,
    /// The format that the answer is asked in.
    pub fmt: Option<OutputFormat>,
}

impl Default for CalcRouteRequestParam {
    fn default() -> (p: Self)
        ensures
            p.start@.len() == 0,
            p.destination@.len() == 0,
            p.routeresultid is None,
            p.no_modifier(),
    {
        CalcRouteRequestParam {
            start: String::new(),
            destination: String::new(),
            startangle: None,
            via: None,
            date: None,
            priority: None,
            tollway: None,
            ferry: None,
            smartic: None,
            etc: None,
            tolltarget: None,
            cartype: None,
            normalspeed: None,
            highwayspeed: None,
            tollwayspeed: None,
            ferryspeed: None,
            vehicletype: None,
            height: None,
            loadage: None,
            weight: None,
            width: None,
            danger: None,
            daytime: None,
            generalroad: None,
            tollroad: None,
            regulations: None,
            travel: None,
            resulttype: None,
            routeresultid: None,
            fmt: None,
        }
    }
}

impl CalcRouteRequestParam {
    /// Whether no optional modifier is set.
    pub open spec fn no_modifier(&self) -> bool {
        &&& self.startangle is None
        &&& self.via is None
        &&& self.date is None
        &&& self.priority is None
        &&& self.tollway is None
        &&& self.ferry is None
        &&& self.smartic is None
        &&& self.etc is None
        &&& self.tolltarget is None
        &&& self.cartype is None
        &&& self.normalspeed is None
        &&& self.highwayspeed is None
        &&& self.tollwayspeed is None
        &&& self.ferryspeed is None
        &&& self.vehicletype is None
        &&& self.height is None
        &&& self.loadage is None
        &&& self.weight is None
        &&& self.width is None
        &&& self.danger is None
        &&& self.daytime is None
        &&& self.generalroad is None
        &&& self.tollroad is None
        &&& self.regulations is None
        &&& self.travel is None
        &&& self.resulttype is None
        &&& self.fmt is None
    }

    /// The `i`-th optional modifier in the order of declaration: its key, and
    /// its value as text where it is set.
    pub open spec fn modifier(&self, i: int) -> Slot {
        if i == 0 {
            ("startangle"@, optional_text(self.startangle))
        } else if i == 1 {
            ("via"@, optional_text(self.via))
        } else if i == 2 {
            ("date"@, optional_text(self.date))
        } else if i == 3 {
            ("priority"@, optional_text(self.priority))
        } else if i == 4 {
            ("tollway"@, optional_text(self.tollway))
        } else if i == 5 {
            ("ferry"@, optional_text(self.ferry))
        } else if i == 6 {
            ("smartic"@, optional_text(self.smartic))
        } else if i == 7 {
            ("etc"@, optional_text(self.etc))
        } else if i == 8 {
            ("tolltarget"@, optional_text(self.tolltarget))
        } else if i == 9 {
            ("cartype"@, optional_text(self.cartype))
        } else if i == 10 {
            ("normalspeed"@, optional_text(self.normalspeed))
        } else if i == 11 {
            ("highwayspeed"@, optional_text(self.highwayspeed))
        } else if i == 12 {
            ("tollwayspeed"@, optional_text(self.tollwayspeed))
        } else if i == 13 {
            ("ferryspeed"@, optional_text(self.ferryspeed))
        } else if i == 14 {
            ("vehicletype"@, optional_text(self.vehicletype))
        } else if i == 15 {
            ("height"@, optional_text(self.height))
        } else if i == 16 {
            ("loadage"@, optional_text(self.loadage))
        } else if i == 17 {
            ("weight"@, optional_text(self.weight))
        } else if i == 18 {
            ("width"@, optional_text(self.width))
        } else if i == 19 {
            ("danger"@, optional_text(self.danger))
        } else if i == 20 {
            ("daytime"@, optional_text(self.daytime))
        } else if i == 21 {
            ("generalroad"@, optional_text(self.generalroad))
        } else if i == 22 {
            ("tollroad"@, optional_text(self.tollroad))
        } else if i == 23 {
            ("regulations"@, optional_text(self.regulations))
        } else if i == 24 {
            ("travel"@, optional_text(self.travel))
        } else if i == 25 {
            ("resulttype"@, optional_text(self.resulttype))
        } else {
            ("fmt"@, optional_text(self.fmt))
        }
    }

    /// All optional modifiers, in the order of declaration.
    pub open spec fn modifiers(&self) -> Seq<Slot> {
        Seq::new(modifier_count() as nat, |i: int| self.modifier(i))
    }

    /// The query pairs that the request is sent as. A request for an earlier
    /// result is its id alone. Any other request is its start, its
    /// destination, and then each modifier that is set, in the order of
    /// declaration.
    pub open spec fn spec_params(&self) -> Seq<Pair> {
        match self.routeresultid {
            Some(id) => seq![("routeresultid"@, id@)],
            None => seq![("start"@, self.start@), ("destination"@, self.destination@)] + present(
                self.modifiers(),
            ),
        }
    }

    /// A request for a new calculation between two positions, with no
    /// modifier set.
    pub fn new(start: Position, destination: Position) -> (p: Self)
        ensures
            p.start@ == start.spec_text(),
            p.destination@ == destination.spec_text(),
            p.routeresultid is None,
            p.no_modifier(),
    {
        let mut p = CalcRouteRequestParam::default();
        p.start = start.text();
        p.destination = destination.text();
        p
    }

    /// A request that fetches the earlier result with the given id.
    pub fn new_with_result_id(result_id: String) -> (p: Self)
        ensures
            p.routeresultid == Some(result_id),
            p.start@.len() == 0,
            p.destination@.len() == 0,
            p.no_modifier(),
    {
        let mut p = CalcRouteRequestParam::default();
        p.routeresultid = Some(result_id);
        p
    }

    /// Sets the waypoints and leaves everything else as it was.
    pub fn via(&mut self, via: String) -> (same: &mut Self)
        ensures
            *same == (CalcRouteRequestParam { via: Some(via), ..*old(self) }),
            *final(self) == *final(same),
    {
        self.via = Some(via);
        self
    }

    /// Sets the toll class of the car and leaves everything else as it was.
    pub fn car_type(&mut self, cartype: CarType) -> (same: &mut Self)
        ensures
            *same == (CalcRouteRequestParam { cartype: Some(cartype), ..*old(self) }),
            *final(self) == *final(same),
    {
        self.cartype = Some(cartype);
        self
    }

    /// Sets the vehicle class and leaves everything else as it was.
    pub fn vehicle_type(&mut self, vehicletype: VehicleType) -> (same: &mut Self)
        ensures
            *same == (CalcRouteRequestParam { vehicletype: Some(vehicletype), ..*old(self) }),
            *final(self) == *final(same),
    {
        self.vehicletype = Some(vehicletype);
        self
    }

    /// Sets whether the answer carries an id, and leaves everything else as
    /// it was.
    pub fn result_type(&mut self, resulttype: OnOff) -> (same: &mut Self)
        ensures
            *same == (CalcRouteRequestParam { resulttype: Some(resulttype), ..*old(self) }),
            *final(self) == *final(same),
    {
        self.resulttype = Some(resulttype);
        self
    }

    /// Sets the departure date and time and leaves everything else as it
    /// was. The text is expected as `yyyyMMdd_HHmmss` and is passed on as it
    /// is given.
    pub fn date(&mut self, date: String) -> (same: &mut Self)
        ensures
            *same == (CalcRouteRequestParam { date: Some(date), ..*old(self) }),
            *final(self) == *final(same),
    {
        self.date = Some(date);
        self
    }

    /// The query pairs that the request is sent as.
    pub fn to_params(self) -> (p: Vec<(String, String)>)
        ensures
            p.deep_view() == self.spec_params(),
    {
        let mut p: Vec<(String, String)> = Vec::new();
        if let Some(id) = &self.routeresultid {
            p.push(("routeresultid".to_string(), id.clone()));
            assert(p.deep_view() =~= self.spec_params());
            return p;
        }
        p.push(("start".to_string(), self.start.clone()));
        p.push(("destination".to_string(), self.destination.clone()));
        let ghost lead = p.deep_view();
        let ghost slots = self.modifiers();
        let mut sent: Vec<(String, String)> = Vec::new();
        assert(sent.deep_view() =~= present_upto(slots, 0));
        emit(&mut sent, "startangle", &self.startangle, Ghost(slots), Ghost(0));
        emit(&mut sent, "via", &self.via, Ghost(slots), Ghost(1));
        emit(&mut sent, "date", &self.date, Ghost(slots), Ghost(2));
        emit(&mut sent, "priority", &self.priority, Ghost(slots), Ghost(3));
        emit(&mut sent, "tollway", &self.tollway, Ghost(slots), Ghost(4));
        emit(&mut sent, "ferry", &self.ferry, Ghost(slots), Ghost(5));
        emit(&mut sent, "smartic", &self.smartic, Ghost(slots), Ghost(6));
        emit(&mut sent, "etc", &self.etc, Ghost(slots), Ghost(7));
        emit(&mut sent, "tolltarget", &self.tolltarget, Ghost(slots), Ghost(8));
        emit(&mut sent, "cartype", &self.cartype, Ghost(slots), Ghost(9));
        emit(&mut sent, "normalspeed", &self.normalspeed, Ghost(slots), Ghost(10));
        emit(&mut sent, "highwayspeed", &self.highwayspeed, Ghost(slots), Ghost(11));
        emit(&mut sent, "tollwayspeed", &self.tollwayspeed, Ghost(slots), Ghost(12));
        emit(&mut sent, "ferryspeed", &self.ferryspeed, Ghost(slots), Ghost(13));
        emit(&mut sent, "vehicletype", &self.vehicletype, Ghost(slots), Ghost(14));
        emit(&mut sent, "height", &self.height, Ghost(slots), Ghost(15));
        emit(&mut sent, "loadage", &self.loadage, Ghost(slots), Ghost(16));
        emit(&mut sent, "weight", &self.weight, Ghost(slots), Ghost(17));
        emit(&mut sent, "width", &self.width, Ghost(slots), Ghost(18));
        emit(&mut sent, "danger", &self.danger, Ghost(slots), Ghost(19));
        emit(&mut sent, "daytime", &self.daytime, Ghost(slots), Ghost(20));
        emit(&mut sent, "generalroad", &self.generalroad, Ghost(slots), Ghost(21));
        emit(&mut sent, "tollroad", &self.tollroad, Ghost(slots), Ghost(22));
        emit(&mut sent, "regulations", &self.regulations, Ghost(slots), Ghost(23));
        emit(&mut sent, "travel", &self.travel, Ghost(slots), Ghost(24));
        emit(&mut sent, "resulttype", &self.resulttype, Ghost(slots), Ghost(25));
        emit(&mut sent, "fmt", &self.fmt, Ghost(slots), Ghost(26));
        let ghost tail = sent.deep_view();
        p.append(&mut sent);
        assert(p.deep_view() =~= lead + tail);
        assert(lead =~= seq![("start"@, self.start@), ("destination"@, self.destination@)]);
        p
    }
}

/// Appends the pair of the `k`-th slot, if the slot has a value, to the pairs
/// of the slots before it.
fn emit<T: QueryValue>(
    out: &mut Vec<(String, String)>,
    key: &str,
    value: &Option<T>,
    Ghost(slots): Ghost<Seq<Slot>>,
    Ghost(k): Ghost<int>,
)
    requires
        0 <= k < slots.len(),
        slots[k] == (key@, optional_text(*value)),
        old(out).deep_view() == present_upto(slots, k),
    ensures
        final(out).deep_view() == present_upto(slots, k + 1),
{
    let ghost before = out.deep_view();
    match show_optional(value) {
        Some(text) => {
            out.push((key.to_string(), text));
            assert(out.deep_view() =~= before + seq![(key@, text@)]);
        },
        None => {
            assert(before + emitted(slots[k]) =~= before);
        },
    }
}

/// The pairs of the first `i` slots are the first pairs of any longer run of
/// slots: later slots only add pairs at the end.
pub proof fn lemma_present_upto_prefix(slots: Seq<Slot>, i: int, n: int)
    requires
        0 <= i <= n,
    ensures
        present_upto(slots, i).len() <= present_upto(slots, n).len(),
        present_upto(slots, n).take(present_upto(slots, i).len() as int) == present_upto(slots, i),
    decreases n - i,
{
    if i == n {
        assert(present_upto(slots, n).take(present_upto(slots, n).len() as int) =~= present_upto(
            slots,
            n,
        ));
    } else {
        lemma_present_upto_prefix(slots, i, n - 1);
        let shorter = present_upto(slots, n - 1);
        let k = present_upto(slots, i).len() as int;
        assert((shorter + emitted(slots[n - 1])).take(k) =~= shorter.take(k));
    }
}

/// Slots without a value send nothing: a run of them leaves the pairs as
/// they were.
pub proof fn lemma_unset_run(slots: Seq<Slot>, from: int, to: int)
    requires
        0 <= from <= to,
        forall|i: int| from <= i < to ==> (#[trigger] slots[i]).1 is None,
    ensures
        present_upto(slots, to) == present_upto(slots, from),
    decreases to - from,
{
    if from < to {
        lemma_unset_run(slots, from, to - 1);
        assert(present_upto(slots, to - 1) + emitted(slots[to - 1]) =~= present_upto(
            slots,
            to - 1,
        ));
    }
}

/// A slot with a value sends exactly its key and value, at the place that the
/// slots with a value before it leave free.
pub proof fn lemma_set_slot_position(slots: Seq<Slot>, i: int, n: int)
    requires
        0 <= i < n,
        slots[i].1 is Some,
    ensures
        present_upto(slots, i).len() < present_upto(slots, n).len(),
        present_upto(slots, n)[present_upto(slots, i).len() as int] == (slots[i].0, slots[i].1->0),
{
    lemma_present_upto_prefix(slots, i + 1, n);
    let k = present_upto(slots, i).len() as int;
    let upto = present_upto(slots, i + 1);
    assert(upto[k] == (slots[i].0, slots[i].1->0));
    assert(present_upto(slots, n).take(upto.len() as int)[k] == upto[k]);
}

/// Every pair comes from a slot with a value: the slot whose earlier slots
/// fill exactly the places before the pair.
pub proof fn lemma_pair_origin(slots: Seq<Slot>, n: int, j: int) -> (i: int)
    requires
        0 <= j < present_upto(slots, n).len(),
    ensures
        0 <= i < n,
        slots[i].1 is Some,
        present_upto(slots, i).len() == j,
        present_upto(slots, n)[j] == (slots[i].0, slots[i].1->0),
    decreases n,
{
    let shorter = present_upto(slots, n - 1);
    if j < shorter.len() {
        lemma_pair_origin(slots, n - 1, j)
    } else {
        n - 1
    }
}

/// A key occurs among the pairs exactly when a slot with that key has a value.
pub proof fn lemma_present_has_key(slots: Seq<Slot>, key: Seq<char>)
    ensures
        has_key(present(slots), key) <==> exists|i: int|
            0 <= i < slots.len() && (#[trigger] slots[i]).0 == key && slots[i].1 is Some,
{
    let n = slots.len() as int;
    if has_key(present(slots), key) {
        let pairs = present(slots);
        let j = choose|j: int| 0 <= j < pairs.len() && (#[trigger] pairs[j]).0 == key;
        let i = lemma_pair_origin(slots, n, j);
        assert(slots[i].0 == key && slots[i].1 is Some);
    }
    if exists|i: int| 0 <= i < slots.len() && (#[trigger] slots[i]).0 == key && slots[i].1 is Some {
        let i = choose|i: int|
            0 <= i < slots.len() && (#[trigger] slots[i]).0 == key && slots[i].1 is Some;
        lemma_set_slot_position(slots, i, n);
        let j = present_upto(slots, i).len() as int;
        assert(present(slots)[j].0 == key);
    }
}

/// Slots with distinct keys send pairs with distinct keys.
pub proof fn lemma_present_distinct(slots: Seq<Slot>)
    requires
        distinct_slot_keys(slots),
    ensures
        distinct_keys(present(slots)),
{
    let n = slots.len() as int;
    let pairs = present(slots);
    assert forall|a: int, b: int| 0 <= a < b < pairs.len() implies (#[trigger] pairs[a]).0 != (
    #[trigger] pairs[b]).0 by {
        let i = lemma_pair_origin(slots, n, a);
        let j = lemma_pair_origin(slots, n, b);
        if i < j {
            assert(slots[i].0 != slots[j].0);
        } else if j < i {
            assert(slots[j].0 != slots[i].0);
        }
    }
}

/// The keys of the modifiers differ from one another and from the three keys
/// that are not modifiers.
pub proof fn lemma_modifier_keys(p: CalcRouteRequestParam)
    ensures
        distinct_slot_keys(p.modifiers()),
        forall|i: int|
            0 <= i < modifier_count() ==> {
                &&& (#[trigger] p.modifier(i)).0 != "start"@
                &&& p.modifier(i).0 != "destination"@
                &&& p.modifier(i).0 != "routeresultid"@
            },
        "start"@ != "destination"@,
{
    reveal_strlit("startangle");
    assert("startangle"@ =~= seq!['s', 't', 'a', 'r', 't', 'a', 'n', 'g', 'l', 'e']);
    reveal_strlit("via");
    assert("via"@ =~= seq!['v', 'i', 'a']);
    reveal_strlit("date");
    assert("date"@ =~= seq!['d', 'a', 't', 'e']);
    reveal_strlit("priority");
    assert("priority"@ =~= seq!['p', 'r', 'i', 'o', 'r', 'i', 't', 'y']);
    reveal_strlit("tollway");
    assert("tollway"@ =~= seq!['t', 'o', 'l', 'l', 'w', 'a', 'y']);
    reveal_strlit("ferry");
    assert("ferry"@ =~= seq!['f', 'e', 'r', 'r', 'y']);
    reveal_strlit("smartic");
    assert("smartic"@ =~= seq!['s', 'm', 'a', 'r', 't', 'i', 'c']);
    reveal_strlit("etc");
    assert("etc"@ =~= seq!['e', 't', 'c']);
    reveal_strlit("tolltarget");
    assert("tolltarget"@ =~= seq!['t', 'o', 'l', 'l', 't', 'a', 'r', 'g', 'e', 't']);
    reveal_strlit("cartype");
    assert("cartype"@ =~= seq!['c', 'a', 'r', 't', 'y', 'p', 'e']);
    reveal_strlit("normalspeed");
    assert("normalspeed"@ =~= seq!['n', 'o', 'r', 'm', 'a', 'l', 's', 'p', 'e', 'e', 'd']);
    reveal_strlit("highwayspeed");
    assert("highwayspeed"@ =~= seq!['h', 'i', 'g', 'h', 'w', 'a', 'y', 's', 'p', 'e', 'e', 'd']);
    reveal_strlit("tollwayspeed");
    assert("tollwayspeed"@ =~= seq!['t', 'o', 'l', 'l', 'w', 'a', 'y', 's', 'p', 'e', 'e', 'd']);
    reveal_strlit("ferryspeed");
    assert("ferryspeed"@ =~= seq!['f', 'e', 'r', 'r', 'y', 's', 'p', 'e', 'e', 'd']);
    reveal_strlit("vehicletype");
    assert("vehicletype"@ =~= seq!['v', 'e', 'h', 'i', 'c', 'l', 'e', 't', 'y', 'p', 'e']);
    reveal_strlit("height");
    assert("height"@ =~= seq!['h', 'e', 'i', 'g', 'h', 't']);
    reveal_strlit("loadage");
    assert("loadage"@ =~= seq!['l', 'o', 'a', 'd', 'a', 'g', 'e']);
    reveal_strlit("weight");
    assert("weight"@ =~= seq!['w', 'e', 'i', 'g', 'h', 't']);
    reveal_strlit("width");
    assert("width"@ =~= seq!['w', 'i', 'd', 't', 'h']);
    reveal_strlit("danger");
    assert("danger"@ =~= seq!['d', 'a', 'n', 'g', 'e', 'r']);
    reveal_strlit("daytime");
    assert("daytime"@ =~= seq!['d', 'a', 'y', 't', 'i', 'm', 'e']);
    reveal_strlit("generalroad");
    assert("generalroad"@ =~= seq!['g', 'e', 'n', 'e', 'r', 'a', 'l', 'r', 'o', 'a', 'd']);
    reveal_strlit("tollroad");
    assert("tollroad"@ =~= seq!['t', 'o', 'l', 'l', 'r', 'o', 'a', 'd']);
    reveal_strlit("regulations");
    assert("regulations"@ =~= seq!['r', 'e', 'g', 'u', 'l', 'a', 't', 'i', 'o', 'n', 's']);
    reveal_strlit("travel");
    assert("travel"@ =~= seq!['t', 'r', 'a', 'v', 'e', 'l']);
    reveal_strlit("resulttype");
    assert("resulttype"@ =~= seq!['r', 'e', 's', 'u', 'l', 't', 't', 'y', 'p', 'e']);
    reveal_strlit("fmt");
    assert("fmt"@ =~= seq!['f', 'm', 't']);
    reveal_strlit("start");
    assert("start"@ =~= seq!['s', 't', 'a', 'r', 't']);
    reveal_strlit("destination");
    assert("destination"@ =~= seq!['d', 'e', 's', 't', 'i', 'n', 'a', 't', 'i', 'o', 'n']);
    reveal_strlit("routeresultid");
    assert("routeresultid"@ =~= seq![
        'r', 'o', 'u', 't', 'e', 'r', 'e', 's', 'u', 'l', 't', 'i', 'd',
    ]);
}

/// No key is sent twice.
pub proof fn lemma_keys_are_distinct(p: CalcRouteRequestParam)
    ensures
        distinct_keys(p.spec_params()),
{
    lemma_modifier_keys(p);
    if p.routeresultid is None {
        let slots = p.modifiers();
        let tail = present(slots);
        let pairs = p.spec_params();
        lemma_present_distinct(slots);
        assert forall|a: int, b: int| 0 <= a < b < pairs.len() implies (#[trigger] pairs[a]).0 != (
        #[trigger] pairs[b]).0 by {
            if b >= 2 {
                let j = lemma_pair_origin(slots, slots.len() as int, b - 2);
                assert(pairs[b] == tail[b - 2]);
                assert(slots[j] == p.modifier(j));
                if a >= 2 {
                    assert(pairs[a] == tail[a - 2]);
                }
            }
        }
    }
}

/// A modifier that is not set is left out altogether: its key does not occur
/// in what is sent, with an empty value or any other.
pub proof fn lemma_unset_modifier_is_omitted(p: CalcRouteRequestParam, i: int)
    requires
        0 <= i < modifier_count(),
        p.modifier(i).1 is None,
    ensures
        !has_key(p.spec_params(), p.modifier(i).0),
{
    lemma_modifier_keys(p);
    let key = p.modifier(i).0;
    let pairs = p.spec_params();
    if has_key(pairs, key) {
        let b = choose|b: int| 0 <= b < pairs.len() && (#[trigger] pairs[b]).0 == key;
        if p.routeresultid is None {
            let slots = p.modifiers();
            let tail = present(slots);
            assert(b >= 2);
            assert(pairs[b] == tail[b - 2]);
            let j = lemma_pair_origin(slots, slots.len() as int, b - 2);
            assert(slots[j] == p.modifier(j));
            assert(slots[i] == p.modifier(i));
            if i < j {
                assert(slots[i].0 != slots[j].0);
            } else if j < i {
                assert(slots[j].0 != slots[i].0);
            }
        }
    }
}

/// In a request for a new calculation, a modifier that is set is sent with
/// its key and its text.
pub proof fn lemma_set_modifier_is_sent(p: CalcRouteRequestParam, i: int)
    requires
        p.routeresultid is None,
        0 <= i < modifier_count(),
        p.modifier(i).1 is Some,
    ensures
        p.spec_params().contains((p.modifier(i).0, p.modifier(i).1->0)),
{
    let slots = p.modifiers();
    lemma_set_slot_position(slots, i, slots.len() as int);
    let k = present_upto(slots, i).len() as int;
    assert(slots[i] == p.modifier(i));
    assert(p.spec_params()[k + 2] == present(slots)[k]);
}

/// In a request for a new calculation, every modifier that holds one of the
/// numbered enumerations is sent as the decimal notation of its number, which
/// holds digits only, and never as the name of the variant.
pub proof fn lemma_codes_are_sent_as_numbers(p: CalcRouteRequestParam)
    requires
        p.routeresultid is None,
    ensures
        p.priority matches Some(e) ==> p.spec_params().contains(
            ("priority"@, decimal(e.spec_code() as nat)),
        ),
        p.tollway matches Some(e) ==> p.spec_params().contains(
            ("tollway"@, decimal(e.spec_code() as nat)),
        ),
        p.ferry matches Some(e) ==> p.spec_params().contains(
            ("ferry"@, decimal(e.spec_code() as nat)),
        ),
        p.smartic matches Some(e) ==> p.spec_params().contains(
            ("smartic"@, decimal(e.spec_code() as nat)),
        ),
        p.etc matches Some(e) ==> p.spec_params().contains(
            ("etc"@, decimal(e.spec_code() as nat)),
        ),
        p.cartype matches Some(e) ==> p.spec_params().contains(
            ("cartype"@, decimal(e.spec_code() as nat)),
        ),
        p.vehicletype matches Some(e) ==> p.spec_params().contains(
            ("vehicletype"@, decimal(e.spec_code() as nat)),
        ),
        p.tollroad matches Some(e) ==> p.spec_params().contains(
            ("tollroad"@, decimal(e.spec_code() as nat)),
        ),
        p.regulations matches Some(e) ==> p.spec_params().contains(
            ("regulations"@, decimal(e.spec_code() as nat)),
        ),
        p.travel matches Some(e) ==> p.spec_params().contains(
            ("travel"@, decimal(e.spec_code() as nat)),
        ),
        p.resulttype matches Some(e) ==> p.spec_params().contains(
            ("resulttype"@, decimal(e.spec_code() as nat)),
        ),
        forall|n: nat, i: int| 0 <= i < decimal(n).len() ==> is_digit(#[trigger] decimal(n)[i]),
{
    if p.priority is Some {
        lemma_set_modifier_is_sent(p, 3);
    }
    if p.tollway is Some {
        lemma_set_modifier_is_sent(p, 4);
    }
    if p.ferry is Some {
        lemma_set_modifier_is_sent(p, 5);
    }
    if p.smartic is Some {
        lemma_set_modifier_is_sent(p, 6);
    }
    if p.etc is Some {
        lemma_set_modifier_is_sent(p, 7);
    }
    if p.cartype is Some {
        lemma_set_modifier_is_sent(p, 9);
    }
    if p.vehicletype is Some {
        lemma_set_modifier_is_sent(p, 14);
    }
    if p.tollroad is Some {
        lemma_set_modifier_is_sent(p, 22);
    }
    if p.regulations is Some {
        lemma_set_modifier_is_sent(p, 23);
    }
    if p.travel is Some {
        lemma_set_modifier_is_sent(p, 24);
    }
    if p.resulttype is Some {
        lemma_set_modifier_is_sent(p, 25);
    }
    assert forall|n: nat, i: int| 0 <= i < decimal(n).len() implies is_digit(
        #[trigger] decimal(n)[i],
    ) by {
        lemma_decimal_is_digits(n);
    }
}

/// A request for an earlier result sends the id alone, whatever else is set.
pub proof fn lemma_result_id_is_sent_alone(p: CalcRouteRequestParam)
    requires
        p.routeresultid is Some,
    ensures
        p.spec_params() == seq![("routeresultid"@, p.routeresultid->0@)],
        p.spec_params().len() == 1,
{
}

/// A request for a new calculation sends the start first and the destination
/// second. The modifiers that are set follow in the order of declaration:
/// each stands right after the pairs of the set modifiers declared before it.
pub proof fn lemma_start_and_destination_lead(p: CalcRouteRequestParam)
    requires
        p.routeresultid is None,
    ensures
        p.spec_params().len() >= 2,
        p.spec_params()[0] == ("start"@, p.start@),
        p.spec_params()[1] == ("destination"@, p.destination@),
        p.spec_params().skip(2) == present(p.modifiers()),
        forall|i: int|
            0 <= i < modifier_count() && (#[trigger] p.modifier(i)).1 is Some ==> {
                let place = 2 + present_upto(p.modifiers(), i).len() as int;
                &&& place < p.spec_params().len()
                &&& p.spec_params()[place] == (p.modifier(i).0, p.modifier(i).1->0)
            },
        forall|i: int, j: int|
            0 <= i < j < modifier_count() && (#[trigger] p.modifier(i)).1 is Some ==> present_upto(
                p.modifiers(),
                i,
            ).len() < (#[trigger] present_upto(p.modifiers(), j)).len(),
{
    let slots = p.modifiers();
    let pairs = p.spec_params();
    assert(pairs.skip(2) =~= present(slots));
    assert forall|i: int|
        0 <= i < modifier_count() && (#[trigger] p.modifier(i)).1 is Some implies {
        let place = 2 + present_upto(slots, i).len() as int;
        &&& place < pairs.len()
        &&& pairs[place] == (p.modifier(i).0, p.modifier(i).1->0)
    } by {
        assert(slots[i] == p.modifier(i));
        lemma_set_slot_position(slots, i, slots.len() as int);
        let k = present_upto(slots, i).len() as int;
        assert(pairs[k + 2] == present(slots)[k]);
    }
    assert forall|i: int, j: int|
        0 <= i < j < modifier_count() && (#[trigger] p.modifier(i)).1 is Some implies present_upto(
        slots,
        i,
    ).len() < (#[trigger] present_upto(slots, j)).len() by {
        assert(slots[i] == p.modifier(i));
        lemma_set_slot_position(slots, i, j);
    }
}

} // verus!
