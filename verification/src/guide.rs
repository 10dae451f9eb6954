//! The turn-by-turn part of a route result.

use crate::json::{
    as_unsigned, empty_object, is_object, member_of, unsigned_of, unsigned_value, Json, Numeral,
};
use crate::schema::{
    accepts_field, decode_field, distinct_entry_keys, encode_field, exact_field,
    lemma_object_is, lemma_rewritten_field, lemma_written_field, object_of, optional_model,
    read_field, written, Entry, Mismatch, Schema,
};
use vstd::prelude::*;

verus! {

/// What a guide entry marks.
#[derive(Clone, Copy, Debug, PartialEq, Eq, Structural)]
pub enum GuideType {
    /// A point on the way.
    Point,
    /// The start of the route.
    Start,
    /// The end of the route.
    Goal,
    /// A waypoint that was asked for.
    Waypoint,
}

impl GuideType {
    /// The number that the service writes for the kind of entry.
    pub open spec fn spec_code(self) -> u8 {
        match self {
            GuideType::Point => 0,
            GuideType::Start => 1,
            GuideType::Goal => 2,
            GuideType::Waypoint => 3,
        }
    }

    /// The number that the service writes for the kind of entry.
    #[verifier::when_used_as_spec(spec_code)]
    pub fn code(self) -> (c: u8)
        ensures
            c == self.spec_code(),
    {
        match self {
            GuideType::Point => 0,
            GuideType::Start => 1,
            GuideType::Goal => 2,
            GuideType::Waypoint => 3,
        }
    }

    /// The kind of entry that the service writes `code` for, if there is one.
    pub open spec fn spec_from_code(code: u64) -> Option<GuideType> {
        if code == 0 {
            Some(GuideType::Point)
        } else if code == 1 {
            Some(GuideType::Start)
        } else if code == 2 {
            Some(GuideType::Goal)
        } else if code == 3 {
            Some(GuideType::Waypoint)
        } else {
            None
        }
    }

    /// The kind of entry that the service writes `code` for, if there is one.
    #[verifier::when_used_as_spec(spec_from_code)]
    pub fn from_code(code: u64) -> (r: Option<GuideType>)
        ensures
            r == GuideType::spec_from_code(code),
    {
        if code == 0 {
            Some(GuideType::Point)
        } else if code == 1 {
            Some(GuideType::Start)
        } else if code == 2 {
            Some(GuideType::Goal)
        } else if code == 3 {
            Some(GuideType::Waypoint)
        } else {
            None
        }
    }
}

impl Schema for GuideType {
    type Model = GuideType;

    open spec fn model(&self) -> GuideType {
        *self
    }

    open spec fn accepts(doc: Json) -> bool {
        unsigned_of(doc) matches Some(n) && GuideType::spec_from_code(n) is Some
    }

    open spec fn read(doc: Json) -> GuideType {
        GuideType::spec_from_code(unsigned_of(doc)->0)->0
    }

    open spec fn write(m: GuideType) -> Json {
        Json::Number(Numeral::Integer(m.spec_code() as int))
    }

    open spec fn exact(doc: Json) -> bool {
        true
    }

    fn decode(v: &serde_json::Value) -> (r: Result<GuideType, Mismatch>) {
        match as_unsigned(v) {
            Some(n) => match GuideType::from_code(n) {
                Some(m) => Ok(m),
                None => Err(Mismatch),
            },
            None => Err(Mismatch),
        }
    }

    fn encode(&self) -> (v: serde_json::Value) {
        unsigned_value(self.code() as u64)
    }

    proof fn lemma_round_trip(m: GuideType) {
    }

    proof fn lemma_rewrite(doc: Json) {
    }
}

/// The direction to take at a guide point.
#[derive(Clone, Copy, Debug, PartialEq, Eq, Structural)]
pub enum GuideDirection {
    Unknown,
    /// Follow the road.
    Along,
    Straight,
    /// Bear right, about 30 degrees.
    Right30,
    Right45,
    Right,
    Right135,
    Right150,
    Uturn,
    Left150,
    Left135,
    Left,
    Left45,
    Left30,
}

impl GuideDirection {
    /// The number that the service writes for the direction.
    pub open spec fn spec_code(self) -> u8 {
        match self {
            GuideDirection::Unknown => 0,
            GuideDirection::Along => 1,
            GuideDirection::Straight => 2,
            GuideDirection::Right30 => 3,
            GuideDirection::Right45 => 4,
            GuideDirection::Right => 5,
            GuideDirection::Right135 => 6,
            GuideDirection::Right150 => 7,
            GuideDirection::Uturn => 8,
            GuideDirection::Left150 => 9,
            GuideDirection::Left135 => 10,
            GuideDirection::Left => 11,
            GuideDirection::Left45 => 12,
            GuideDirection::Left30 => 13,
        }
    }

    /// The number that the service writes for the direction.
    #[verifier::when_used_as_spec(spec_code)]
    pub fn code(self) -> (c: u8)
        ensures
            c == self.spec_code(),
    {
        match self {
            GuideDirection::Unknown => 0,
            GuideDirection::Along => 1,
            GuideDirection::Straight => 2,
            GuideDirection::Right30 => 3,
            GuideDirection::Right45 => 4,
            GuideDirection::Right => 5,
            GuideDirection::Right135 => 6,
            GuideDirection::Right150 => 7,
            GuideDirection::Uturn => 8,
            GuideDirection::Left150 => 9,
            GuideDirection::Left135 => 10,
            GuideDirection::Left => 11,
            GuideDirection::Left45 => 12,
            GuideDirection::Left30 => 13,
        }
    }

    /// The direction that the service writes `code` for, if there is one.
    pub open spec fn spec_from_code(code: u64) -> Option<GuideDirection> {
        if code == 0 {
            Some(GuideDirection::Unknown)
        } else if code == 1 {
            Some(GuideDirection::Along)
        } else if code == 2 {
            Some(GuideDirection::Straight)
        } else if code == 3 {
            Some(GuideDirection::Right30)
        } else if code == 4 {
            Some(GuideDirection::Right45)
        } else if code == 5 {
            Some(GuideDirection::Right)
        } else if code == 6 {
            Some(GuideDirection::Right135)
        } else if code == 7 {
            Some(GuideDirection::Right150)
        } else if code == 8 {
            Some(GuideDirection::Uturn)
        } else if code == 9 {
            Some(GuideDirection::Left150)
        } else if code == 10 {
            Some(GuideDirection::Left135)
        } else if code == 11 {
            Some(GuideDirection::Left)
        } else if code == 12 {
            Some(GuideDirection::Left45)
        } else if code == 13 {
            Some(GuideDirection::Left30)
        } else {
            None
        }
    }

    /// The direction that the service writes `code` for, if there is one.
    #[verifier::when_used_as_spec(spec_from_code)]
    pub fn from_code(code: u64) -> (r: Option<GuideDirection>)
        ensures
            r == GuideDirection::spec_from_code(code),
    {
        if code == 0 {
            Some(GuideDirection::Unknown)
        } else if code == 1 {
            Some(GuideDirection::Along)
        } else if code == 2 {
            Some(GuideDirection::Straight)
        } else if code == 3 {
            Some(GuideDirection::Right30)
        } else if code == 4 {
            Some(GuideDirection::Right45)
        } else if code == 5 {
            Some(GuideDirection::Right)
        } else if code == 6 {
            Some(GuideDirection::Right135)
        } else if code == 7 {
            Some(GuideDirection::Right150)
        } else if code == 8 {
            Some(GuideDirection::Uturn)
        } else if code == 9 {
            Some(GuideDirection::Left150)
        } else if code == 10 {
            Some(GuideDirection::Left135)
        } else if code == 11 {
            Some(GuideDirection::Left)
        } else if code == 12 {
            Some(GuideDirection::Left45)
        } else if code == 13 {
            Some(GuideDirection::Left30)
        } else {
            None
        }
    }
}

impl Schema for GuideDirection {
    type Model = GuideDirection;

    open spec fn model(&self) -> GuideDirection {
        *self
    }

    open spec fn accepts(doc: Json) -> bool {
        unsigned_of(doc) matches Some(n) && GuideDirection::spec_from_code(n) is Some
    }

    open spec fn read(doc: Json) -> GuideDirection {
        GuideDirection::spec_from_code(unsigned_of(doc)->0)->0
    }

    open spec fn write(m: GuideDirection) -> Json {
        Json::Number(Numeral::Integer(m.spec_code() as int))
    }

    open spec fn exact(doc: Json) -> bool {
        true
    }

    fn decode(v: &serde_json::Value) -> (r: Result<GuideDirection, Mismatch>) {
        match as_unsigned(v) {
            Some(n) => match GuideDirection::from_code(n) {
                Some(m) => Ok(m),
                None => Err(Mismatch),
            },
            None => Err(Mismatch),
        }
    }

    fn encode(&self) -> (v: serde_json::Value) {
        unsigned_value(self.code() as u64)
    }

    proof fn lemma_round_trip(m: GuideDirection) {
    }

    proof fn lemma_rewrite(doc: Json) {
    }
}

/// What a stretch of the route's shape is.
#[derive(Clone, Copy, Debug, PartialEq, Eq, Structural)]
pub enum ShapeType {
    Road,
    Start,
    End,
}

impl ShapeType {
    /// The number that the service writes for the kind of stretch.
    pub open spec fn spec_code(self) -> u8 {
        match self {
            ShapeType::Road => 4,
            ShapeType::Start => 5,
            ShapeType::End => 6,
        }
    }

    /// The number that the service writes for the kind of stretch.
    #[verifier::when_used_as_spec(spec_code)]
    pub fn code(self) -> (c: u8)
        ensures
            c == self.spec_code(),
    {
        match self {
            ShapeType::Road => 4,
            ShapeType::Start => 5,
            ShapeType::End => 6,
        }
    }

    /// The kind of stretch that the service writes `code` for, if there is one.
    pub open spec fn spec_from_code(code: u64) -> Option<ShapeType> {
        if code == 4 {
            Some(ShapeType::Road)
        } else if code == 5 {
            Some(ShapeType::Start)
        } else if code == 6 {
            Some(ShapeType::End)
        } else {
            None
        }
    }

    /// The kind of stretch that the service writes `code` for, if there is one.
    #[verifier::when_used_as_spec(spec_from_code)]
    pub fn from_code(code: u64) -> (r: Option<ShapeType>)
        ensures
            r == ShapeType::spec_from_code(code),
    {
        if code == 4 {
            Some(ShapeType::Road)
        } else if code == 5 {
            Some(ShapeType::Start)
        } else if code == 6 {
            Some(ShapeType::End)
        } else {
            None
        }
    }
}

impl Schema for ShapeType {
    type Model = ShapeType;

    open spec fn model(&self) -> ShapeType {
        *self
    }

    open spec fn accepts(doc: Json) -> bool {
        unsigned_of(doc) matches Some(n) && ShapeType::spec_from_code(n) is Some
    }

    open spec fn read(doc: Json) -> ShapeType {
        ShapeType::spec_from_code(unsigned_of(doc)->0)->0
    }

    open spec fn write(m: ShapeType) -> Json {
        Json::Number(Numeral::Integer(m.spec_code() as int))
    }

    open spec fn exact(doc: Json) -> bool {
        true
    }

    fn decode(v: &serde_json::Value) -> (r: Result<ShapeType, Mismatch>) {
        match as_unsigned(v) {
            Some(n) => match ShapeType::from_code(n) {
                Some(m) => Ok(m),
                None => Err(Mismatch),
            },
            None => Err(Mismatch),
        }
    }

    fn encode(&self) -> (v: serde_json::Value) {
        unsigned_value(self.code() as u64)
    }

    proof fn lemma_round_trip(m: ShapeType) {
    }

    proof fn lemma_rewrite(doc: Json) {
    }
}

/// How a toll gate takes electronic payment.
#[derive(Clone, Copy, Debug, PartialEq, Eq, Structural)]
pub enum EtcCode {
    Unsupported,
    /// A gate with a barrier.
    Gate,
    /// An antenna without a gate.
    Antena,
}

impl EtcCode {
    /// The number that the service writes for the kind of gate.
    pub open spec fn spec_code(self) -> u8 {
        match self {
            EtcCode::Unsupported => 0,
            EtcCode::Gate => 1,
            EtcCode::Antena => 2,
        }
    }

    /// The number that the service writes for the kind of gate.
    #[verifier::when_used_as_spec(spec_code)]
    pub fn code(self) -> (c: u8)
        ensures
            c == self.spec_code(),
    {
        match self {
            EtcCode::Unsupported => 0,
            EtcCode::Gate => 1,
            EtcCode::Antena => 2,
        }
    }

    /// The kind of gate that the service writes `code` for, if there is one.
    pub open spec fn spec_from_code(code: u64) -> Option<EtcCode> {
        if code == 0 {
            Some(EtcCode::Unsupported)
        } else if code == 1 {
            Some(EtcCode::Gate)
        } else if code == 2 {
            Some(EtcCode::Antena)
        } else {
            None
        }
    }

    /// The kind of gate that the service writes `code` for, if there is one.
    #[verifier::when_used_as_spec(spec_from_code)]
    pub fn from_code(code: u64) -> (r: Option<EtcCode>)
        ensures
            r == EtcCode::spec_from_code(code),
    {
        if code == 0 {
            Some(EtcCode::Unsupported)
        } else if code == 1 {
            Some(EtcCode::Gate)
        } else if code == 2 {
            Some(EtcCode::Antena)
        } else {
            None
        }
    }
}

impl Schema for EtcCode {
    type Model = EtcCode;

    open spec fn model(&self) -> EtcCode {
        *self
    }

    open spec fn accepts(doc: Json) -> bool {
        unsigned_of(doc) matches Some(n) && EtcCode::spec_from_code(n) is Some
    }

    open spec fn read(doc: Json) -> EtcCode {
        EtcCode::spec_from_code(unsigned_of(doc)->0)->0
    }

    open spec fn write(m: EtcCode) -> Json {
        Json::Number(Numeral::Integer(m.spec_code() as int))
    }

    open spec fn exact(doc: Json) -> bool {
        true
    }

    fn decode(v: &serde_json::Value) -> (r: Result<EtcCode, Mismatch>) {
        match as_unsigned(v) {
            Some(n) => match EtcCode::from_code(n) {
                Some(m) => Ok(m),
                None => Err(Mismatch),
            },
            None => Err(Mismatch),
        }
    }

    fn encode(&self) -> (v: serde_json::Value) {
        unsigned_value(self.code() as u64)
    }

    proof fn lemma_round_trip(m: EtcCode) {
    }

    proof fn lemma_rewrite(doc: Json) {
    }
}

/// What happens at a toll gate.
#[derive(Clone, Copy, Debug, PartialEq, Eq, Structural)]
pub enum TollGateCode {
    /// A ticket is issued.
    Issue,
    /// The toll is paid.
    Settle,
    /// A flat toll is paid.
    SimpleGate,
    SimpleGateAndIssue,
    SimpleGateAndSettle,
    UturnCheck,
    InvalidIssue,
    SettleAndIssue,
}

impl TollGateCode {
    /// The number that the service writes for the kind of gate.
    pub open spec fn spec_code(self) -> u8 {
        match self {
            TollGateCode::Issue => 1,
            TollGateCode::Settle => 2,
            TollGateCode::SimpleGate => 3,
            TollGateCode::SimpleGateAndIssue => 4,
            TollGateCode::SimpleGateAndSettle => 5,
            TollGateCode::UturnCheck => 6,
            TollGateCode::InvalidIssue => 7,
            TollGateCode::SettleAndIssue => 8,
        }
    }

    /// The number that the service writes for the kind of gate.
    #[verifier::when_used_as_spec(spec_code)]
    pub fn code(self) -> (c: u8)
        ensures
            c == self.spec_code(),
    {
        match self {
            TollGateCode::Issue => 1,
            TollGateCode::Settle => 2,
            TollGateCode::SimpleGate => 3,
            TollGateCode::SimpleGateAndIssue => 4,
            TollGateCode::SimpleGateAndSettle => 5,
            TollGateCode::UturnCheck => 6,
            TollGateCode::InvalidIssue => 7,
            TollGateCode::SettleAndIssue => 8,
        }
    }

    /// The kind of gate that the service writes `code` for, if there is one.
    pub open spec fn spec_from_code(code: u64) -> Option<TollGateCode> {
        if code == 1 {
            Some(TollGateCode::Issue)
        } else if code == 2 {
            Some(TollGateCode::Settle)
        } else if code == 3 {
            Some(TollGateCode::SimpleGate)
        } else if code == 4 {
            Some(TollGateCode::SimpleGateAndIssue)
        } else if code == 5 {
            Some(TollGateCode::SimpleGateAndSettle)
        } else if code == 6 {
            Some(TollGateCode::UturnCheck)
        } else if code == 7 {
            Some(TollGateCode::InvalidIssue)
        } else if code == 8 {
            Some(TollGateCode::SettleAndIssue)
        } else {
            None
        }
    }

    /// The kind of gate that the service writes `code` for, if there is one.
    #[verifier::when_used_as_spec(spec_from_code)]
    pub fn from_code(code: u64) -> (r: Option<TollGateCode>)
        ensures
            r == TollGateCode::spec_from_code(code),
    {
        if code == 1 {
            Some(TollGateCode::Issue)
        } else if code == 2 {
            Some(TollGateCode::Settle)
        } else if code == 3 {
            Some(TollGateCode::SimpleGate)
        } else if code == 4 {
            Some(TollGateCode::SimpleGateAndIssue)
        } else if code == 5 {
            Some(TollGateCode::SimpleGateAndSettle)
        } else if code == 6 {
            Some(TollGateCode::UturnCheck)
        } else if code == 7 {
            Some(TollGateCode::InvalidIssue)
        } else if code == 8 {
            Some(TollGateCode::SettleAndIssue)
        } else {
            None
        }
    }
}

impl Schema for TollGateCode {
    type Model = TollGateCode;

    open spec fn model(&self) -> TollGateCode {
        *self
    }

    open spec fn accepts(doc: Json) -> bool {
        unsigned_of(doc) matches Some(n) && TollGateCode::spec_from_code(n) is Some
    }

    open spec fn read(doc: Json) -> TollGateCode {
        TollGateCode::spec_from_code(unsigned_of(doc)->0)->0
    }

    open spec fn write(m: TollGateCode) -> Json {
        Json::Number(Numeral::Integer(m.spec_code() as int))
    }

    open spec fn exact(doc: Json) -> bool {
        true
    }

    fn decode(v: &serde_json::Value) -> (r: Result<TollGateCode, Mismatch>) {
        match as_unsigned(v) {
            Some(n) => match TollGateCode::from_code(n) {
                Some(m) => Ok(m),
                None => Err(Mismatch),
            },
            None => Err(Mismatch),
        }
    }

    fn encode(&self) -> (v: serde_json::Value) {
        unsigned_value(self.code() as u64)
    }

    proof fn lemma_round_trip(m: TollGateCode) {
    }

    proof fn lemma_rewrite(doc: Json) {
    }
}

/// The kind of a highway facility.
#[derive(Clone, Copy, Debug, PartialEq, Eq, Structural)]
pub enum FacilityType {
    /// Service area.
    Sa,
    /// Parking area.
    Pa,
    Junction,
    /// Ramp.
    Rump,
    /// Interchange.
    Ic,
    /// Smart interchange.
    SmartIc,
}

impl FacilityType {
    /// The number that the service writes for the kind of facility.
    pub open spec fn spec_code(self) -> u8 {
        match self {
            FacilityType::Sa => 1,
            FacilityType::Pa => 2,
            FacilityType::Junction => 3,
            FacilityType::Rump => 4,
            FacilityType::Ic => 5,
            FacilityType::SmartIc => 7,
        }
    }

    /// The number that the service writes for the kind of facility.
    #[verifier::when_used_as_spec(spec_code)]
    pub fn code(self) -> (c: u8)
        ensures
            c == self.spec_code(),
    {
        match self {
            FacilityType::Sa => 1,
            FacilityType::Pa => 2,
            FacilityType::Junction => 3,
            FacilityType::Rump => 4,
            FacilityType::Ic => 5,
            FacilityType::SmartIc => 7,
        }
    }

    /// The kind of facility that the service writes `code` for, if there is one.
    pub open spec fn spec_from_code(code: u64) -> Option<FacilityType> {
        if code == 1 {
            Some(FacilityType::Sa)
        } else if code == 2 {
            Some(FacilityType::Pa)
        } else if code == 3 {
            Some(FacilityType::Junction)
        } else if code == 4 {
            Some(FacilityType::Rump)
        } else if code == 5 {
            Some(FacilityType::Ic)
        } else if code == 7 {
            Some(FacilityType::SmartIc)
        } else {
            None
        }
    }

    /// The kind of facility that the service writes `code` for, if there is one.
    #[verifier::when_used_as_spec(spec_from_code)]
    pub fn from_code(code: u64) -> (r: Option<FacilityType>)
        ensures
            r == FacilityType::spec_from_code(code),
    {
        if code == 1 {
            Some(FacilityType::Sa)
        } else if code == 2 {
            Some(FacilityType::Pa)
        } else if code == 3 {
            Some(FacilityType::Junction)
        } else if code == 4 {
            Some(FacilityType::Rump)
        } else if code == 5 {
            Some(FacilityType::Ic)
        } else if code == 7 {
            Some(FacilityType::SmartIc)
        } else {
            None
        }
    }
}

impl Schema for FacilityType {
    type Model = FacilityType;

    open spec fn model(&self) -> FacilityType {
        *self
    }

    open spec fn accepts(doc: Json) -> bool {
        unsigned_of(doc) matches Some(n) && FacilityType::spec_from_code(n) is Some
    }

    open spec fn read(doc: Json) -> FacilityType {
        FacilityType::spec_from_code(unsigned_of(doc)->0)->0
    }

    open spec fn write(m: FacilityType) -> Json {
        Json::Number(Numeral::Integer(m.spec_code() as int))
    }

    open spec fn exact(doc: Json) -> bool {
        true
    }

    fn decode(v: &serde_json::Value) -> (r: Result<FacilityType, Mismatch>) {
        match as_unsigned(v) {
            Some(n) => match FacilityType::from_code(n) {
                Some(m) => Ok(m),
                None => Err(Mismatch),
            },
            None => Err(Mismatch),
        }
    }

    fn encode(&self) -> (v: serde_json::Value) {
        unsigned_value(self.code() as u64)
    }

    proof fn lemma_round_trip(m: FacilityType) {
    }

    proof fn lemma_rewrite(doc: Json) {
    }
}

/// What a guide point leads onto.
#[derive(Clone, Copy, Debug, PartialEq, Eq, Structural)]
pub enum GuideDetailCode {
    HighwayEntrance,
    HighwayExit,
    HighwayService,
    FerryTerminal,
}

impl GuideDetailCode {
    /// The number that the service writes for the kind of place.
    pub open spec fn spec_code(self) -> u8 {
        match self {
            GuideDetailCode::HighwayEntrance => 32,
            GuideDetailCode::HighwayExit => 33,
            GuideDetailCode::HighwayService => 34,
            GuideDetailCode::FerryTerminal => 48,
        }
    }

    /// The number that the service writes for the kind of place.
    #[verifier::when_used_as_spec(spec_code)]
    pub fn code(self) -> (c: u8)
        ensures
            c == self.spec_code(),
    {
        match self {
            GuideDetailCode::HighwayEntrance => 32,
            GuideDetailCode::HighwayExit => 33,
            GuideDetailCode::HighwayService => 34,
            GuideDetailCode::FerryTerminal => 48,
        }
    }

    /// The kind of place that the service writes `code` for, if there is one.
    pub open spec fn spec_from_code(code: u64) -> Option<GuideDetailCode> {
        if code == 32 {
            Some(GuideDetailCode::HighwayEntrance)
        } else if code == 33 {
            Some(GuideDetailCode::HighwayExit)
        } else if code == 34 {
            Some(GuideDetailCode::HighwayService)
        } else if code == 48 {
            Some(GuideDetailCode::FerryTerminal)
        } else {
            None
        }
    }

    /// The kind of place that the service writes `code` for, if there is one.
    #[verifier::when_used_as_spec(spec_from_code)]
    pub fn from_code(code: u64) -> (r: Option<GuideDetailCode>)
        ensures
            r == GuideDetailCode::spec_from_code(code),
    {
        if code == 32 {
            Some(GuideDetailCode::HighwayEntrance)
        } else if code == 33 {
            Some(GuideDetailCode::HighwayExit)
        } else if code == 34 {
            Some(GuideDetailCode::HighwayService)
        } else if code == 48 {
            Some(GuideDetailCode::FerryTerminal)
        } else {
            None
        }
    }
}

impl Schema for GuideDetailCode {
    type Model = GuideDetailCode;

    open spec fn model(&self) -> GuideDetailCode {
        *self
    }

    open spec fn accepts(doc: Json) -> bool {
        unsigned_of(doc) matches Some(n) && GuideDetailCode::spec_from_code(n) is Some
    }

    open spec fn read(doc: Json) -> GuideDetailCode {
        GuideDetailCode::spec_from_code(unsigned_of(doc)->0)->0
    }

    open spec fn write(m: GuideDetailCode) -> Json {
        Json::Number(Numeral::Integer(m.spec_code() as int))
    }

    open spec fn exact(doc: Json) -> bool {
        true
    }

    fn decode(v: &serde_json::Value) -> (r: Result<GuideDetailCode, Mismatch>) {
        match as_unsigned(v) {
            Some(n) => match GuideDetailCode::from_code(n) {
                Some(m) => Ok(m),
                None => Err(Mismatch),
            },
            None => Err(Mismatch),
        }
    }

    fn encode(&self) -> (v: serde_json::Value) {
        unsigned_value(self.code() as u64)
    }

    proof fn lemma_round_trip(m: GuideDetailCode) {
    }

    proof fn lemma_rewrite(doc: Json) {
    }
}

/// The class of a road.
#[derive(Clone, Copy, Debug, PartialEq, Eq, Structural)]
pub enum RoadType {
    Ineligible,
    /// National road.
    NormalCountry,
    /// Main regional road, prefectural.
    MainLocal,
    /// Main regional road, municipal.
    MainLocalCity,
    /// Ordinary prefectural road.
    NormalLocal,
    /// Ordinary municipal road.
    NormalLocalCity,
    Other1,
    Other2,
    NarrowLocalRoad1,
    NarrowLocalRoad2,
    NarrowLocalRoad3,
    Highway,
    CityHighway,
    NormalCountryToll,
    MainLocalToll,
    MainLocalCityToll,
    NormalLocalToll,
    NormalLocalCityToll,
    OtherToll,
}

impl RoadType {
    /// The number that the service writes for the class of road.
    pub open spec fn spec_code(self) -> u8 {
        match self {
            RoadType::Ineligible => 0,
            RoadType::NormalCountry => 1,
            RoadType::MainLocal => 2,
            RoadType::MainLocalCity => 3,
            RoadType::NormalLocal => 4,
            RoadType::NormalLocalCity => 5,
            RoadType::Other1 => 6,
            RoadType::Other2 => 7,
            RoadType::NarrowLocalRoad1 => 8,
            RoadType::NarrowLocalRoad2 => 9,
            RoadType::NarrowLocalRoad3 => 10,
            RoadType::Highway => 101,
            RoadType::CityHighway => 102,
            RoadType::NormalCountryToll => 103,
            RoadType::MainLocalToll => 104,
            RoadType::MainLocalCityToll => 105,
            RoadType::NormalLocalToll => 106,
            RoadType::NormalLocalCityToll => 107,
            RoadType::OtherToll => 108,
        }
    }

    /// The number that the service writes for the class of road.
    #[verifier::when_used_as_spec(spec_code)]
    pub fn code(self) -> (c: u8)
        ensures
            c == self.spec_code(),
    {
        match self {
            RoadType::Ineligible => 0,
            RoadType::NormalCountry => 1,
            RoadType::MainLocal => 2,
            RoadType::MainLocalCity => 3,
            RoadType::NormalLocal => 4,
            RoadType::NormalLocalCity => 5,
            RoadType::Other1 => 6,
            RoadType::Other2 => 7,
            RoadType::NarrowLocalRoad1 => 8,
            RoadType::NarrowLocalRoad2 => 9,
            RoadType::NarrowLocalRoad3 => 10,
            RoadType::Highway => 101,
            RoadType::CityHighway => 102,
            RoadType::NormalCountryToll => 103,
            RoadType::MainLocalToll => 104,
            RoadType::MainLocalCityToll => 105,
            RoadType::NormalLocalToll => 106,
            RoadType::NormalLocalCityToll => 107,
            RoadType::OtherToll => 108,
        }
    }

    /// The class of road that the service writes `code` for, if there is one.
    pub open spec fn spec_from_code(code: u64) -> Option<RoadType> {
        if code == 0 {
            Some(RoadType::Ineligible)
        } else if code == 1 {
            Some(RoadType::NormalCountry)
        } else if code == 2 {
            Some(RoadType::MainLocal)
        } else if code == 3 {
            Some(RoadType::MainLocalCity)
        } else if code == 4 {
            Some(RoadType::NormalLocal)
        } else if code == 5 {
            Some(RoadType::NormalLocalCity)
        } else if code == 6 {
            Some(RoadType::Other1)
        } else if code == 7 {
            Some(RoadType::Other2)
        } else if code == 8 {
            Some(RoadType::NarrowLocalRoad1)
        } else if code == 9 {
            Some(RoadType::NarrowLocalRoad2)
        } else if code == 10 {
            Some(RoadType::NarrowLocalRoad3)
        } else if code == 101 {
            Some(RoadType::Highway)
        } else if code == 102 {
            Some(RoadType::CityHighway)
        } else if code == 103 {
            Some(RoadType::NormalCountryToll)
        } else if code == 104 {
            Some(RoadType::MainLocalToll)
        } else if code == 105 {
            Some(RoadType::MainLocalCityToll)
        } else if code == 106 {
            Some(RoadType::NormalLocalToll)
        } else if code == 107 {
            Some(RoadType::NormalLocalCityToll)
        } else if code == 108 {
            Some(RoadType::OtherToll)
        } else {
            None
        }
    }

    /// The class of road that the service writes `code` for, if there is one.
    #[verifier::when_used_as_spec(spec_from_code)]
    pub fn from_code(code: u64) -> (r: Option<RoadType>)
        ensures
            r == RoadType::spec_from_code(code),
    {
        if code == 0 {
            Some(RoadType::Ineligible)
        } else if code == 1 {
            Some(RoadType::NormalCountry)
        } else if code == 2 {
            Some(RoadType::MainLocal)
        } else if code == 3 {
            Some(RoadType::MainLocalCity)
        } else if code == 4 {
            Some(RoadType::NormalLocal)
        } else if code == 5 {
            Some(RoadType::NormalLocalCity)
        } else if code == 6 {
            Some(RoadType::Other1)
        } else if code == 7 {
            Some(RoadType::Other2)
        } else if code == 8 {
            Some(RoadType::NarrowLocalRoad1)
        } else if code == 9 {
            Some(RoadType::NarrowLocalRoad2)
        } else if code == 10 {
            Some(RoadType::NarrowLocalRoad3)
        } else if code == 101 {
            Some(RoadType::Highway)
        } else if code == 102 {
            Some(RoadType::CityHighway)
        } else if code == 103 {
            Some(RoadType::NormalCountryToll)
        } else if code == 104 {
            Some(RoadType::MainLocalToll)
        } else if code == 105 {
            Some(RoadType::MainLocalCityToll)
        } else if code == 106 {
            Some(RoadType::NormalLocalToll)
        } else if code == 107 {
            Some(RoadType::NormalLocalCityToll)
        } else if code == 108 {
            Some(RoadType::OtherToll)
        } else {
            None
        }
    }
}

/// A point on the map.
#[derive(Debug, PartialEq)]
pub struct Point {
    /// Longitude in degrees.
    pub lon: Option<serde_json::Number>,
    /// Latitude in degrees.
    pub lat: Option<serde_json::Number>,
}

/// The mathematical value of a [`Point`].
pub ghost struct PointModel {
    pub lon: Option<Numeral>,
    pub lat: Option<Numeral>,
}

impl Schema for Point {
    type Model = PointModel;

    open spec fn model(&self) -> PointModel {
        PointModel {
            lon: optional_model(self.lon),
            lat: optional_model(self.lat),
        }
    }

    open spec fn accepts(doc: Json) -> bool {
        &&& doc is Object
        &&& accepts_field::<serde_json::Number>(doc, "lon"@)
        &&& accepts_field::<serde_json::Number>(doc, "lat"@)
    }

    open spec fn read(doc: Json) -> PointModel {
        PointModel {
            lon: read_field::<serde_json::Number>(doc, "lon"@),
            lat: read_field::<serde_json::Number>(doc, "lat"@),
        }
    }

    open spec fn write(m: PointModel) -> Json {
        object_of(Point::entries(m))
    }

    open spec fn exact(doc: Json) -> bool {
        &&& forall|key: Seq<char>|
            #[trigger] doc->Object_0.contains_key(key) ==> {
                &&& Point::knows(key)
                &&& !(doc->Object_0[key] is Null)
            }
        &&& exact_field::<serde_json::Number>(doc, "lon"@)
        &&& exact_field::<serde_json::Number>(doc, "lat"@)
    }

    fn decode(v: &serde_json::Value) -> (r: Result<Point, Mismatch>) {
        if !is_object(v) {
            return Err(Mismatch);
        }
        let lon = decode_field::<serde_json::Number>(v, "lon")?;
        let lat = decode_field::<serde_json::Number>(v, "lat")?;
        Ok(Point { lon, lat })
    }

    fn encode(&self) -> (v: serde_json::Value) {
        let ghost entries = Point::entries(self.model());
        let mut v = empty_object();
        encode_field::<serde_json::Number>(&mut v, "lon", &self.lon, Ghost(entries), Ghost(0));
        encode_field::<serde_json::Number>(&mut v, "lat", &self.lat, Ghost(entries), Ghost(1));
        v
    }

    proof fn lemma_rewrite(doc: Json) {
        let m = Point::read(doc);
        let entries = Point::entries(m);
        Point::lemma_keys(m);
        lemma_rewritten_field::<serde_json::Number>(doc, "lon"@);
        assert(member_of(doc, entries[0].0) == entries[0].1);
        lemma_rewritten_field::<serde_json::Number>(doc, "lat"@);
        assert(member_of(doc, entries[1].0) == entries[1].1);
        assert forall|key: Seq<char>| doc->Object_0.contains_key(key) implies exists|i: int|
            0 <= i < entries.len() && (#[trigger] entries[i]).0 == key by {
            if key == "lon"@ {
                assert(entries[0].0 == key);
            } else {
                assert(entries[1].0 == key);
            }
        }
        lemma_object_is(entries, doc->Object_0);
    }

    proof fn lemma_round_trip(m: PointModel) {
        Point::lemma_keys(m);
        let entries = Point::entries(m);
        lemma_written_field::<serde_json::Number>(entries, 0, m.lon);
        lemma_written_field::<serde_json::Number>(entries, 1, m.lat);
    }
}

impl Point {
    /// The fields of a value, each with its key and with what is written
    /// under it.
    pub open spec fn entries(m: PointModel) -> Seq<Entry> {
        seq![
            ("lon"@, written::<serde_json::Number>(m.lon)),
            ("lat"@, written::<serde_json::Number>(m.lat)),
        ]
    }

    /// Whether `key` is the key of a field.
    pub open spec fn knows(key: Seq<char>) -> bool {
        ||| key == "lon"@
        ||| key == "lat"@
    }

    /// No two fields share a key.
    pub proof fn lemma_keys(m: PointModel)
        ensures
            distinct_entry_keys(Point::entries(m)),
    {
        reveal_strlit("lon");
        assert("lon"@ =~= seq!['l', 'o', 'n']);
        reveal_strlit("lat");
        assert("lat"@ =~= seq!['l', 'a', 't']);
    }
}

/// What a guide point leads onto, such as a highway entrance.
#[derive(Debug, PartialEq)]
pub struct GuideDetail {
    /// The kind of place.
    pub code: Option<GuideDetailCode>,
    /// The name of the place.
    pub name: Option<String>,
}

/// The mathematical value of a [`GuideDetail`].
pub ghost struct GuideDetailModel {
    pub code: Option<GuideDetailCode>,
    pub name: Option<Seq<char>>,
}

impl Schema for GuideDetail {
    type Model = GuideDetailModel;

    open spec fn model(&self) -> GuideDetailModel {
        GuideDetailModel {
            code: optional_model(self.code),
            name: optional_model(self.name),
        }
    }

    open spec fn accepts(doc: Json) -> bool {
        &&& doc is Object
        &&& accepts_field::<GuideDetailCode>(doc, "code"@)
        &&& accepts_field::<String>(doc, "name"@)
    }

    open spec fn read(doc: Json) -> GuideDetailModel {
        GuideDetailModel {
            code: read_field::<GuideDetailCode>(doc, "code"@),
            name: read_field::<String>(doc, "name"@),
        }
    }

    open spec fn write(m: GuideDetailModel) -> Json {
        object_of(GuideDetail::entries(m))
    }

    open spec fn exact(doc: Json) -> bool {
        &&& forall|key: Seq<char>|
            #[trigger] doc->Object_0.contains_key(key) ==> {
                &&& GuideDetail::knows(key)
                &&& !(doc->Object_0[key] is Null)
            }
        &&& exact_field::<GuideDetailCode>(doc, "code"@)
        &&& exact_field::<String>(doc, "name"@)
    }

    fn decode(v: &serde_json::Value) -> (r: Result<GuideDetail, Mismatch>) {
        if !is_object(v) {
            return Err(Mismatch);
        }
        let code = decode_field::<GuideDetailCode>(v, "code")?;
        let name = decode_field::<String>(v, "name")?;
        Ok(GuideDetail { code, name })
    }

    fn encode(&self) -> (v: serde_json::Value) {
        let ghost entries = GuideDetail::entries(self.model());
        let mut v = empty_object();
        encode_field::<GuideDetailCode>(&mut v, "code", &self.code, Ghost(entries), Ghost(0));
        encode_field::<String>(&mut v, "name", &self.name, Ghost(entries), Ghost(1));
        v
    }

    proof fn lemma_rewrite(doc: Json) {
        let m = GuideDetail::read(doc);
        let entries = GuideDetail::entries(m);
        GuideDetail::lemma_keys(m);
        lemma_rewritten_field::<GuideDetailCode>(doc, "code"@);
        assert(member_of(doc, entries[0].0) == entries[0].1);
        lemma_rewritten_field::<String>(doc, "name"@);
        assert(member_of(doc, entries[1].0) == entries[1].1);
        assert forall|key: Seq<char>| doc->Object_0.contains_key(key) implies exists|i: int|
            0 <= i < entries.len() && (#[trigger] entries[i]).0 == key by {
            if key == "code"@ {
                assert(entries[0].0 == key);
            } else {
                assert(entries[1].0 == key);
            }
        }
        lemma_object_is(entries, doc->Object_0);
    }

    proof fn lemma_round_trip(m: GuideDetailModel) {
        GuideDetail::lemma_keys(m);
        let entries = GuideDetail::entries(m);
        lemma_written_field::<GuideDetailCode>(entries, 0, m.code);
        lemma_written_field::<String>(entries, 1, m.name);
    }
}

impl GuideDetail {
    /// The fields of a value, each with its key and with what is written
    /// under it.
    pub open spec fn entries(m: GuideDetailModel) -> Seq<Entry> {
        seq![
            ("code"@, written::<GuideDetailCode>(m.code)),
            ("name"@, written::<String>(m.name)),
        ]
    }

    /// Whether `key` is the key of a field.
    pub open spec fn knows(key: Seq<char>) -> bool {
        ||| key == "code"@
        ||| key == "name"@
    }

    /// No two fields share a key.
    pub proof fn lemma_keys(m: GuideDetailModel)
        ensures
            distinct_entry_keys(GuideDetail::entries(m)),
    {
        reveal_strlit("code");
        assert("code"@ =~= seq!['c', 'o', 'd', 'e']);
        reveal_strlit("name");
        assert("name"@ =~= seq!['n', 'a', 'm', 'e']);
    }
}

/// A facility along a highway.
#[derive(Debug, PartialEq)]
pub struct Facility {
    /// The kind of facility.
    pub type_: Option<FacilityType>,
    /// The name of the facility.
    pub name: Option<String>,
    /// What the facility offers, one bit for each service, as the service packs them.
    pub info: Option<u32>,
}

/// The mathematical value of a [`Facility`].
pub ghost struct FacilityModel {
    pub type_: Option<FacilityType>,
    pub name: Option<Seq<char>>,
    pub info: Option<u32>,
}

impl Schema for Facility {
    type Model = FacilityModel;

    open spec fn model(&self) -> FacilityModel {
        FacilityModel {
            type_: optional_model(self.type_),
            name: optional_model(self.name),
            info: optional_model(self.info),
        }
    }

    open spec fn accepts(doc: Json) -> bool {
        &&& doc is Object
        &&& accepts_field::<FacilityType>(doc, "type"@)
        &&& accepts_field::<String>(doc, "name"@)
        &&& accepts_field::<u32>(doc, "info"@)
    }

    open spec fn read(doc: Json) -> FacilityModel {
        FacilityModel {
            type_: read_field::<FacilityType>(doc, "type"@),
            name: read_field::<String>(doc, "name"@),
            info: read_field::<u32>(doc, "info"@),
        }
    }

    open spec fn write(m: FacilityModel) -> Json {
        object_of(Facility::entries(m))
    }

    open spec fn exact(doc: Json) -> bool {
        &&& forall|key: Seq<char>|
            #[trigger] doc->Object_0.contains_key(key) ==> {
                &&& Facility::knows(key)
                &&& !(doc->Object_0[key] is Null)
            }
        &&& exact_field::<FacilityType>(doc, "type"@)
        &&& exact_field::<String>(doc, "name"@)
        &&& exact_field::<u32>(doc, "info"@)
    }

    fn decode(v: &serde_json::Value) -> (r: Result<Facility, Mismatch>) {
        if !is_object(v) {
            return Err(Mismatch);
        }
        let type_ = decode_field::<FacilityType>(v, "type")?;
        let name = decode_field::<String>(v, "name")?;
        let info = decode_field::<u32>(v, "info")?;
        Ok(Facility { type_, name, info })
    }

    fn encode(&self) -> (v: serde_json::Value) {
        let ghost entries = Facility::entries(self.model());
        let mut v = empty_object();
        encode_field::<FacilityType>(&mut v, "type", &self.type_, Ghost(entries), Ghost(0));
        encode_field::<String>(&mut v, "name", &self.name, Ghost(entries), Ghost(1));
        encode_field::<u32>(&mut v, "info", &self.info, Ghost(entries), Ghost(2));
        v
    }

    proof fn lemma_rewrite(doc: Json) {
        let m = Facility::read(doc);
        let entries = Facility::entries(m);
        Facility::lemma_keys(m);
        lemma_rewritten_field::<FacilityType>(doc, "type"@);
        assert(member_of(doc, entries[0].0) == entries[0].1);
        lemma_rewritten_field::<String>(doc, "name"@);
        assert(member_of(doc, entries[1].0) == entries[1].1);
        lemma_rewritten_field::<u32>(doc, "info"@);
        assert(member_of(doc, entries[2].0) == entries[2].1);
        assert forall|key: Seq<char>| doc->Object_0.contains_key(key) implies exists|i: int|
            0 <= i < entries.len() && (#[trigger] entries[i]).0 == key by {
            if key == "type"@ {
                assert(entries[0].0 == key);
            } else if key == "name"@ {
                assert(entries[1].0 == key);
            } else {
                assert(entries[2].0 == key);
            }
        }
        lemma_object_is(entries, doc->Object_0);
    }

    proof fn lemma_round_trip(m: FacilityModel) {
        Facility::lemma_keys(m);
        let entries = Facility::entries(m);
        lemma_written_field::<FacilityType>(entries, 0, m.type_);
        lemma_written_field::<String>(entries, 1, m.name);
        lemma_written_field::<u32>(entries, 2, m.info);
    }
}

impl Facility {
    /// The fields of a value, each with its key and with what is written
    /// under it.
    pub open spec fn entries(m: FacilityModel) -> Seq<Entry> {
        seq![
            ("type"@, written::<FacilityType>(m.type_)),
            ("name"@, written::<String>(m.name)),
            ("info"@, written::<u32>(m.info)),
        ]
    }

    /// Whether `key` is the key of a field.
    pub open spec fn knows(key: Seq<char>) -> bool {
        ||| key == "type"@
        ||| key == "name"@
        ||| key == "info"@
    }

    /// No two fields share a key.
    pub proof fn lemma_keys(m: FacilityModel)
        ensures
            distinct_entry_keys(Facility::entries(m)),
    {
        reveal_strlit("type");
        assert("type"@ =~= seq!['t', 'y', 'p', 'e']);
        reveal_strlit("name");
        assert("name"@ =~= seq!['n', 'a', 'm', 'e']);
        reveal_strlit("info");
        assert("info"@ =~= seq!['i', 'n', 'f', 'o']);
    }
}

/// The facilities of a stretch of highway.
#[derive(Debug, PartialEq)]
pub struct GuideHighway {
    /// The facilities, in the order in which they are passed.
    pub facilities: Option<Vec<Facility>>,
}

/// The mathematical value of a [`GuideHighway`].
pub ghost struct GuideHighwayModel {
    pub facilities: Option<Seq<FacilityModel>>,
}

impl Schema for GuideHighway {
    type Model = GuideHighwayModel;

    open spec fn model(&self) -> GuideHighwayModel {
        GuideHighwayModel {
            facilities: optional_model(self.facilities),
        }
    }

    open spec fn accepts(doc: Json) -> bool {
        &&& doc is Object
        &&& accepts_field::<Vec<Facility>>(doc, "facilities"@)
    }

    open spec fn read(doc: Json) -> GuideHighwayModel {
        GuideHighwayModel {
            facilities: read_field::<Vec<Facility>>(doc, "facilities"@),
        }
    }

    open spec fn write(m: GuideHighwayModel) -> Json {
        object_of(GuideHighway::entries(m))
    }

    open spec fn exact(doc: Json) -> bool {
        &&& forall|key: Seq<char>|
            #[trigger] doc->Object_0.contains_key(key) ==> {
                &&& GuideHighway::knows(key)
                &&& !(doc->Object_0[key] is Null)
            }
        &&& exact_field::<Vec<Facility>>(doc, "facilities"@)
    }

    fn decode(v: &serde_json::Value) -> (r: Result<GuideHighway, Mismatch>) {
        if !is_object(v) {
            return Err(Mismatch);
        }
        let facilities = decode_field::<Vec<Facility>>(v, "facilities")?;
        Ok(GuideHighway { facilities })
    }

    fn encode(&self) -> (v: serde_json::Value) {
        let ghost entries = GuideHighway::entries(self.model());
        let mut v = empty_object();
        encode_field::<Vec<Facility>>(
            &mut v,
            "facilities",
            &self.facilities,
            Ghost(entries),
            Ghost(0),
        );
        v
    }

    proof fn lemma_rewrite(doc: Json) {
        let m = GuideHighway::read(doc);
        let entries = GuideHighway::entries(m);
        GuideHighway::lemma_keys(m);
        lemma_rewritten_field::<Vec<Facility>>(doc, "facilities"@);
        assert(member_of(doc, entries[0].0) == entries[0].1);
        assert forall|key: Seq<char>| doc->Object_0.contains_key(key) implies exists|i: int|
            0 <= i < entries.len() && (#[trigger] entries[i]).0 == key by {
            if key == "facilities"@ {
                assert(entries[0].0 == key);
            }
        }
        lemma_object_is(entries, doc->Object_0);
    }

    proof fn lemma_round_trip(m: GuideHighwayModel) {
        GuideHighway::lemma_keys(m);
        let entries = GuideHighway::entries(m);
        lemma_written_field::<Vec<Facility>>(entries, 0, m.facilities);
    }
}

impl GuideHighway {
    /// The fields of a value, each with its key and with what is written
    /// under it.
    pub open spec fn entries(m: GuideHighwayModel) -> Seq<Entry> {
        seq![
            ("facilities"@, written::<Vec<Facility>>(m.facilities)),
        ]
    }

    /// Whether `key` is the key of a field.
    pub open spec fn knows(key: Seq<char>) -> bool {
        ||| key == "facilities"@
    }

    /// No two fields share a key.
    pub proof fn lemma_keys(m: GuideHighwayModel)
        ensures
            distinct_entry_keys(GuideHighway::entries(m)),
    {
        reveal_strlit("facilities");
        assert("facilities"@ =~= seq!['f', 'a', 'c', 'i', 'l', 'i', 't', 'i', 'e', 's']);
    }
}

/// A crossing at a guide point.
#[derive(Debug, PartialEq)]
pub struct GuideCrossing {
    /// The name of the crossing.
    pub name: Option<String>,
}

/// The mathematical value of a [`GuideCrossing`].
pub ghost struct GuideCrossingModel {
    pub name: Option<Seq<char>>,
}

impl Schema for GuideCrossing {
    type Model = GuideCrossingModel;

    open spec fn model(&self) -> GuideCrossingModel {
        GuideCrossingModel {
            name: optional_model(self.name),
        }
    }

    open spec fn accepts(doc: Json) -> bool {
        &&& doc is Object
        &&& accepts_field::<String>(doc, "name"@)
    }

    open spec fn read(doc: Json) -> GuideCrossingModel {
        GuideCrossingModel {
            name: read_field::<String>(doc, "name"@),
        }
    }

    open spec fn write(m: GuideCrossingModel) -> Json {
        object_of(GuideCrossing::entries(m))
    }

    open spec fn exact(doc: Json) -> bool {
        &&& forall|key: Seq<char>|
            #[trigger] doc->Object_0.contains_key(key) ==> {
                &&& GuideCrossing::knows(key)
                &&& !(doc->Object_0[key] is Null)
            }
        &&& exact_field::<String>(doc, "name"@)
    }

    fn decode(v: &serde_json::Value) -> (r: Result<GuideCrossing, Mismatch>) {
        if !is_object(v) {
            return Err(Mismatch);
        }
        let name = decode_field::<String>(v, "name")?;
        Ok(GuideCrossing { name })
    }

    fn encode(&self) -> (v: serde_json::Value) {
        let ghost entries = GuideCrossing::entries(self.model());
        let mut v = empty_object();
        encode_field::<String>(&mut v, "name", &self.name, Ghost(entries), Ghost(0));
        v
    }

    proof fn lemma_rewrite(doc: Json) {
        let m = GuideCrossing::read(doc);
        let entries = GuideCrossing::entries(m);
        GuideCrossing::lemma_keys(m);
        lemma_rewritten_field::<String>(doc, "name"@);
        assert(member_of(doc, entries[0].0) == entries[0].1);
        assert forall|key: Seq<char>| doc->Object_0.contains_key(key) implies exists|i: int|
            0 <= i < entries.len() && (#[trigger] entries[i]).0 == key by {
            if key == "name"@ {
                assert(entries[0].0 == key);
            }
        }
        lemma_object_is(entries, doc->Object_0);
    }

    proof fn lemma_round_trip(m: GuideCrossingModel) {
        GuideCrossing::lemma_keys(m);
        let entries = GuideCrossing::entries(m);
        lemma_written_field::<String>(entries, 0, m.name);
    }
}

impl GuideCrossing {
    /// The fields of a value, each with its key and with what is written
    /// under it.
    pub open spec fn entries(m: GuideCrossingModel) -> Seq<Entry> {
        seq![
            ("name"@, written::<String>(m.name)),
        ]
    }

    /// Whether `key` is the key of a field.
    pub open spec fn knows(key: Seq<char>) -> bool {
        ||| key == "name"@
    }

    /// No two fields share a key.
    pub proof fn lemma_keys(m: GuideCrossingModel)
        ensures
            distinct_entry_keys(GuideCrossing::entries(m)),
    {
        reveal_strlit("name");
        assert("name"@ =~= seq!['n', 'a', 'm', 'e']);
    }
}

/// The road that a guide point is on.
#[derive(Debug, PartialEq)]
pub struct GuideRoad {
    /// The number of the road.
    pub number: Option<u16>,
    /// The name of the road.
    pub name: Option<String>,
}

/// The mathematical value of a [`GuideRoad`].
pub ghost struct GuideRoadModel {
    pub number: Option<u16>,
    pub name: Option<Seq<char>>,
}

impl Schema for GuideRoad {
    type Model = GuideRoadModel;

    open spec fn model(&self) -> GuideRoadModel {
        GuideRoadModel {
            number: optional_model(self.number),
            name: optional_model(self.name),
        }
    }

    open spec fn accepts(doc: Json) -> bool {
        &&& doc is Object
        &&& accepts_field::<u16>(doc, "number"@)
        &&& accepts_field::<String>(doc, "name"@)
    }

    open spec fn read(doc: Json) -> GuideRoadModel {
        GuideRoadModel {
            number: read_field::<u16>(doc, "number"@),
            name: read_field::<String>(doc, "name"@),
        }
    }

    open spec fn write(m: GuideRoadModel) -> Json {
        object_of(GuideRoad::entries(m))
    }

    open spec fn exact(doc: Json) -> bool {
        &&& forall|key: Seq<char>|
            #[trigger] doc->Object_0.contains_key(key) ==> {
                &&& GuideRoad::knows(key)
                &&& !(doc->Object_0[key] is Null)
            }
        &&& exact_field::<u16>(doc, "number"@)
        &&& exact_field::<String>(doc, "name"@)
    }

    fn decode(v: &serde_json::Value) -> (r: Result<GuideRoad, Mismatch>) {
        if !is_object(v) {
            return Err(Mismatch);
        }
        let number = decode_field::<u16>(v, "number")?;
        let name = decode_field::<String>(v, "name")?;
        Ok(GuideRoad { number, name })
    }

    fn encode(&self) -> (v: serde_json::Value) {
        let ghost entries = GuideRoad::entries(self.model());
        let mut v = empty_object();
        encode_field::<u16>(&mut v, "number", &self.number, Ghost(entries), Ghost(0));
        encode_field::<String>(&mut v, "name", &self.name, Ghost(entries), Ghost(1));
        v
    }

    proof fn lemma_rewrite(doc: Json) {
        let m = GuideRoad::read(doc);
        let entries = GuideRoad::entries(m);
        GuideRoad::lemma_keys(m);
        lemma_rewritten_field::<u16>(doc, "number"@);
        assert(member_of(doc, entries[0].0) == entries[0].1);
        lemma_rewritten_field::<String>(doc, "name"@);
        assert(member_of(doc, entries[1].0) == entries[1].1);
        assert forall|key: Seq<char>| doc->Object_0.contains_key(key) implies exists|i: int|
            0 <= i < entries.len() && (#[trigger] entries[i]).0 == key by {
            if key == "number"@ {
                assert(entries[0].0 == key);
            } else {
                assert(entries[1].0 == key);
            }
        }
        lemma_object_is(entries, doc->Object_0);
    }

    proof fn lemma_round_trip(m: GuideRoadModel) {
        GuideRoad::lemma_keys(m);
        let entries = GuideRoad::entries(m);
        lemma_written_field::<u16>(entries, 0, m.number);
        lemma_written_field::<String>(entries, 1, m.name);
    }
}

impl GuideRoad {
    /// The fields of a value, each with its key and with what is written
    /// under it.
    pub open spec fn entries(m: GuideRoadModel) -> Seq<Entry> {
        seq![
            ("number"@, written::<u16>(m.number)),
            ("name"@, written::<String>(m.name)),
        ]
    }

    /// Whether `key` is the key of a field.
    pub open spec fn knows(key: Seq<char>) -> bool {
        ||| key == "number"@
        ||| key == "name"@
    }

    /// No two fields share a key.
    pub proof fn lemma_keys(m: GuideRoadModel)
        ensures
            distinct_entry_keys(GuideRoad::entries(m)),
    {
        reveal_strlit("number");
        assert("number"@ =~= seq!['n', 'u', 'm', 'b', 'e', 'r']);
        reveal_strlit("name");
        assert("name"@ =~= seq!['n', 'a', 'm', 'e']);
    }
}

/// A toll gate and what is paid there.
#[derive(Debug, PartialEq)]
pub struct GuideToll {
    /// What happens at this toll gate.
    pub toll_gate_code: Option<TollGateCode>,
    /// The amount that is paid.
    pub toll: Option<i64>,
    /// The name of this toll gate.
    pub name: Option<String>,
}

/// The mathematical value of a [`GuideToll`].
pub ghost struct GuideTollModel {
    pub toll_gate_code: Option<TollGateCode>,
    pub toll: Option<i64>,
    pub name: Option<Seq<char>>,
}

impl Schema for GuideToll {
    type Model = GuideTollModel;

    open spec fn model(&self) -> GuideTollModel {
        GuideTollModel {
            toll_gate_code: optional_model(self.toll_gate_code),
            toll: optional_model(self.toll),
            name: optional_model(self.name),
        }
    }

    open spec fn accepts(doc: Json) -> bool {
        &&& doc is Object
        &&& accepts_field::<TollGateCode>(doc, "tollGateCode"@)
        &&& accepts_field::<i64>(doc, "toll"@)
        &&& accepts_field::<String>(doc, "name"@)
    }

    open spec fn read(doc: Json) -> GuideTollModel {
        GuideTollModel {
            toll_gate_code: read_field::<TollGateCode>(doc, "tollGateCode"@),
            toll: read_field::<i64>(doc, "toll"@),
            name: read_field::<String>(doc, "name"@),
        }
    }

    open spec fn write(m: GuideTollModel) -> Json {
        object_of(GuideToll::entries(m))
    }

    open spec fn exact(doc: Json) -> bool {
        &&& forall|key: Seq<char>|
            #[trigger] doc->Object_0.contains_key(key) ==> {
                &&& GuideToll::knows(key)
                &&& !(doc->Object_0[key] is Null)
            }
        &&& exact_field::<TollGateCode>(doc, "tollGateCode"@)
        &&& exact_field::<i64>(doc, "toll"@)
        &&& exact_field::<String>(doc, "name"@)
    }

    fn decode(v: &serde_json::Value) -> (r: Result<GuideToll, Mismatch>) {
        if !is_object(v) {
            return Err(Mismatch);
        }
        let toll_gate_code = decode_field::<TollGateCode>(v, "tollGateCode")?;
        let toll = decode_field::<i64>(v, "toll")?;
        let name = decode_field::<String>(v, "name")?;
        Ok(GuideToll { toll_gate_code, toll, name })
    }

    fn encode(&self) -> (v: serde_json::Value) {
        let ghost entries = GuideToll::entries(self.model());
        let mut v = empty_object();
        encode_field::<TollGateCode>(
            &mut v,
            "tollGateCode",
            &self.toll_gate_code,
            Ghost(entries),
            Ghost(0),
        );
        encode_field::<i64>(&mut v, "toll", &self.toll, Ghost(entries), Ghost(1));
        encode_field::<String>(&mut v, "name", &self.name, Ghost(entries), Ghost(2));
        v
    }

    proof fn lemma_rewrite(doc: Json) {
        let m = GuideToll::read(doc);
        let entries = GuideToll::entries(m);
        GuideToll::lemma_keys(m);
        lemma_rewritten_field::<TollGateCode>(doc, "tollGateCode"@);
        assert(member_of(doc, entries[0].0) == entries[0].1);
        lemma_rewritten_field::<i64>(doc, "toll"@);
        assert(member_of(doc, entries[1].0) == entries[1].1);
        lemma_rewritten_field::<String>(doc, "name"@);
        assert(member_of(doc, entries[2].0) == entries[2].1);
        assert forall|key: Seq<char>| doc->Object_0.contains_key(key) implies exists|i: int|
            0 <= i < entries.len() && (#[trigger] entries[i]).0 == key by {
            if key == "tollGateCode"@ {
                assert(entries[0].0 == key);
            } else if key == "toll"@ {
                assert(entries[1].0 == key);
            } else {
                assert(entries[2].0 == key);
            }
        }
        lemma_object_is(entries, doc->Object_0);
    }

    proof fn lemma_round_trip(m: GuideTollModel) {
        GuideToll::lemma_keys(m);
        let entries = GuideToll::entries(m);
        lemma_written_field::<TollGateCode>(entries, 0, m.toll_gate_code);
        lemma_written_field::<i64>(entries, 1, m.toll);
        lemma_written_field::<String>(entries, 2, m.name);
    }
}

impl GuideToll {
    /// The fields of a value, each with its key and with what is written
    /// under it.
    pub open spec fn entries(m: GuideTollModel) -> Seq<Entry> {
        seq![
            ("tollGateCode"@, written::<TollGateCode>(m.toll_gate_code)),
            ("toll"@, written::<i64>(m.toll)),
            ("name"@, written::<String>(m.name)),
        ]
    }

    /// Whether `key` is the key of a field.
    pub open spec fn knows(key: Seq<char>) -> bool {
        ||| key == "tollGateCode"@
        ||| key == "toll"@
        ||| key == "name"@
    }

    /// No two fields share a key.
    pub proof fn lemma_keys(m: GuideTollModel)
        ensures
            distinct_entry_keys(GuideToll::entries(m)),
    {
        reveal_strlit("tollGateCode");
        assert("tollGateCode"@ =~= seq![
            't', 'o', 'l', 'l', 'G', 'a', 't', 'e', 'C', 'o', 'd', 'e',
        ]);
        reveal_strlit("toll");
        assert("toll"@ =~= seq!['t', 'o', 'l', 'l']);
        reveal_strlit("name");
        assert("name"@ =~= seq!['n', 'a', 'm', 'e']);
    }
}

/// A toll gate and what is paid there with electronic toll collection.
#[derive(Debug, PartialEq)]
pub struct GuideTollEtc {
    /// What happens at this toll gate.
    pub toll_gate_code: Option<TollGateCode>,
    /// The amount that is paid.
    pub toll: Option<i64>,
    /// The name of this toll gate.
    pub name: Option<String>,
    /// How this toll gate takes electronic payment.
    pub etc_code: Option<EtcCode>,
}

/// The mathematical value of a [`GuideTollEtc`].
pub ghost struct GuideTollEtcModel {
    pub toll_gate_code: Option<TollGateCode>,
    pub toll: Option<i64>,
    pub name: Option<Seq<char>>,
    pub etc_code: Option<EtcCode>,
}

impl Schema for GuideTollEtc {
    type Model = GuideTollEtcModel;

    open spec fn model(&self) -> GuideTollEtcModel {
        GuideTollEtcModel {
            toll_gate_code: optional_model(self.toll_gate_code),
            toll: optional_model(self.toll),
            name: optional_model(self.name),
            etc_code: optional_model(self.etc_code),
        }
    }

    open spec fn accepts(doc: Json) -> bool {
        &&& doc is Object
        &&& accepts_field::<TollGateCode>(doc, "tollGateCode"@)
        &&& accepts_field::<i64>(doc, "toll"@)
        &&& accepts_field::<String>(doc, "name"@)
        &&& accepts_field::<EtcCode>(doc, "etcCode"@)
    }

    open spec fn read(doc: Json) -> GuideTollEtcModel {
        GuideTollEtcModel {
            toll_gate_code: read_field::<TollGateCode>(doc, "tollGateCode"@),
            toll: read_field::<i64>(doc, "toll"@),
            name: read_field::<String>(doc, "name"@),
            etc_code: read_field::<EtcCode>(doc, "etcCode"@),
        }
    }

    open spec fn write(m: GuideTollEtcModel) -> Json {
        object_of(GuideTollEtc::entries(m))
    }

    open spec fn exact(doc: Json) -> bool {
        &&& forall|key: Seq<char>|
            #[trigger] doc->Object_0.contains_key(key) ==> {
                &&& GuideTollEtc::knows(key)
                &&& !(doc->Object_0[key] is Null)
            }
        &&& exact_field::<TollGateCode>(doc, "tollGateCode"@)
        &&& exact_field::<i64>(doc, "toll"@)
        &&& exact_field::<String>(doc, "name"@)
        &&& exact_field::<EtcCode>(doc, "etcCode"@)
    }

    fn decode(v: &serde_json::Value) -> (r: Result<GuideTollEtc, Mismatch>) {
        if !is_object(v) {
            return Err(Mismatch);
        }
        let toll_gate_code = decode_field::<TollGateCode>(v, "tollGateCode")?;
        let toll = decode_field::<i64>(v, "toll")?;
        let name = decode_field::<String>(v, "name")?;
        let etc_code = decode_field::<EtcCode>(v, "etcCode")?;
        Ok(GuideTollEtc { toll_gate_code, toll, name, etc_code })
    }

    fn encode(&self) -> (v: serde_json::Value) {
        let ghost entries = GuideTollEtc::entries(self.model());
        let mut v = empty_object();
        encode_field::<TollGateCode>(
            &mut v,
            "tollGateCode",
            &self.toll_gate_code,
            Ghost(entries),
            Ghost(0),
        );
        encode_field::<i64>(&mut v, "toll", &self.toll, Ghost(entries), Ghost(1));
        encode_field::<String>(&mut v, "name", &self.name, Ghost(entries), Ghost(2));
        encode_field::<EtcCode>(&mut v, "etcCode", &self.etc_code, Ghost(entries), Ghost(3));
        v
    }

    proof fn lemma_rewrite(doc: Json) {
        let m = GuideTollEtc::read(doc);
        let entries = GuideTollEtc::entries(m);
        GuideTollEtc::lemma_keys(m);
        lemma_rewritten_field::<TollGateCode>(doc, "tollGateCode"@);
        assert(member_of(doc, entries[0].0) == entries[0].1);
        lemma_rewritten_field::<i64>(doc, "toll"@);
        assert(member_of(doc, entries[1].0) == entries[1].1);
        lemma_rewritten_field::<String>(doc, "name"@);
        assert(member_of(doc, entries[2].0) == entries[2].1);
        lemma_rewritten_field::<EtcCode>(doc, "etcCode"@);
        assert(member_of(doc, entries[3].0) == entries[3].1);
        assert forall|key: Seq<char>| doc->Object_0.contains_key(key) implies exists|i: int|
            0 <= i < entries.len() && (#[trigger] entries[i]).0 == key by {
            if key == "tollGateCode"@ {
                assert(entries[0].0 == key);
            } else if key == "toll"@ {
                assert(entries[1].0 == key);
            } else if key == "name"@ {
                assert(entries[2].0 == key);
            } else {
                assert(entries[3].0 == key);
            }
        }
        lemma_object_is(entries, doc->Object_0);
    }

    proof fn lemma_round_trip(m: GuideTollEtcModel) {
        GuideTollEtc::lemma_keys(m);
        let entries = GuideTollEtc::entries(m);
        lemma_written_field::<TollGateCode>(entries, 0, m.toll_gate_code);
        lemma_written_field::<i64>(entries, 1, m.toll);
        lemma_written_field::<String>(entries, 2, m.name);
        lemma_written_field::<EtcCode>(entries, 3, m.etc_code);
    }
}

impl GuideTollEtc {
    /// The fields of a value, each with its key and with what is written
    /// under it.
    pub open spec fn entries(m: GuideTollEtcModel) -> Seq<Entry> {
        seq![
            ("tollGateCode"@, written::<TollGateCode>(m.toll_gate_code)),
            ("toll"@, written::<i64>(m.toll)),
            ("name"@, written::<String>(m.name)),
            ("etcCode"@, written::<EtcCode>(m.etc_code)),
        ]
    }

    /// Whether `key` is the key of a field.
    pub open spec fn knows(key: Seq<char>) -> bool {
        ||| key == "tollGateCode"@
        ||| key == "toll"@
        ||| key == "name"@
        ||| key == "etcCode"@
    }

    /// No two fields share a key.
    pub proof fn lemma_keys(m: GuideTollEtcModel)
        ensures
            distinct_entry_keys(GuideTollEtc::entries(m)),
    {
        reveal_strlit("tollGateCode");
        assert("tollGateCode"@ =~= seq![
            't', 'o', 'l', 'l', 'G', 'a', 't', 'e', 'C', 'o', 'd', 'e',
        ]);
        reveal_strlit("toll");
        assert("toll"@ =~= seq!['t', 'o', 'l', 'l']);
        reveal_strlit("name");
        assert("name"@ =~= seq!['n', 'a', 'm', 'e']);
        reveal_strlit("etcCode");
        assert("etcCode"@ =~= seq!['e', 't', 'c', 'C', 'o', 'd', 'e']);
    }
}

/// A place in the shape of the route.
#[derive(Debug, PartialEq)]
pub struct ShapeIndex {
    /// The index of the stretch.
    pub shape_index: Option<u16>,
    /// The index of the point within the stretch.
    pub shape_points_index: Option<u16>,
}

/// The mathematical value of a [`ShapeIndex`].
pub ghost struct ShapeIndexModel {
    pub shape_index: Option<u16>,
    pub shape_points_index: Option<u16>,
}

impl Schema for ShapeIndex {
    type Model = ShapeIndexModel;

    open spec fn model(&self) -> ShapeIndexModel {
        ShapeIndexModel {
            shape_index: optional_model(self.shape_index),
            shape_points_index: optional_model(self.shape_points_index),
        }
    }

    open spec fn accepts(doc: Json) -> bool {
        &&& doc is Object
        &&& accepts_field::<u16>(doc, "shapeIndex"@)
        &&& accepts_field::<u16>(doc, "shapePointsIndex"@)
    }

    open spec fn read(doc: Json) -> ShapeIndexModel {
        ShapeIndexModel {
            shape_index: read_field::<u16>(doc, "shapeIndex"@),
            shape_points_index: read_field::<u16>(doc, "shapePointsIndex"@),
        }
    }

    open spec fn write(m: ShapeIndexModel) -> Json {
        object_of(ShapeIndex::entries(m))
    }

    open spec fn exact(doc: Json) -> bool {
        &&& forall|key: Seq<char>|
            #[trigger] doc->Object_0.contains_key(key) ==> {
                &&& ShapeIndex::knows(key)
                &&& !(doc->Object_0[key] is Null)
            }
        &&& exact_field::<u16>(doc, "shapeIndex"@)
        &&& exact_field::<u16>(doc, "shapePointsIndex"@)
    }

    fn decode(v: &serde_json::Value) -> (r: Result<ShapeIndex, Mismatch>) {
        if !is_object(v) {
            return Err(Mismatch);
        }
        let shape_index = decode_field::<u16>(v, "shapeIndex")?;
        let shape_points_index = decode_field::<u16>(v, "shapePointsIndex")?;
        Ok(ShapeIndex { shape_index, shape_points_index })
    }

    fn encode(&self) -> (v: serde_json::Value) {
        let ghost entries = ShapeIndex::entries(self.model());
        let mut v = empty_object();
        encode_field::<u16>(&mut v, "shapeIndex", &self.shape_index, Ghost(entries), Ghost(0));
        encode_field::<u16>(
            &mut v,
            "shapePointsIndex",
            &self.shape_points_index,
            Ghost(entries),
            Ghost(1),
        );
        v
    }

    proof fn lemma_rewrite(doc: Json) {
        let m = ShapeIndex::read(doc);
        let entries = ShapeIndex::entries(m);
        ShapeIndex::lemma_keys(m);
        lemma_rewritten_field::<u16>(doc, "shapeIndex"@);
        assert(member_of(doc, entries[0].0) == entries[0].1);
        lemma_rewritten_field::<u16>(doc, "shapePointsIndex"@);
        assert(member_of(doc, entries[1].0) == entries[1].1);
        assert forall|key: Seq<char>| doc->Object_0.contains_key(key) implies exists|i: int|
            0 <= i < entries.len() && (#[trigger] entries[i]).0 == key by {
            if key == "shapeIndex"@ {
                assert(entries[0].0 == key);
            } else {
                assert(entries[1].0 == key);
            }
        }
        lemma_object_is(entries, doc->Object_0);
    }

    proof fn lemma_round_trip(m: ShapeIndexModel) {
        ShapeIndex::lemma_keys(m);
        let entries = ShapeIndex::entries(m);
        lemma_written_field::<u16>(entries, 0, m.shape_index);
        lemma_written_field::<u16>(entries, 1, m.shape_points_index);
    }
}

impl ShapeIndex {
    /// The fields of a value, each with its key and with what is written
    /// under it.
    pub open spec fn entries(m: ShapeIndexModel) -> Seq<Entry> {
        seq![
            ("shapeIndex"@, written::<u16>(m.shape_index)),
            ("shapePointsIndex"@, written::<u16>(m.shape_points_index)),
        ]
    }

    /// Whether `key` is the key of a field.
    pub open spec fn knows(key: Seq<char>) -> bool {
        ||| key == "shapeIndex"@
        ||| key == "shapePointsIndex"@
    }

    /// No two fields share a key.
    pub proof fn lemma_keys(m: ShapeIndexModel)
        ensures
            distinct_entry_keys(ShapeIndex::entries(m)),
    {
        reveal_strlit("shapeIndex");
        assert("shapeIndex"@ =~= seq!['s', 'h', 'a', 'p', 'e', 'I', 'n', 'd', 'e', 'x']);
        reveal_strlit("shapePointsIndex");
        assert("shapePointsIndex"@ =~= seq![
            's', 'h', 'a', 'p', 'e', 'P', 'o', 'i', 'n', 't', 's', 'I', 'n', 'd', 'e', 'x',
        ]);
    }
}

/// What is known of a stretch of the route's shape.
#[derive(Debug, PartialEq)]
pub struct ShapeInfo {
    /// The class of the road.
    pub road_type: Option<u8>,
    /// The data set that the stretch comes from.
    pub data_id: Option<u8>,
    /// Attributes of the stretch, packed into bits as the service packs them.
    pub info: Option<u32>,
    /// The length of the stretch.
    pub distance: Option<serde_json::Number>,
}

/// The mathematical value of a [`ShapeInfo`].
pub ghost struct ShapeInfoModel {
    pub road_type: Option<u8>,
    pub data_id: Option<u8>,
    pub info: Option<u32>,
    pub distance: Option<Numeral>,
}

impl Schema for ShapeInfo {
    type Model = ShapeInfoModel;

    open spec fn model(&self) -> ShapeInfoModel {
        ShapeInfoModel {
            road_type: optional_model(self.road_type),
            data_id: optional_model(self.data_id),
            info: optional_model(self.info),
            distance: optional_model(self.distance),
        }
    }

    open spec fn accepts(doc: Json) -> bool {
        &&& doc is Object
        &&& accepts_field::<u8>(doc, "roadType"@)
        &&& accepts_field::<u8>(doc, "dataId"@)
        &&& accepts_field::<u32>(doc, "info"@)
        &&& accepts_field::<serde_json::Number>(doc, "distance"@)
    }

    open spec fn read(doc: Json) -> ShapeInfoModel {
        ShapeInfoModel {
            road_type: read_field::<u8>(doc, "roadType"@),
            data_id: read_field::<u8>(doc, "dataId"@),
            info: read_field::<u32>(doc, "info"@),
            distance: read_field::<serde_json::Number>(doc, "distance"@),
        }
    }

    open spec fn write(m: ShapeInfoModel) -> Json {
        object_of(ShapeInfo::entries(m))
    }

    open spec fn exact(doc: Json) -> bool {
        &&& forall|key: Seq<char>|
            #[trigger] doc->Object_0.contains_key(key) ==> {
                &&& ShapeInfo::knows(key)
                &&& !(doc->Object_0[key] is Null)
            }
        &&& exact_field::<u8>(doc, "roadType"@)
        &&& exact_field::<u8>(doc, "dataId"@)
        &&& exact_field::<u32>(doc, "info"@)
        &&& exact_field::<serde_json::Number>(doc, "distance"@)
    }

    fn decode(v: &serde_json::Value) -> (r: Result<ShapeInfo, Mismatch>) {
        if !is_object(v) {
            return Err(Mismatch);
        }
        let road_type = decode_field::<u8>(v, "roadType")?;
        let data_id = decode_field::<u8>(v, "dataId")?;
        let info = decode_field::<u32>(v, "info")?;
        let distance = decode_field::<serde_json::Number>(v, "distance")?;
        Ok(ShapeInfo { road_type, data_id, info, distance })
    }

    fn encode(&self) -> (v: serde_json::Value) {
        let ghost entries = ShapeInfo::entries(self.model());
        let mut v = empty_object();
        encode_field::<u8>(&mut v, "roadType", &self.road_type, Ghost(entries), Ghost(0));
        encode_field::<u8>(&mut v, "dataId", &self.data_id, Ghost(entries), Ghost(1));
        encode_field::<u32>(&mut v, "info", &self.info, Ghost(entries), Ghost(2));
        encode_field::<serde_json::Number>(
            &mut v,
            "distance",
            &self.distance,
            Ghost(entries),
            Ghost(3),
        );
        v
    }

    proof fn lemma_rewrite(doc: Json) {
        let m = ShapeInfo::read(doc);
        let entries = ShapeInfo::entries(m);
        ShapeInfo::lemma_keys(m);
        lemma_rewritten_field::<u8>(doc, "roadType"@);
        assert(member_of(doc, entries[0].0) == entries[0].1);
        lemma_rewritten_field::<u8>(doc, "dataId"@);
        assert(member_of(doc, entries[1].0) == entries[1].1);
        lemma_rewritten_field::<u32>(doc, "info"@);
        assert(member_of(doc, entries[2].0) == entries[2].1);
        lemma_rewritten_field::<serde_json::Number>(doc, "distance"@);
        assert(member_of(doc, entries[3].0) == entries[3].1);
        assert forall|key: Seq<char>| doc->Object_0.contains_key(key) implies exists|i: int|
            0 <= i < entries.len() && (#[trigger] entries[i]).0 == key by {
            if key == "roadType"@ {
                assert(entries[0].0 == key);
            } else if key == "dataId"@ {
                assert(entries[1].0 == key);
            } else if key == "info"@ {
                assert(entries[2].0 == key);
            } else {
                assert(entries[3].0 == key);
            }
        }
        lemma_object_is(entries, doc->Object_0);
    }

    proof fn lemma_round_trip(m: ShapeInfoModel) {
        ShapeInfo::lemma_keys(m);
        let entries = ShapeInfo::entries(m);
        lemma_written_field::<u8>(entries, 0, m.road_type);
        lemma_written_field::<u8>(entries, 1, m.data_id);
        lemma_written_field::<u32>(entries, 2, m.info);
        lemma_written_field::<serde_json::Number>(entries, 3, m.distance);
    }
}

impl ShapeInfo {
    /// The fields of a value, each with its key and with what is written
    /// under it.
    pub open spec fn entries(m: ShapeInfoModel) -> Seq<Entry> {
        seq![
            ("roadType"@, written::<u8>(m.road_type)),
            ("dataId"@, written::<u8>(m.data_id)),
            ("info"@, written::<u32>(m.info)),
            ("distance"@, written::<serde_json::Number>(m.distance)),
        ]
    }

    /// Whether `key` is the key of a field.
    pub open spec fn knows(key: Seq<char>) -> bool {
        ||| key == "roadType"@
        ||| key == "dataId"@
        ||| key == "info"@
        ||| key == "distance"@
    }

    /// No two fields share a key.
    pub proof fn lemma_keys(m: ShapeInfoModel)
        ensures
            distinct_entry_keys(ShapeInfo::entries(m)),
    {
        reveal_strlit("roadType");
        assert("roadType"@ =~= seq!['r', 'o', 'a', 'd', 'T', 'y', 'p', 'e']);
        reveal_strlit("dataId");
        assert("dataId"@ =~= seq!['d', 'a', 't', 'a', 'I', 'd']);
        reveal_strlit("info");
        assert("info"@ =~= seq!['i', 'n', 'f', 'o']);
        reveal_strlit("distance");
        assert("distance"@ =~= seq!['d', 'i', 's', 't', 'a', 'n', 'c', 'e']);
    }
}

/// A point of the route's shape.
#[derive(Debug, PartialEq)]
pub struct ShapePoint {
    /// Longitude in degrees.
    pub lon: Option<serde_json::Number>,
    /// Latitude in degrees.
    pub lat: Option<serde_json::Number>,
    /// Elevation.
    pub el: Option<u32>,
}

/// The mathematical value of a [`ShapePoint`].
pub ghost struct ShapePointModel {
    pub lon: Option<Numeral>,
    pub lat: Option<Numeral>,
    pub el: Option<u32>,
}

impl Schema for ShapePoint {
    type Model = ShapePointModel;

    open spec fn model(&self) -> ShapePointModel {
        ShapePointModel {
            lon: optional_model(self.lon),
            lat: optional_model(self.lat),
            el: optional_model(self.el),
        }
    }

    open spec fn accepts(doc: Json) -> bool {
        &&& doc is Object
        &&& accepts_field::<serde_json::Number>(doc, "lon"@)
        &&& accepts_field::<serde_json::Number>(doc, "lat"@)
        &&& accepts_field::<u32>(doc, "el"@)
    }

    open spec fn read(doc: Json) -> ShapePointModel {
        ShapePointModel {
            lon: read_field::<serde_json::Number>(doc, "lon"@),
            lat: read_field::<serde_json::Number>(doc, "lat"@),
            el: read_field::<u32>(doc, "el"@),
        }
    }

    open spec fn write(m: ShapePointModel) -> Json {
        object_of(ShapePoint::entries(m))
    }

    open spec fn exact(doc: Json) -> bool {
        &&& forall|key: Seq<char>|
            #[trigger] doc->Object_0.contains_key(key) ==> {
                &&& ShapePoint::knows(key)
                &&& !(doc->Object_0[key] is Null)
            }
        &&& exact_field::<serde_json::Number>(doc, "lon"@)
        &&& exact_field::<serde_json::Number>(doc, "lat"@)
        &&& exact_field::<u32>(doc, "el"@)
    }

    fn decode(v: &serde_json::Value) -> (r: Result<ShapePoint, Mismatch>) {
        if !is_object(v) {
            return Err(Mismatch);
        }
        let lon = decode_field::<serde_json::Number>(v, "lon")?;
        let lat = decode_field::<serde_json::Number>(v, "lat")?;
        let el = decode_field::<u32>(v, "el")?;
        Ok(ShapePoint { lon, lat, el })
    }

    fn encode(&self) -> (v: serde_json::Value) {
        let ghost entries = ShapePoint::entries(self.model());
        let mut v = empty_object();
        encode_field::<serde_json::Number>(&mut v, "lon", &self.lon, Ghost(entries), Ghost(0));
        encode_field::<serde_json::Number>(&mut v, "lat", &self.lat, Ghost(entries), Ghost(1));
        encode_field::<u32>(&mut v, "el", &self.el, Ghost(entries), Ghost(2));
        v
    }

    proof fn lemma_rewrite(doc: Json) {
        let m = ShapePoint::read(doc);
        let entries = ShapePoint::entries(m);
        ShapePoint::lemma_keys(m);
        lemma_rewritten_field::<serde_json::Number>(doc, "lon"@);
        assert(member_of(doc, entries[0].0) == entries[0].1);
        lemma_rewritten_field::<serde_json::Number>(doc, "lat"@);
        assert(member_of(doc, entries[1].0) == entries[1].1);
        lemma_rewritten_field::<u32>(doc, "el"@);
        assert(member_of(doc, entries[2].0) == entries[2].1);
        assert forall|key: Seq<char>| doc->Object_0.contains_key(key) implies exists|i: int|
            0 <= i < entries.len() && (#[trigger] entries[i]).0 == key by {
            if key == "lon"@ {
                assert(entries[0].0 == key);
            } else if key == "lat"@ {
                assert(entries[1].0 == key);
            } else {
                assert(entries[2].0 == key);
            }
        }
        lemma_object_is(entries, doc->Object_0);
    }

    proof fn lemma_round_trip(m: ShapePointModel) {
        ShapePoint::lemma_keys(m);
        let entries = ShapePoint::entries(m);
        lemma_written_field::<serde_json::Number>(entries, 0, m.lon);
        lemma_written_field::<serde_json::Number>(entries, 1, m.lat);
        lemma_written_field::<u32>(entries, 2, m.el);
    }
}

impl ShapePoint {
    /// The fields of a value, each with its key and with what is written
    /// under it.
    pub open spec fn entries(m: ShapePointModel) -> Seq<Entry> {
        seq![
            ("lon"@, written::<serde_json::Number>(m.lon)),
            ("lat"@, written::<serde_json::Number>(m.lat)),
            ("el"@, written::<u32>(m.el)),
        ]
    }

    /// Whether `key` is the key of a field.
    pub open spec fn knows(key: Seq<char>) -> bool {
        ||| key == "lon"@
        ||| key == "lat"@
        ||| key == "el"@
    }

    /// No two fields share a key.
    pub proof fn lemma_keys(m: ShapePointModel)
        ensures
            distinct_entry_keys(ShapePoint::entries(m)),
    {
        reveal_strlit("lon");
        assert("lon"@ =~= seq!['l', 'o', 'n']);
        reveal_strlit("lat");
        assert("lat"@ =~= seq!['l', 'a', 't']);
        reveal_strlit("el");
        assert("el"@ =~= seq!['e', 'l']);
    }
}

/// What is said at a guide point.
#[derive(Debug, PartialEq)]
pub struct GuideInfo {
    /// The direction to take.
    pub guide_direction: Option<GuideDirection>,
    /// The class of the road.
    pub road_type: Option<u16>,
    /// The distance to the next guide point.
    pub distance: Option<serde_json::Number>,
    /// The time to the next guide point.
    pub travel_time: Option<serde_json::Number>,
    /// What the point leads onto.
    pub guide_detail: Option<GuideDetail>,
    /// The highway facilities ahead.
    pub guide_highway: Option<GuideHighway>,
    /// The crossing at the point.
    pub guide_crossing: Option<GuideCrossing>,
    /// The road that the point is on.
    pub guide_road: Option<GuideRoad>,
    /// The toll gate at the point.
    pub guide_toll: Option<GuideToll>,
    /// The toll gate at the point, for electronic toll collection.
    pub guide_toll_etc: Option<GuideTollEtc>,
    /// Where the shape of this part begins.
    pub shape_index_first: Option<ShapeIndex>,
    /// Where the shape of this part ends.
    pub shape_index_last: Option<ShapeIndex>,
    /// The kinds of the stretches of this part.
    pub shape: Option<Vec<ShapeType>>,
    /// What is known of the shape of this part.
    pub shape_info: Option<ShapeInfo>,
    /// The points of the shape of this part.
    pub shape_points: Option<Vec<ShapePoint>>,
    /// An ordering whose meaning the service defines.
    pub order: Option<Vec<u32>>,
}

/// The mathematical value of a [`GuideInfo`].
pub ghost struct GuideInfoModel {
    pub guide_direction: Option<GuideDirection>,
    pub road_type: Option<u16>,
    pub distance: Option<Numeral>,
    pub travel_time: Option<Numeral>,
    pub guide_detail: Option<GuideDetailModel>,
    pub guide_highway: Option<GuideHighwayModel>,
    pub guide_crossing: Option<GuideCrossingModel>,
    pub guide_road: Option<GuideRoadModel>,
    pub guide_toll: Option<GuideTollModel>,
    pub guide_toll_etc: Option<GuideTollEtcModel>,
    pub shape_index_first: Option<ShapeIndexModel>,
    pub shape_index_last: Option<ShapeIndexModel>,
    pub shape: Option<Seq<ShapeType>>,
    pub shape_info: Option<ShapeInfoModel>,
    pub shape_points: Option<Seq<ShapePointModel>>,
    pub order: Option<Seq<u32>>,
}

impl Schema for GuideInfo {
    type Model = GuideInfoModel;

    open spec fn model(&self) -> GuideInfoModel {
        GuideInfoModel {
            guide_direction: optional_model(self.guide_direction),
            road_type: optional_model(self.road_type),
            distance: optional_model(self.distance),
            travel_time: optional_model(self.travel_time),
            guide_detail: optional_model(self.guide_detail),
            guide_highway: optional_model(self.guide_highway),
            guide_crossing: optional_model(self.guide_crossing),
            guide_road: optional_model(self.guide_road),
            guide_toll: optional_model(self.guide_toll),
            guide_toll_etc: optional_model(self.guide_toll_etc),
            shape_index_first: optional_model(self.shape_index_first),
            shape_index_last: optional_model(self.shape_index_last),
            shape: optional_model(self.shape),
            shape_info: optional_model(self.shape_info),
            shape_points: optional_model(self.shape_points),
            order: optional_model(self.order),
        }
    }

    open spec fn accepts(doc: Json) -> bool {
        &&& doc is Object
        &&& accepts_field::<GuideDirection>(doc, "guideDirection"@)
        &&& accepts_field::<u16>(doc, "roadType"@)
        &&& accepts_field::<serde_json::Number>(doc, "distance"@)
        &&& accepts_field::<serde_json::Number>(doc, "travelTime"@)
        &&& accepts_field::<GuideDetail>(doc, "guideDetail"@)
        &&& accepts_field::<GuideHighway>(doc, "guideHighway"@)
        &&& accepts_field::<GuideCrossing>(doc, "guideCrossing"@)
        &&& accepts_field::<GuideRoad>(doc, "guideRoad"@)
        &&& accepts_field::<GuideToll>(doc, "guideToll"@)
        &&& accepts_field::<GuideTollEtc>(doc, "guideTollEtc"@)
        &&& accepts_field::<ShapeIndex>(doc, "shapeIndexFirst"@)
        &&& accepts_field::<ShapeIndex>(doc, "shapeIndexLast"@)
        &&& accepts_field::<Vec<ShapeType>>(doc, "shape"@)
        &&& accepts_field::<ShapeInfo>(doc, "shapeInfo"@)
        &&& accepts_field::<Vec<ShapePoint>>(doc, "shapePoints"@)
        &&& accepts_field::<Vec<u32>>(doc, "order"@)
    }

    open spec fn read(doc: Json) -> GuideInfoModel {
        GuideInfoModel {
            guide_direction: read_field::<GuideDirection>(doc, "guideDirection"@),
            road_type: read_field::<u16>(doc, "roadType"@),
            distance: read_field::<serde_json::Number>(doc, "distance"@),
            travel_time: read_field::<serde_json::Number>(doc, "travelTime"@),
            guide_detail: read_field::<GuideDetail>(doc, "guideDetail"@),
            guide_highway: read_field::<GuideHighway>(doc, "guideHighway"@),
            guide_crossing: read_field::<GuideCrossing>(doc, "guideCrossing"@),
            guide_road: read_field::<GuideRoad>(doc, "guideRoad"@),
            guide_toll: read_field::<GuideToll>(doc, "guideToll"@),
            guide_toll_etc: read_field::<GuideTollEtc>(doc, "guideTollEtc"@),
            shape_index_first: read_field::<ShapeIndex>(doc, "shapeIndexFirst"@),
            shape_index_last: read_field::<ShapeIndex>(doc, "shapeIndexLast"@),
            shape: read_field::<Vec<ShapeType>>(doc, "shape"@),
            shape_info: read_field::<ShapeInfo>(doc, "shapeInfo"@),
            shape_points: read_field::<Vec<ShapePoint>>(doc, "shapePoints"@),
            order: read_field::<Vec<u32>>(doc, "order"@),
        }
    }

    open spec fn write(m: GuideInfoModel) -> Json {
        object_of(GuideInfo::entries(m))
    }

    open spec fn exact(doc: Json) -> bool {
        &&& forall|key: Seq<char>|
            #[trigger] doc->Object_0.contains_key(key) ==> {
                &&& GuideInfo::knows(key)
                &&& !(doc->Object_0[key] is Null)
            }
        &&& exact_field::<GuideDirection>(doc, "guideDirection"@)
        &&& exact_field::<u16>(doc, "roadType"@)
        &&& exact_field::<serde_json::Number>(doc, "distance"@)
        &&& exact_field::<serde_json::Number>(doc, "travelTime"@)
        &&& exact_field::<GuideDetail>(doc, "guideDetail"@)
        &&& exact_field::<GuideHighway>(doc, "guideHighway"@)
        &&& exact_field::<GuideCrossing>(doc, "guideCrossing"@)
        &&& exact_field::<GuideRoad>(doc, "guideRoad"@)
        &&& exact_field::<GuideToll>(doc, "guideToll"@)
        &&& exact_field::<GuideTollEtc>(doc, "guideTollEtc"@)
        &&& exact_field::<ShapeIndex>(doc, "shapeIndexFirst"@)
        &&& exact_field::<ShapeIndex>(doc, "shapeIndexLast"@)
        &&& exact_field::<Vec<ShapeType>>(doc, "shape"@)
        &&& exact_field::<ShapeInfo>(doc, "shapeInfo"@)
        &&& exact_field::<Vec<ShapePoint>>(doc, "shapePoints"@)
        &&& exact_field::<Vec<u32>>(doc, "order"@)
    }

    fn decode(v: &serde_json::Value) -> (r: Result<GuideInfo, Mismatch>) {
        if !is_object(v) {
            return Err(Mismatch);
        }
        let guide_direction = decode_field::<GuideDirection>(v, "guideDirection")?;
        let road_type = decode_field::<u16>(v, "roadType")?;
        let distance = decode_field::<serde_json::Number>(v, "distance")?;
        let travel_time = decode_field::<serde_json::Number>(v, "travelTime")?;
        let guide_detail = decode_field::<GuideDetail>(v, "guideDetail")?;
        let guide_highway = decode_field::<GuideHighway>(v, "guideHighway")?;
        let guide_crossing = decode_field::<GuideCrossing>(v, "guideCrossing")?;
        let guide_road = decode_field::<GuideRoad>(v, "guideRoad")?;
        let guide_toll = decode_field::<GuideToll>(v, "guideToll")?;
        let guide_toll_etc = decode_field::<GuideTollEtc>(v, "guideTollEtc")?;
        let shape_index_first = decode_field::<ShapeIndex>(v, "shapeIndexFirst")?;
        let shape_index_last = decode_field::<ShapeIndex>(v, "shapeIndexLast")?;
        let shape = decode_field::<Vec<ShapeType>>(v, "shape")?;
        let shape_info = decode_field::<ShapeInfo>(v, "shapeInfo")?;
        let shape_points = decode_field::<Vec<ShapePoint>>(v, "shapePoints")?;
        let order = decode_field::<Vec<u32>>(v, "order")?;
        Ok(GuideInfo {
            guide_direction,
            road_type,
            distance,
            travel_time,
            guide_detail,
            guide_highway,
            guide_crossing,
            guide_road,
            guide_toll,
            guide_toll_etc,
            shape_index_first,
            shape_index_last,
            shape,
            shape_info,
            shape_points,
            order,
        })
    }

    fn encode(&self) -> (v: serde_json::Value) {
        let ghost entries = GuideInfo::entries(self.model());
        let mut v = empty_object();
        encode_field::<GuideDirection>(
            &mut v,
            "guideDirection",
            &self.guide_direction,
            Ghost(entries),
            Ghost(0),
        );
        encode_field::<u16>(&mut v, "roadType", &self.road_type, Ghost(entries), Ghost(1));
        encode_field::<serde_json::Number>(
            &mut v,
            "distance",
            &self.distance,
            Ghost(entries),
            Ghost(2),
        );
        encode_field::<serde_json::Number>(
            &mut v,
            "travelTime",
            &self.travel_time,
            Ghost(entries),
            Ghost(3),
        );
        encode_field::<GuideDetail>(
            &mut v,
            "guideDetail",
            &self.guide_detail,
            Ghost(entries),
            Ghost(4),
        );
        encode_field::<GuideHighway>(
            &mut v,
            "guideHighway",
            &self.guide_highway,
            Ghost(entries),
            Ghost(5),
        );
        encode_field::<GuideCrossing>(
            &mut v,
            "guideCrossing",
            &self.guide_crossing,
            Ghost(entries),
            Ghost(6),
        );
        encode_field::<GuideRoad>(&mut v, "guideRoad", &self.guide_road, Ghost(entries), Ghost(7));
        encode_field::<GuideToll>(&mut v, "guideToll", &self.guide_toll, Ghost(entries), Ghost(8));
        encode_field::<GuideTollEtc>(
            &mut v,
            "guideTollEtc",
            &self.guide_toll_etc,
            Ghost(entries),
            Ghost(9),
        );
        encode_field::<ShapeIndex>(
            &mut v,
            "shapeIndexFirst",
            &self.shape_index_first,
            Ghost(entries),
            Ghost(10),
        );
        encode_field::<ShapeIndex>(
            &mut v,
            "shapeIndexLast",
            &self.shape_index_last,
            Ghost(entries),
            Ghost(11),
        );
        encode_field::<Vec<ShapeType>>(&mut v, "shape", &self.shape, Ghost(entries), Ghost(12));
        encode_field::<ShapeInfo>(&mut v, "shapeInfo", &self.shape_info, Ghost(entries), Ghost(13));
        encode_field::<Vec<ShapePoint>>(
            &mut v,
            "shapePoints",
            &self.shape_points,
            Ghost(entries),
            Ghost(14),
        );
        encode_field::<Vec<u32>>(&mut v, "order", &self.order, Ghost(entries), Ghost(15));
        v
    }

    proof fn lemma_rewrite(doc: Json) {
        let m = GuideInfo::read(doc);
        let entries = GuideInfo::entries(m);
        GuideInfo::lemma_keys(m);
        lemma_rewritten_field::<GuideDirection>(doc, "guideDirection"@);
        assert(member_of(doc, entries[0].0) == entries[0].1);
        lemma_rewritten_field::<u16>(doc, "roadType"@);
        assert(member_of(doc, entries[1].0) == entries[1].1);
        lemma_rewritten_field::<serde_json::Number>(doc, "distance"@);
        assert(member_of(doc, entries[2].0) == entries[2].1);
        lemma_rewritten_field::<serde_json::Number>(doc, "travelTime"@);
        assert(member_of(doc, entries[3].0) == entries[3].1);
        lemma_rewritten_field::<GuideDetail>(doc, "guideDetail"@);
        assert(member_of(doc, entries[4].0) == entries[4].1);
        lemma_rewritten_field::<GuideHighway>(doc, "guideHighway"@);
        assert(member_of(doc, entries[5].0) == entries[5].1);
        lemma_rewritten_field::<GuideCrossing>(doc, "guideCrossing"@);
        assert(member_of(doc, entries[6].0) == entries[6].1);
        lemma_rewritten_field::<GuideRoad>(doc, "guideRoad"@);
        assert(member_of(doc, entries[7].0) == entries[7].1);
        lemma_rewritten_field::<GuideToll>(doc, "guideToll"@);
        assert(member_of(doc, entries[8].0) == entries[8].1);
        lemma_rewritten_field::<GuideTollEtc>(doc, "guideTollEtc"@);
        assert(member_of(doc, entries[9].0) == entries[9].1);
        lemma_rewritten_field::<ShapeIndex>(doc, "shapeIndexFirst"@);
        assert(member_of(doc, entries[10].0) == entries[10].1);
        lemma_rewritten_field::<ShapeIndex>(doc, "shapeIndexLast"@);
        assert(member_of(doc, entries[11].0) == entries[11].1);
        lemma_rewritten_field::<Vec<ShapeType>>(doc, "shape"@);
        assert(member_of(doc, entries[12].0) == entries[12].1);
        lemma_rewritten_field::<ShapeInfo>(doc, "shapeInfo"@);
        assert(member_of(doc, entries[13].0) == entries[13].1);
        lemma_rewritten_field::<Vec<ShapePoint>>(doc, "shapePoints"@);
        assert(member_of(doc, entries[14].0) == entries[14].1);
        lemma_rewritten_field::<Vec<u32>>(doc, "order"@);
        assert(member_of(doc, entries[15].0) == entries[15].1);
        assert forall|key: Seq<char>| doc->Object_0.contains_key(key) implies exists|i: int|
            0 <= i < entries.len() && (#[trigger] entries[i]).0 == key by {
            if key == "guideDirection"@ {
                assert(entries[0].0 == key);
            } else if key == "roadType"@ {
                assert(entries[1].0 == key);
            } else if key == "distance"@ {
                assert(entries[2].0 == key);
            } else if key == "travelTime"@ {
                assert(entries[3].0 == key);
            } else if key == "guideDetail"@ {
                assert(entries[4].0 == key);
            } else if key == "guideHighway"@ {
                assert(entries[5].0 == key);
            } else if key == "guideCrossing"@ {
                assert(entries[6].0 == key);
            } else if key == "guideRoad"@ {
                assert(entries[7].0 == key);
            } else if key == "guideToll"@ {
                assert(entries[8].0 == key);
            } else if key == "guideTollEtc"@ {
                assert(entries[9].0 == key);
            } else if key == "shapeIndexFirst"@ {
                assert(entries[10].0 == key);
            } else if key == "shapeIndexLast"@ {
                assert(entries[11].0 == key);
            } else if key == "shape"@ {
                assert(entries[12].0 == key);
            } else if key == "shapeInfo"@ {
                assert(entries[13].0 == key);
            } else if key == "shapePoints"@ {
                assert(entries[14].0 == key);
            } else {
                assert(entries[15].0 == key);
            }
        }
        lemma_object_is(entries, doc->Object_0);
    }

    proof fn lemma_round_trip(m: GuideInfoModel) {
        GuideInfo::lemma_keys(m);
        let entries = GuideInfo::entries(m);
        lemma_written_field::<GuideDirection>(entries, 0, m.guide_direction);
        lemma_written_field::<u16>(entries, 1, m.road_type);
        lemma_written_field::<serde_json::Number>(entries, 2, m.distance);
        lemma_written_field::<serde_json::Number>(entries, 3, m.travel_time);
        lemma_written_field::<GuideDetail>(entries, 4, m.guide_detail);
        lemma_written_field::<GuideHighway>(entries, 5, m.guide_highway);
        lemma_written_field::<GuideCrossing>(entries, 6, m.guide_crossing);
        lemma_written_field::<GuideRoad>(entries, 7, m.guide_road);
        lemma_written_field::<GuideToll>(entries, 8, m.guide_toll);
        lemma_written_field::<GuideTollEtc>(entries, 9, m.guide_toll_etc);
        lemma_written_field::<ShapeIndex>(entries, 10, m.shape_index_first);
        lemma_written_field::<ShapeIndex>(entries, 11, m.shape_index_last);
        lemma_written_field::<Vec<ShapeType>>(entries, 12, m.shape);
        lemma_written_field::<ShapeInfo>(entries, 13, m.shape_info);
        lemma_written_field::<Vec<ShapePoint>>(entries, 14, m.shape_points);
        lemma_written_field::<Vec<u32>>(entries, 15, m.order);
    }
}

impl GuideInfo {
    /// The fields of a value, each with its key and with what is written
    /// under it.
    pub open spec fn entries(m: GuideInfoModel) -> Seq<Entry> {
        seq![
            ("guideDirection"@, written::<GuideDirection>(m.guide_direction)),
            ("roadType"@, written::<u16>(m.road_type)),
            ("distance"@, written::<serde_json::Number>(m.distance)),
            ("travelTime"@, written::<serde_json::Number>(m.travel_time)),
            ("guideDetail"@, written::<GuideDetail>(m.guide_detail)),
            ("guideHighway"@, written::<GuideHighway>(m.guide_highway)),
            ("guideCrossing"@, written::<GuideCrossing>(m.guide_crossing)),
            ("guideRoad"@, written::<GuideRoad>(m.guide_road)),
            ("guideToll"@, written::<GuideToll>(m.guide_toll)),
            ("guideTollEtc"@, written::<GuideTollEtc>(m.guide_toll_etc)),
            ("shapeIndexFirst"@, written::<ShapeIndex>(m.shape_index_first)),
            ("shapeIndexLast"@, written::<ShapeIndex>(m.shape_index_last)),
            ("shape"@, written::<Vec<ShapeType>>(m.shape)),
            ("shapeInfo"@, written::<ShapeInfo>(m.shape_info)),
            ("shapePoints"@, written::<Vec<ShapePoint>>(m.shape_points)),
            ("order"@, written::<Vec<u32>>(m.order)),
        ]
    }

    /// Whether `key` is the key of a field.
    pub open spec fn knows(key: Seq<char>) -> bool {
        ||| key == "guideDirection"@
        ||| key == "roadType"@
        ||| key == "distance"@
        ||| key == "travelTime"@
        ||| key == "guideDetail"@
        ||| key == "guideHighway"@
        ||| key == "guideCrossing"@
        ||| key == "guideRoad"@
        ||| key == "guideToll"@
        ||| key == "guideTollEtc"@
        ||| key == "shapeIndexFirst"@
        ||| key == "shapeIndexLast"@
        ||| key == "shape"@
        ||| key == "shapeInfo"@
        ||| key == "shapePoints"@
        ||| key == "order"@
    }

    /// No two fields share a key.
    pub proof fn lemma_keys(m: GuideInfoModel)
        ensures
            distinct_entry_keys(GuideInfo::entries(m)),
    {
        reveal_strlit("guideDirection");
        assert("guideDirection"@ =~= seq![
            'g', 'u', 'i', 'd', 'e', 'D', 'i', 'r', 'e', 'c', 't', 'i', 'o', 'n',
        ]);
        reveal_strlit("roadType");
        assert("roadType"@ =~= seq!['r', 'o', 'a', 'd', 'T', 'y', 'p', 'e']);
        reveal_strlit("distance");
        assert("distance"@ =~= seq!['d', 'i', 's', 't', 'a', 'n', 'c', 'e']);
        reveal_strlit("travelTime");
        assert("travelTime"@ =~= seq!['t', 'r', 'a', 'v', 'e', 'l', 'T', 'i', 'm', 'e']);
        reveal_strlit("guideDetail");
        assert("guideDetail"@ =~= seq!['g', 'u', 'i', 'd', 'e', 'D', 'e', 't', 'a', 'i', 'l']);
        reveal_strlit("guideHighway");
        assert("guideHighway"@ =~= seq![
            'g', 'u', 'i', 'd', 'e', 'H', 'i', 'g', 'h', 'w', 'a', 'y',
        ]);
        reveal_strlit("guideCrossing");
        assert("guideCrossing"@ =~= seq![
            'g', 'u', 'i', 'd', 'e', 'C', 'r', 'o', 's', 's', 'i', 'n', 'g',
        ]);
        reveal_strlit("guideRoad");
        assert("guideRoad"@ =~= seq!['g', 'u', 'i', 'd', 'e', 'R', 'o', 'a', 'd']);
        reveal_strlit("guideToll");
        assert("guideToll"@ =~= seq!['g', 'u', 'i', 'd', 'e', 'T', 'o', 'l', 'l']);
        reveal_strlit("guideTollEtc");
        assert("guideTollEtc"@ =~= seq![
            'g', 'u', 'i', 'd', 'e', 'T', 'o', 'l', 'l', 'E', 't', 'c',
        ]);
        reveal_strlit("shapeIndexFirst");
        assert("shapeIndexFirst"@ =~= seq![
            's', 'h', 'a', 'p', 'e', 'I', 'n', 'd', 'e', 'x', 'F', 'i', 'r', 's', 't',
        ]);
        reveal_strlit("shapeIndexLast");
        assert("shapeIndexLast"@ =~= seq![
            's', 'h', 'a', 'p', 'e', 'I', 'n', 'd', 'e', 'x', 'L', 'a', 's', 't',
        ]);
        reveal_strlit("shape");
        assert("shape"@ =~= seq!['s', 'h', 'a', 'p', 'e']);
        reveal_strlit("shapeInfo");
        assert("shapeInfo"@ =~= seq!['s', 'h', 'a', 'p', 'e', 'I', 'n', 'f', 'o']);
        reveal_strlit("shapePoints");
        assert("shapePoints"@ =~= seq!['s', 'h', 'a', 'p', 'e', 'P', 'o', 'i', 'n', 't', 's']);
        reveal_strlit("order");
        assert("order"@ =~= seq!['o', 'r', 'd', 'e', 'r']);
    }
}

/// One step of the turn-by-turn description of a route.
#[derive(Debug, PartialEq)]
pub struct Guide {
    /// What the entry marks.
    pub type_: Option<GuideType>,
    /// The points of the entry.
    pub guide_points: Option<Vec<Point>>,
    /// What is said at the entry.
    pub guide_info: Option<GuideInfo>,
}

/// The mathematical value of a [`Guide`].
pub ghost struct GuideModel {
    pub type_: Option<GuideType>,
    pub guide_points: Option<Seq<PointModel>>,
    pub guide_info: Option<GuideInfoModel>,
}

impl Schema for Guide {
    type Model = GuideModel;

    open spec fn model(&self) -> GuideModel {
        GuideModel {
            type_: optional_model(self.type_),
            guide_points: optional_model(self.guide_points),
            guide_info: optional_model(self.guide_info),
        }
    }

    open spec fn accepts(doc: Json) -> bool {
        &&& doc is Object
        &&& accepts_field::<GuideType>(doc, "type"@)
        &&& accepts_field::<Vec<Point>>(doc, "guidePoints"@)
        &&& accepts_field::<GuideInfo>(doc, "guideInfo"@)
    }

    open spec fn read(doc: Json) -> GuideModel {
        GuideModel {
            type_: read_field::<GuideType>(doc, "type"@),
            guide_points: read_field::<Vec<Point>>(doc, "guidePoints"@),
            guide_info: read_field::<GuideInfo>(doc, "guideInfo"@),
        }
    }

    open spec fn write(m: GuideModel) -> Json {
        object_of(Guide::entries(m))
    }

    open spec fn exact(doc: Json) -> bool {
        &&& forall|key: Seq<char>|
            #[trigger] doc->Object_0.contains_key(key) ==> {
                &&& Guide::knows(key)
                &&& !(doc->Object_0[key] is Null)
            }
        &&& exact_field::<GuideType>(doc, "type"@)
        &&& exact_field::<Vec<Point>>(doc, "guidePoints"@)
        &&& exact_field::<GuideInfo>(doc, "guideInfo"@)
    }

    fn decode(v: &serde_json::Value) -> (r: Result<Guide, Mismatch>) {
        if !is_object(v) {
            return Err(Mismatch);
        }
        let type_ = decode_field::<GuideType>(v, "type")?;
        let guide_points = decode_field::<Vec<Point>>(v, "guidePoints")?;
        let guide_info = decode_field::<GuideInfo>(v, "guideInfo")?;
        Ok(Guide { type_, guide_points, guide_info })
    }

    fn encode(&self) -> (v: serde_json::Value) {
        let ghost entries = Guide::entries(self.model());
        let mut v = empty_object();
        encode_field::<GuideType>(&mut v, "type", &self.type_, Ghost(entries), Ghost(0));
        encode_field::<Vec<Point>>(
            &mut v,
            "guidePoints",
            &self.guide_points,
            Ghost(entries),
            Ghost(1),
        );
        encode_field::<GuideInfo>(&mut v, "guideInfo", &self.guide_info, Ghost(entries), Ghost(2));
        v
    }

    proof fn lemma_rewrite(doc: Json) {
        let m = Guide::read(doc);
        let entries = Guide::entries(m);
        Guide::lemma_keys(m);
        lemma_rewritten_field::<GuideType>(doc, "type"@);
        assert(member_of(doc, entries[0].0) == entries[0].1);
        lemma_rewritten_field::<Vec<Point>>(doc, "guidePoints"@);
        assert(member_of(doc, entries[1].0) == entries[1].1);
        lemma_rewritten_field::<GuideInfo>(doc, "guideInfo"@);
        assert(member_of(doc, entries[2].0) == entries[2].1);
        assert forall|key: Seq<char>| doc->Object_0.contains_key(key) implies exists|i: int|
            0 <= i < entries.len() && (#[trigger] entries[i]).0 == key by {
            if key == "type"@ {
                assert(entries[0].0 == key);
            } else if key == "guidePoints"@ {
                assert(entries[1].0 == key);
            } else {
                assert(entries[2].0 == key);
            }
        }
        lemma_object_is(entries, doc->Object_0);
    }

    proof fn lemma_round_trip(m: GuideModel) {
        Guide::lemma_keys(m);
        let entries = Guide::entries(m);
        lemma_written_field::<GuideType>(entries, 0, m.type_);
        lemma_written_field::<Vec<Point>>(entries, 1, m.guide_points);
        lemma_written_field::<GuideInfo>(entries, 2, m.guide_info);
    }
}

impl Guide {
    /// The fields of a value, each with its key and with what is written
    /// under it.
    pub open spec fn entries(m: GuideModel) -> Seq<Entry> {
        seq![
            ("type"@, written::<GuideType>(m.type_)),
            ("guidePoints"@, written::<Vec<Point>>(m.guide_points)),
            ("guideInfo"@, written::<GuideInfo>(m.guide_info)),
        ]
    }

    /// Whether `key` is the key of a field.
    pub open spec fn knows(key: Seq<char>) -> bool {
        ||| key == "type"@
        ||| key == "guidePoints"@
        ||| key == "guideInfo"@
    }

    /// No two fields share a key.
    pub proof fn lemma_keys(m: GuideModel)
        ensures
            distinct_entry_keys(Guide::entries(m)),
    {
        reveal_strlit("type");
        assert("type"@ =~= seq!['t', 'y', 'p', 'e']);
        reveal_strlit("guidePoints");
        assert("guidePoints"@ =~= seq!['g', 'u', 'i', 'd', 'e', 'P', 'o', 'i', 'n', 't', 's']);
        reveal_strlit("guideInfo");
        assert("guideInfo"@ =~= seq!['g', 'u', 'i', 'd', 'e', 'I', 'n', 'f', 'o']);
    }
}

} // verus!
