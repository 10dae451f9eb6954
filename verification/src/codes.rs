//! The enumerations of a route request, each with the number that the
//! service knows it by.

use crate::json::integer_text;
use vstd::pervasive::unreached;
use crate::text::{decimal, signed_decimal};
use vstd::prelude::*;

verus! {

/// A value that can stand on the right-hand side of a query parameter.
pub trait QueryValue {
    /// The text that the value is written as.
    spec fn query_text(&self) -> Seq<char>;

    /// Writes the value as text.
    fn to_query_text(&self) -> (text: String)
        ensures
            text@ == self.query_text(),
    ;
}

/// A switch that is either off or on.
#[derive(Clone, Copy, Debug, PartialEq, Eq, Structural)]
pub enum OnOff {
    Off,
    On,
}

/// What the route search prefers.
#[derive(Clone, Copy, Debug, PartialEq, Eq, Structural)]
pub enum Priority {
    Normal,
    DistanceFirst,
    StraightFirst,
    SimpleWalker,
    RoadWidthFirst,
    NormalWalker,
    WalkerDistanceFirst,
    WalkerRoofFirst,
    WalkerLessSteps,
}

/// How toll roads are treated.
#[derive(Clone, Copy, Debug, PartialEq, Eq, Structural)]
pub enum Tollway {
    Normal,
    Priority,
    Avoid,
    Never,
}

/// How ferries are treated.
#[derive(Clone, Copy, Debug, PartialEq, Eq, Structural)]
pub enum Ferry {
    Normal,
    Priority,
    Avoid,
    Never,
}

/// The toll class of the car.
#[derive(Clone, Copy, Debug, PartialEq, Eq, Structural)]
pub enum CarType {
    /// Light car.
    Small,
    /// Ordinary car.
    Normal,
    /// Medium-sized car.
    Middle,
    /// Large car.
    Big,
    /// Extra-large car.
    SuperBig,
}

/// The class of vehicle that road regulations are applied for.
#[derive(Clone, Copy, Debug, PartialEq, Eq, Structural)]
pub enum VehicleType {
    /// No class of large vehicle.
    Unclassified,
    /// Large passenger vehicle.
    Big,
    /// Large freight vehicle.
    BigCargo,
    /// Large special-purpose vehicle.
    BigSpecial,
}

/// The format that the answer is asked in.
#[derive(Clone, Copy, Debug, PartialEq, Eq, Structural)]
pub enum OutputFormat {
    Json,
    Xml,
}

impl OnOff {
    /// The number that the service knows the switch position by.
    pub open spec fn spec_code(self) -> u8 {
        match self {
            OnOff::Off => 0,
            OnOff::On => 1,
        }
    }

    /// The number that the service knows the switch position by.
    #[verifier::when_used_as_spec(spec_code)]
    pub fn code(self) -> (c: u8)
        ensures
            c == self.spec_code(),
    {
        match self {
            OnOff::Off => 0,
            OnOff::On => 1,
        }
    }
}

impl Priority {
    /// The number that the service knows the preference by.
    pub open spec fn spec_code(self) -> u16 {
        match self {
            Priority::Normal => 0,
            Priority::DistanceFirst => 1,
            Priority::StraightFirst => 2,
            Priority::SimpleWalker => 3,
            Priority::RoadWidthFirst => 4,
            Priority::NormalWalker => 100,
            Priority::WalkerDistanceFirst => 101,
            Priority::WalkerRoofFirst => 102,
            Priority::WalkerLessSteps => 103,
        }
    }

    /// The number that the service knows the preference by.
    #[verifier::when_used_as_spec(spec_code)]
    pub fn code(self) -> (c: u16)
        ensures
            c == self.spec_code(),
    {
        match self {
            Priority::Normal => 0,
            Priority::DistanceFirst => 1,
            Priority::StraightFirst => 2,
            Priority::SimpleWalker => 3,
            Priority::RoadWidthFirst => 4,
            Priority::NormalWalker => 100,
            Priority::WalkerDistanceFirst => 101,
            Priority::WalkerRoofFirst => 102,
            Priority::WalkerLessSteps => 103,
        }
    }
}

impl Tollway {
    /// The number that the service knows the treatment by.
    pub open spec fn spec_code(self) -> u8 {
        match self {
            Tollway::Normal => 0,
            Tollway::Priority => 1,
            Tollway::Avoid => 2,
            Tollway::Never => 3,
        }
    }

    /// The number that the service knows the treatment by.
    #[verifier::when_used_as_spec(spec_code)]
    pub fn code(self) -> (c: u8)
        ensures
            c == self.spec_code(),
    {
        match self {
            Tollway::Normal => 0,
            Tollway::Priority => 1,
            Tollway::Avoid => 2,
            Tollway::Never => 3,
        }
    }
}

impl Ferry {
    /// The number that the service knows the treatment by.
    pub open spec fn spec_code(self) -> u8 {
        match self {
            Ferry::Normal => 0,
            Ferry::Priority => 1,
            Ferry::Avoid => 2,
            Ferry::Never => 3,
        }
    }

    /// The number that the service knows the treatment by.
    #[verifier::when_used_as_spec(spec_code)]
    pub fn code(self) -> (c: u8)
        ensures
            c == self.spec_code(),
    {
        match self {
            Ferry::Normal => 0,
            Ferry::Priority => 1,
            Ferry::Avoid => 2,
            Ferry::Never => 3,
        }
    }
}

impl CarType {
    /// The number that the service knows the toll class by.
    pub open spec fn spec_code(self) -> u8 {
        match self {
            CarType::Small => 0,
            CarType::Normal => 1,
            CarType::Middle => 2,
            CarType::Big => 3,
            CarType::SuperBig => 4,
        }
    }

    /// The number that the service knows the toll class by.
    #[verifier::when_used_as_spec(spec_code)]
    pub fn code(self) -> (c: u8)
        ensures
            c == self.spec_code(),
    {
        match self {
            CarType::Small => 0,
            CarType::Normal => 1,
            CarType::Middle => 2,
            CarType::Big => 3,
            CarType::SuperBig => 4,
        }
    }
}

impl VehicleType {
    /// The number that the service knows the vehicle class by.
    pub open spec fn spec_code(self) -> u8 {
        match self {
            VehicleType::Unclassified => 0,
            VehicleType::Big => 1,
            VehicleType::BigCargo => 2,
            VehicleType::BigSpecial => 11,
        }
    }

    /// The number that the service knows the vehicle class by.
    #[verifier::when_used_as_spec(spec_code)]
    pub fn code(self) -> (c: u8)
        ensures
            c == self.spec_code(),
    {
        match self {
            VehicleType::Unclassified => 0,
            VehicleType::Big => 1,
            VehicleType::BigCargo => 2,
            VehicleType::BigSpecial => 11,
        }
    }
}

impl OutputFormat {
    /// The word that the service knows the format by.
    pub open spec fn spec_name(self) -> Seq<char> {
        match self {
            OutputFormat::Json => "json"@,
            OutputFormat::Xml => "xml"@,
        }
    }

    /// The word that the service knows the format by.
    pub fn name(self) -> (word: &'static str)
        ensures
            word@ == self.spec_name(),
    {
        match self {
            OutputFormat::Json => "json",
            OutputFormat::Xml => "xml",
        }
    }
}

impl QueryValue for String {
    open spec fn query_text(&self) -> Seq<char> {
        self@
    }

    fn to_query_text(&self) -> (text: String) {
        self.clone()
    }
}

impl QueryValue for u8 {
    open spec fn query_text(&self) -> Seq<char> {
        decimal(*self as nat)
    }

    fn to_query_text(&self) -> (text: String) {
        decimal_text(*self as i64)
    }
}

impl QueryValue for i16 {
    open spec fn query_text(&self) -> Seq<char> {
        signed_decimal(*self as int)
    }

    fn to_query_text(&self) -> (text: String) {
        decimal_text(*self as i64)
    }
}

impl QueryValue for i32 {
    open spec fn query_text(&self) -> Seq<char> {
        signed_decimal(*self as int)
    }

    fn to_query_text(&self) -> (text: String) {
        decimal_text(*self as i64)
    }
}

impl QueryValue for OnOff {
    open spec fn query_text(&self) -> Seq<char> {
        decimal(self.spec_code() as nat)
    }

    fn to_query_text(&self) -> (text: String) {
        decimal_text(self.code() as i64)
    }
}

impl QueryValue for Priority {
    open spec fn query_text(&self) -> Seq<char> {
        decimal(self.spec_code() as nat)
    }

    fn to_query_text(&self) -> (text: String) {
        decimal_text(self.code() as i64)
    }
}

impl QueryValue for Tollway {
    open spec fn query_text(&self) -> Seq<char> {
        decimal(self.spec_code() as nat)
    }

    fn to_query_text(&self) -> (text: String) {
        decimal_text(self.code() as i64)
    }
}

impl QueryValue for Ferry {
    open spec fn query_text(&self) -> Seq<char> {
        decimal(self.spec_code() as nat)
    }

    fn to_query_text(&self) -> (text: String) {
        decimal_text(self.code() as i64)
    }
}

impl QueryValue for CarType {
    open spec fn query_text(&self) -> Seq<char> {
        decimal(self.spec_code() as nat)
    }

    fn to_query_text(&self) -> (text: String) {
        decimal_text(self.code() as i64)
    }
}

impl QueryValue for VehicleType {
    open spec fn query_text(&self) -> Seq<char> {
        decimal(self.spec_code() as nat)
    }

    fn to_query_text(&self) -> (text: String) {
        decimal_text(self.code() as i64)
    }
}

impl QueryValue for OutputFormat {
    open spec fn query_text(&self) -> Seq<char> {
        self.spec_name()
    }

    fn to_query_text(&self) -> (text: String) {
        self.name().to_string()
    }
}

/// An integer in decimal notation.
fn decimal_text(n: i64) -> (text: String)
    ensures
        text@ == signed_decimal(n as int),
{
    match integer_text(n) {
        Ok(text) => text,
        Err(_) => unreached(),
    }
}

/// The text of a value that may be missing.
pub open spec fn optional_text<T: QueryValue>(value: Option<T>) -> Option<Seq<char>> {
    match value {
        Some(v) => Some(v.query_text()),
        None => None,
    }
}

/// Writes a value that may be missing as text.
pub fn show_optional<T: QueryValue>(value: &Option<T>) -> (text: Option<String>)
    ensures
        text.deep_view() == optional_text(*value),
{
    match value {
        Some(v) => Some(v.to_query_text()),
        None => None,
    }
}

} // verus!
