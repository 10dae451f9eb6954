//! How the values of a route result are read from a JSON document and
//! written back into one.
//!
//! Every type that occurs in a route result implements [`Schema`]: it says
//! which documents it accepts, what it reads from an accepted document, and
//! what it writes. Reading what was written gives the value back.

use crate::json::{
    array_value, as_elements, as_number, as_signed, as_text, as_unsigned, insert_member, is_null,
    member, member_of, number_model, number_value, signed_of, signed_value, text_value,
    unsigned_of, unsigned_value, value_model, value_models, Json, Numeral,
};
use vstd::prelude::*;

verus! {

/// A document of a shape that the reader does not accept.
#[derive(Clone, Copy, Debug, PartialEq, Eq, Structural)]
pub struct Mismatch;

/// A type with a JSON form.
pub trait Schema: Sized {
    /// The mathematical value that a value of the type stands for.
    type Model;

    /// The mathematical value of `self`.
    spec fn model(&self) -> Self::Model;

    /// Whether a document has the shape of this type.
    spec fn accepts(doc: Json) -> bool;

    /// The value that an accepted document holds.
    spec fn read(doc: Json) -> Self::Model;

    /// The document that a value is written as.
    spec fn write(m: Self::Model) -> Json;

    /// Whether a document holds nothing that reading passes over: no member
    /// under a key that the type does not know, and no member that is
    /// `null`.
    spec fn exact(doc: Json) -> bool;

    /// Reads a value from a document. The document is refused exactly where
    /// it has another shape than the type.
    fn decode(v: &serde_json::Value) -> (r: Result<Self, Mismatch>)
        ensures
            match r {
                Ok(x) => Self::accepts(value_model(*v)) && x.model() == Self::read(
                    value_model(*v),
                ),
                Err(_) => !Self::accepts(value_model(*v)),
            },
    ;

    /// Writes the value as a document.
    fn encode(&self) -> (v: serde_json::Value)
        ensures
            value_model(v) == Self::write(self.model()),
    ;

    /// What is written is accepted and reads as the value that was written.
    /// Nothing is written as `null`.
    proof fn lemma_round_trip(m: Self::Model)
        ensures
            Self::accepts(Self::write(m)),
            Self::read(Self::write(m)) == m,
            !(Self::write(m) is Null),
    ;

    /// An accepted document that holds nothing that reading passes over is
    /// written back exactly as it was read.
    proof fn lemma_rewrite(doc: Json)
        requires
            Self::accepts(doc),
            Self::exact(doc),
        ensures
            Self::write(Self::read(doc)) == doc,
    ;
}

impl Schema for String {
    type Model = Seq<char>;

    open spec fn model(&self) -> Seq<char> {
        self@
    }

    open spec fn accepts(doc: Json) -> bool {
        doc is Text
    }

    open spec fn read(doc: Json) -> Seq<char> {
        doc->Text_0
    }

    open spec fn write(m: Seq<char>) -> Json {
        Json::Text(m)
    }

    open spec fn exact(doc: Json) -> bool {
        true
    }

    fn decode(v: &serde_json::Value) -> (r: Result<String, Mismatch>) {
        match as_text(v) {
            Some(s) => Ok(s.to_string()),
            None => Err(Mismatch),
        }
    }

    fn encode(&self) -> (v: serde_json::Value) {
        text_value(self.as_str())
    }

    proof fn lemma_round_trip(m: Seq<char>) {
    }

    proof fn lemma_rewrite(doc: Json) {
    }
}

impl Schema for serde_json::Number {
    type Model = Numeral;

    open spec fn model(&self) -> Numeral {
        number_model(*self)
    }

    open spec fn accepts(doc: Json) -> bool {
        doc is Number
    }

    open spec fn read(doc: Json) -> Numeral {
        doc->Number_0
    }

    open spec fn write(m: Numeral) -> Json {
        Json::Number(m)
    }

    open spec fn exact(doc: Json) -> bool {
        true
    }

    fn decode(v: &serde_json::Value) -> (r: Result<serde_json::Number, Mismatch>) {
        match as_number(v) {
            Some(n) => Ok(n),
            None => Err(Mismatch),
        }
    }

    fn encode(&self) -> (v: serde_json::Value) {
        number_value(self)
    }

    proof fn lemma_round_trip(m: Numeral) {
    }

    proof fn lemma_rewrite(doc: Json) {
    }
}

impl Schema for u8 {
    type Model = u8;

    open spec fn model(&self) -> u8 {
        *self
    }

    open spec fn accepts(doc: Json) -> bool {
        unsigned_of(doc) matches Some(n) && n <= u8::MAX
    }

    open spec fn read(doc: Json) -> u8 {
        unsigned_of(doc)->0 as u8
    }

    open spec fn write(m: u8) -> Json {
        Json::Number(Numeral::Integer(m as int))
    }

    open spec fn exact(doc: Json) -> bool {
        true
    }

    fn decode(v: &serde_json::Value) -> (r: Result<u8, Mismatch>) {
        match as_unsigned(v) {
            Some(n) => if n <= 0xff {
                Ok(n as u8)
            } else {
                Err(Mismatch)
            },
            None => Err(Mismatch),
        }
    }

    fn encode(&self) -> (v: serde_json::Value) {
        unsigned_value(*self as u64)
    }

    proof fn lemma_round_trip(m: u8) {
    }

    proof fn lemma_rewrite(doc: Json) {
    }
}

impl Schema for u16 {
    type Model = u16;

    open spec fn model(&self) -> u16 {
        *self
    }

    open spec fn accepts(doc: Json) -> bool {
        unsigned_of(doc) matches Some(n) && n <= u16::MAX
    }

    open spec fn read(doc: Json) -> u16 {
        unsigned_of(doc)->0 as u16
    }

    open spec fn write(m: u16) -> Json {
        Json::Number(Numeral::Integer(m as int))
    }

    open spec fn exact(doc: Json) -> bool {
        true
    }

    fn decode(v: &serde_json::Value) -> (r: Result<u16, Mismatch>) {
        match as_unsigned(v) {
            Some(n) => if n <= 0xffff {
                Ok(n as u16)
            } else {
                Err(Mismatch)
            },
            None => Err(Mismatch),
        }
    }

    fn encode(&self) -> (v: serde_json::Value) {
        unsigned_value(*self as u64)
    }

    proof fn lemma_round_trip(m: u16) {
    }

    proof fn lemma_rewrite(doc: Json) {
    }
}

impl Schema for u32 {
    type Model = u32;

    open spec fn model(&self) -> u32 {
        *self
    }

    open spec fn accepts(doc: Json) -> bool {
        unsigned_of(doc) matches Some(n) && n <= u32::MAX
    }

    open spec fn read(doc: Json) -> u32 {
        unsigned_of(doc)->0 as u32
    }

    open spec fn write(m: u32) -> Json {
        Json::Number(Numeral::Integer(m as int))
    }

    open spec fn exact(doc: Json) -> bool {
        true
    }

    fn decode(v: &serde_json::Value) -> (r: Result<u32, Mismatch>) {
        match as_unsigned(v) {
            Some(n) => if n <= 0xffff_ffff {
                Ok(n as u32)
            } else {
                Err(Mismatch)
            },
            None => Err(Mismatch),
        }
    }

    fn encode(&self) -> (v: serde_json::Value) {
        unsigned_value(*self as u64)
    }

    proof fn lemma_round_trip(m: u32) {
    }

    proof fn lemma_rewrite(doc: Json) {
    }
}

impl Schema for i64 {
    type Model = i64;

    open spec fn model(&self) -> i64 {
        *self
    }

    open spec fn accepts(doc: Json) -> bool {
        signed_of(doc) is Some
    }

    open spec fn read(doc: Json) -> i64 {
        signed_of(doc)->0
    }

    open spec fn write(m: i64) -> Json {
        Json::Number(Numeral::Integer(m as int))
    }

    open spec fn exact(doc: Json) -> bool {
        true
    }

    fn decode(v: &serde_json::Value) -> (r: Result<i64, Mismatch>) {
        match as_signed(v) {
            Some(i) => Ok(i),
            None => Err(Mismatch),
        }
    }

    fn encode(&self) -> (v: serde_json::Value) {
        signed_value(*self)
    }

    proof fn lemma_round_trip(m: i64) {
    }

    proof fn lemma_rewrite(doc: Json) {
    }
}

impl<T: Schema> Schema for Vec<T> {
    type Model = Seq<T::Model>;

    open spec fn model(&self) -> Seq<T::Model> {
        self@.map_values(|x: T| x.model())
    }

    open spec fn accepts(doc: Json) -> bool {
        &&& doc is Array
        &&& forall|i: int| 0 <= i < doc->Array_0.len() ==> T::accepts(#[trigger] doc->Array_0[i])
    }

    open spec fn read(doc: Json) -> Seq<T::Model> {
        doc->Array_0.map_values(|d: Json| T::read(d))
    }

    open spec fn write(m: Seq<T::Model>) -> Json {
        Json::Array(m.map_values(|x: T::Model| T::write(x)))
    }

    open spec fn exact(doc: Json) -> bool {
        forall|i: int| 0 <= i < doc->Array_0.len() ==> T::exact(#[trigger] doc->Array_0[i])
    }

    fn decode(v: &serde_json::Value) -> (r: Result<Vec<T>, Mismatch>) {
        let items = match as_elements(v) {
            Some(items) => items,
            None => {
                return Err(Mismatch);
            },
        };
        let ghost docs = value_models(items@);
        let mut out: Vec<T> = Vec::new();
        let mut i: usize = 0;
        while i < items.len()
            invariant
                i <= items.len(),
                docs == value_models(items@),
                value_model(*v) == Json::Array(docs),
                out@.len() == i,
                forall|k: int| 0 <= k < i ==> T::accepts(#[trigger] docs[k]),
                forall|k: int| 0 <= k < i ==> (#[trigger] out@[k]).model() == T::read(docs[k]),
            decreases items.len() - i,
        {
            assert(docs[i as int] == value_model(items@[i as int]));
            match T::decode(&items[i]) {
                Ok(x) => {
                    out.push(x);
                },
                Err(e) => {
                    assert(!T::accepts(value_model(*v)->Array_0[i as int]));
                    return Err(e);
                },
            }
            i += 1;
        }
        assert(out.model() =~= Self::read(value_model(*v)));
        Ok(out)
    }

    fn encode(&self) -> (v: serde_json::Value) {
        let mut items: Vec<serde_json::Value> = Vec::new();
        let mut i: usize = 0;
        while i < self.len()
            invariant
                i <= self.len(),
                items@.len() == i,
                forall|k: int|
                    0 <= k < i ==> value_model(#[trigger] items@[k]) == T::write(self@[k].model()),
            decreases self.len() - i,
        {
            items.push(self[i].encode());
            i += 1;
        }
        assert(value_models(items@) =~= self.model().map_values(|x: T::Model| T::write(x)));
        array_value(items)
    }

    proof fn lemma_rewrite(doc: Json) {
        let items = doc->Array_0;
        let back = Self::write(Self::read(doc))->Array_0;
        assert forall|i: int| 0 <= i < items.len() implies back[i] == items[i] by {
            T::lemma_rewrite(items[i]);
        }
        assert(back =~= items);
    }

    proof fn lemma_round_trip(m: Seq<T::Model>) {
        let doc = Self::write(m);
        assert forall|i: int| 0 <= i < doc->Array_0.len() implies T::accepts(
            #[trigger] doc->Array_0[i],
        ) by {
            T::lemma_round_trip(m[i]);
        }
        assert forall|i: int| 0 <= i < m.len() implies Self::read(doc)[i] == m[i] by {
            T::lemma_round_trip(m[i]);
        }
        assert(Self::read(doc) =~= m);
    }
}

/// The member of an object under `key`, unless it is missing or `null`.
pub open spec fn field(doc: Json, key: Seq<char>) -> Option<Json> {
    match member_of(doc, key) {
        Some(m) => if m is Null {
            None
        } else {
            Some(m)
        },
        None => None,
    }
}

/// Whether the field under `key` is missing, `null`, or of the shape of `T`.
pub open spec fn accepts_field<T: Schema>(doc: Json, key: Seq<char>) -> bool {
    match field(doc, key) {
        Some(d) => T::accepts(d),
        None => true,
    }
}

/// The value of the field under `key`; `None` where it is missing or `null`.
pub open spec fn read_field<T: Schema>(doc: Json, key: Seq<char>) -> Option<T::Model> {
    match field(doc, key) {
        Some(d) => Some(T::read(d)),
        None => None,
    }
}

/// Whether the field under `key`, where it is there, holds nothing that
/// reading passes over.
pub open spec fn exact_field<T: Schema>(doc: Json, key: Seq<char>) -> bool {
    match field(doc, key) {
        Some(d) => T::exact(d),
        None => true,
    }
}

/// A key of an object and the member that is written under it, if any.
pub type Entry = (Seq<char>, Option<Json>);

/// The document that a value is written as, where there is a value.
pub open spec fn written<T: Schema>(value: Option<T::Model>) -> Option<Json> {
    match value {
        Some(m) => Some(T::write(m)),
        None => None,
    }
}

/// The members of an object after an entry is written into it: a member
/// that is there goes under its key, one that is missing leaves the members
/// as they are.
pub open spec fn put(members: Map<Seq<char>, Json>, entry: Entry) -> Map<Seq<char>, Json> {
    match entry.1 {
        Some(d) => members.insert(entry.0, d),
        None => members,
    }
}

/// The members of the object that the first `n` entries are written as.
pub open spec fn object_upto(entries: Seq<Entry>, n: int) -> Map<Seq<char>, Json>
    decreases n,
{
    if n <= 0 {
        Map::<Seq<char>, Json>::empty()
    } else {
        put(object_upto(entries, n - 1), entries[n - 1])
    }
}

/// The object that entries are written as: it has a member for each entry
/// that holds one, and no other.
pub open spec fn object_of(entries: Seq<Entry>) -> Json {
    Json::Object(object_upto(entries, entries.len() as int))
}

/// Whether no key occurs twice among entries.
pub open spec fn distinct_entry_keys(entries: Seq<Entry>) -> bool {
    forall|i: int, j: int|
        0 <= i < j < entries.len() ==> (#[trigger] entries[i]).0 != (#[trigger] entries[j]).0
}

/// The mathematical value of a value that may be missing.
pub open spec fn optional_model<T: Schema>(value: Option<T>) -> Option<T::Model> {
    match value {
        Some(x) => Some(x.model()),
        None => None,
    }
}

/// Reads the field under `key` of an object.
pub fn decode_field<T: Schema>(obj: &serde_json::Value, key: &str) -> (r: Result<
    Option<T>,
    Mismatch,
>)
    ensures
        match r {
            Ok(x) => accepts_field::<T>(value_model(*obj), key@) && optional_model(x)
                == read_field::<T>(value_model(*obj), key@),
            Err(_) => !accepts_field::<T>(value_model(*obj), key@),
        },
{
    match member(obj, key) {
        None => Ok(None),
        Some(m) => {
            if is_null(m) {
                Ok(None)
            } else {
                Ok(Some(T::decode(m)?))
            }
        },
    }
}

/// Writes the `k`-th entry of an object that holds the entries before it.
pub(crate) fn encode_field<T: Schema>(
    obj: &mut serde_json::Value,
    key: &str,
    value: &Option<T>,
    Ghost(entries): Ghost<Seq<Entry>>,
    Ghost(k): Ghost<int>,
)
    requires
        0 <= k < entries.len(),
        entries[k] == (key@, written::<T>(optional_model(*value))),
        value_model(*old(obj)) == Json::Object(object_upto(entries, k)),
    ensures
        value_model(*final(obj)) == Json::Object(object_upto(entries, k + 1)),
{
    match value {
        Some(x) => {
            let member = x.encode();
            insert_member(obj, key, member);
        },
        None => {},
    }
}

/// The object of the first `n` entries holds nothing under a key that none
/// of them has.
pub proof fn lemma_object_member_absent(entries: Seq<Entry>, n: int, key: Seq<char>)
    requires
        0 <= n <= entries.len(),
        forall|i: int| 0 <= i < n ==> (#[trigger] entries[i]).0 != key,
    ensures
        member_of(Json::Object(object_upto(entries, n)), key) is None,
    decreases n,
{
    if n > 0 {
        lemma_object_member_absent(entries, n - 1, key);
        assert(entries[n - 1].0 != key);
    }
}

/// Among entries with distinct keys, the object of the first `n` holds under
/// the key of each of them exactly what that entry holds.
pub proof fn lemma_object_member(entries: Seq<Entry>, n: int, i: int)
    requires
        distinct_entry_keys(entries),
        0 <= i < n <= entries.len(),
    ensures
        member_of(Json::Object(object_upto(entries, n)), entries[i].0) == entries[i].1,
    decreases n,
{
    if i == n - 1 {
        assert forall|j: int| 0 <= j < n - 1 implies (#[trigger] entries[j]).0 != entries[i].0 by {}
        lemma_object_member_absent(entries, n - 1, entries[i].0);
    } else {
        lemma_object_member(entries, n - 1, i);
        assert(entries[i].0 != entries[n - 1].0);
    }
}

/// A field that was written reads as the value that was written.
pub proof fn lemma_written_field<T: Schema>(entries: Seq<Entry>, i: int, value: Option<T::Model>)
    requires
        distinct_entry_keys(entries),
        0 <= i < entries.len(),
        entries[i].1 == written::<T>(value),
    ensures
        accepts_field::<T>(object_of(entries), entries[i].0),
        read_field::<T>(object_of(entries), entries[i].0) == value,
{
    lemma_object_member(entries, entries.len() as int, i);
    if value is Some {
        T::lemma_round_trip(value->0);
    }
}

/// A field that was read is written as it stood, if it held nothing that
/// reading passes over.
pub proof fn lemma_rewritten_field<T: Schema>(doc: Json, key: Seq<char>)
    requires
        accepts_field::<T>(doc, key),
        exact_field::<T>(doc, key),
    ensures
        written::<T>(read_field::<T>(doc, key)) == field(doc, key),
{
    if field(doc, key) is Some {
        T::lemma_rewrite(field(doc, key)->0);
    }
}

/// Entries with distinct keys are written as the object that holds under
/// the key of each entry what the entry holds, and that has no other key.
pub proof fn lemma_object_is(entries: Seq<Entry>, members: Map<Seq<char>, Json>)
    requires
        distinct_entry_keys(entries),
        forall|i: int|
            0 <= i < entries.len() ==> member_of(Json::Object(members), (#[trigger] entries[i]).0)
                == entries[i].1,
        forall|key: Seq<char>|
            members.contains_key(key) ==> exists|i: int|
                0 <= i < entries.len() && (#[trigger] entries[i]).0 == key,
    ensures
        object_of(entries) == Json::Object(members),
{
    let n = entries.len() as int;
    let made = object_upto(entries, n);
    assert forall|key: Seq<char>| made.contains_key(key) <==> members.contains_key(key) by {
        if exists|i: int| 0 <= i < entries.len() && (#[trigger] entries[i]).0 == key {
            let i = choose|i: int| 0 <= i < entries.len() && (#[trigger] entries[i]).0 == key;
            lemma_object_member(entries, n, i);
        } else {
            lemma_object_member_absent(entries, n, key);
        }
    }
    assert forall|key: Seq<char>| made.contains_key(key) implies made[key] == members[key] by {
        let i = choose|i: int| 0 <= i < entries.len() && (#[trigger] entries[i]).0 == key;
        lemma_object_member(entries, n, i);
    }
    assert(made =~= members);
}

} // verus!
