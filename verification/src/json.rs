//! JSON values as plain data, and JSON objects whose members are kept by
//! `serde_json`.

use vstd::prelude::*;

verus! {

// ---------------------------------------------------------------------------
// Values
// ---------------------------------------------------------------------------

/// A JSON value. Numbers come as the integer that they are where they fit an
/// `i64` or a `u64`, and otherwise as the bit pattern of the IEEE 754 double
/// that they stand for. Arrays and objects are never looked into: of them only
/// the text that describes them is kept.
#[derive(Debug, PartialEq)]
pub enum Json {
    Null,
    Bool(bool),
    Integer(i64),
    Unsigned(u64),
    Real(u64),
    Text(String),
    Composite(String),
}

/// What a [`Json`] stands for.
pub ghost enum JsonValue {
    Null,
    Bool(bool),
    Integer(int),
    Real(u64),
    Text(Seq<char>),
    Composite(Seq<char>),
}

impl View for Json {
    type V = JsonValue;

    open spec fn view(&self) -> JsonValue {
        match self {
            Json::Null => JsonValue::Null,
            Json::Bool(b) => JsonValue::Bool(*b),
            Json::Integer(n) => JsonValue::Integer(*n as int),
            Json::Unsigned(n) => JsonValue::Integer(*n as int),
            Json::Real(bits) => JsonValue::Real(*bits),
            Json::Text(s) => JsonValue::Text(s@),
            Json::Composite(s) => JsonValue::Composite(s@),
        }
    }
}

/// What the values of a sequence stand for.
pub open spec fn json_values(values: Seq<Json>) -> Seq<JsonValue> {
    values.map_values(|v: Json| v@)
}

impl Clone for Json {
    fn clone(&self) -> (copy: Json)
        ensures
            copy@ == self@,
    {
        match self {
            Json::Null => Json::Null,
            Json::Bool(b) => Json::Bool(*b),
            Json::Integer(n) => Json::Integer(*n),
            Json::Unsigned(n) => Json::Unsigned(*n),
            Json::Real(bits) => Json::Real(*bits),
            Json::Text(s) => Json::Text(s.clone()),
            Json::Composite(s) => Json::Composite(s.clone()),
        }
    }
}

/// Whether the double with this bit pattern is finite: its eleven exponent bits
/// are not all set.
pub open spec fn finite_bits(bits: u64) -> bool {
    (bits / 0x10_0000_0000_0000) % 0x800 != 0x7ff
}

/// The JSON form of the double with this bit pattern: JSON has none for an
/// infinity or a NaN, and `null` stands for those.
pub open spec fn real_value(bits: u64) -> JsonValue {
    if finite_bits(bits) {
        JsonValue::Real(bits)
    } else {
        JsonValue::Null
    }
}

/// The JSON form of the double with the bit pattern `bits`.
pub fn real_to_json(bits: u64) -> (value: Json)
    ensures
        value@ == real_value(bits),
{
    if (bits / 0x10_0000_0000_0000) % 0x800 != 0x7ff {
        Json::Real(bits)
    } else {
        Json::Null
    }
}

// ---------------------------------------------------------------------------
// Objects
// ---------------------------------------------------------------------------

/// `serde_json::Value`, opaque here.
#[verifier::external_type_specification]
#[verifier::external_body]
pub struct ExValue(serde_json::Value);

/// `serde_json::Map`, opaque here.
#[verifier::external_type_specification]
#[verifier::external_body]
#[verifier::reject_recursive_types(K)]
#[verifier::reject_recursive_types(V)]
pub struct ExMap<K, V>(serde_json::Map<K, V>);

/// The names that a `serde_json::Map` holds a value under, each with that value
/// where it is an unsigned integer.
pub uninterp spec fn numbers_by_name(
    map: serde_json::Map<String, serde_json::Value>,
) -> Map<Seq<char>, Option<u64>>;

/// `serde_json::Map::new`: the map that it makes holds nothing.
#[verifier::external_body]
fn map_new() -> (made: serde_json::Map<String, serde_json::Value>)
    ensures
        numbers_by_name(made) =~= Map::empty(),
{
    serde_json::Map::new()
}

/// `serde_json::Map::insert`: afterwards the map holds `number` under `name`,
/// whether or not it held a value under that name before, and all else as it
/// was.
#[verifier::external_body]
fn map_insert(map: &mut serde_json::Map<String, serde_json::Value>, name: String, number: u64)
    ensures
        numbers_by_name(*final(map)) == numbers_by_name(*old(map)).insert(name@, Some(number)),
{
    map.insert(name, serde_json::Value::from(number));
}

/// `serde_json::Map::get`, with the value read as an unsigned integer: the value
/// under `name`, or `None` where there is no value under that name.
#[verifier::external_body]
fn map_get(
    map: &serde_json::Map<String, serde_json::Value>,
    name: &str,
) -> (found: Option<Option<u64>>)
    ensures
        found == numbers_by_name(*map).get(name@),
{
    match map.get(name) {
        Some(value) => Some(value.as_u64()),
        None => None,
    }
}

/// `serde_json::Map::keys`: every name that the map holds a value under, once.
/// In which order they come is not stated: it depends on how `serde_json` was
/// built.
#[verifier::external_body]
fn map_names(map: &serde_json::Map<String, serde_json::Value>) -> (names: Vec<String>)
    ensures
        crate::text::texts(names@).no_duplicates(),
        crate::text::texts(names@).to_set() == numbers_by_name(*map).dom(),
{
    map.keys().cloned().collect()
}

/// A JSON object. Which names have a value is kept in a `serde_json::Map`, so
/// that the rule for a repeated name and the order in which members are written
/// are those of `serde_json`. It holds for each name the position of its value.
#[derive(Debug)]
pub struct JsonObject {
    positions: serde_json::Map<String, serde_json::Value>,
    values: Vec<Json>,
}

impl View for JsonObject {
    type V = Map<Seq<char>, JsonValue>;

    closed spec fn view(&self) -> Map<Seq<char>, JsonValue> {
        numbers_by_name(self.positions).map_values(
            |position: Option<u64>| self.values@[position->0 as int]@,
        )
    }
}

impl JsonObject {
    /// Every name has the position of a value.
    #[verifier::type_invariant]
    spec fn well_formed(&self) -> bool {
        forall|name: Seq<char>| #[trigger]
            numbers_by_name(self.positions).contains_key(name) ==> {
                &&& numbers_by_name(self.positions)[name] is Some
                &&& numbers_by_name(self.positions)[name]->0 < self.values.len()
            }
    }

    /// The object without members.
    pub fn new() -> (object: JsonObject)
        ensures
            object@ == Map::<Seq<char>, JsonValue>::empty(),
    {
        let object = JsonObject { positions: map_new(), values: Vec::new() };
        assert(object@ =~= Map::<Seq<char>, JsonValue>::empty());
        object
    }

    /// Sets the member `name` to `value`, in place of a value that it had.
    pub fn insert(&mut self, name: String, value: Json)
        ensures
            final(self)@ == old(self)@.insert(name@, value@),
    {
        proof {
            use_type_invariant(&*self);
        }
        let mut positions = map_new();
        std::mem::swap(&mut positions, &mut self.positions);
        let mut values: Vec<Json> = Vec::new();
        std::mem::swap(&mut values, &mut self.values);
        let position: usize = values.len();
        values.push(value);
        map_insert(&mut positions, name, position as u64);
        self.values = values;
        self.positions = positions;
        assert(self@ =~= old(self)@.insert(name@, value@));
    }

    /// The value of the member `name`.
    pub fn get(&self, name: &str) -> (value: Option<&Json>)
        ensures
            match value {
                Some(v) => self@.contains_key(name@) && v@ == self@[name@],
                None => !self@.contains_key(name@),
            },
    {
        proof {
            use_type_invariant(self);
        }
        match map_get(&self.positions, name) {
            Some(Some(position)) => Some(&self.values[position as usize]),
            _ => None,
        }
    }

    /// The members, each name once, in the order in which `serde_json` keeps them.
    pub fn members(&self) -> (members: Vec<(String, Json)>)
        ensures
            forall|i: int, j: int|
                0 <= i < j < members.len() ==> (#[trigger] members@[i]).0@ != (
                #[trigger] members@[j]).0@,
            forall|i: int|
                0 <= i < members.len() ==> {
                    &&& self@.contains_key((#[trigger] members@[i]).0@)
                    &&& self@[members@[i].0@] == members@[i].1@
                },
            forall|name: Seq<char>| #[trigger]
                self@.contains_key(name) ==> exists|i: int|
                    0 <= i < members.len() && (#[trigger] members@[i]).0@ == name,
    {
        let names = map_names(&self.positions);
        let mut members: Vec<(String, Json)> = Vec::new();
        for i in 0..names.len()
            invariant
                crate::text::texts(names@).no_duplicates(),
                crate::text::texts(names@).to_set() == self@.dom(),
                members.len() == i,
                forall|j: int| 0 <= j < i ==> {
                    &&& (#[trigger] members@[j]).0@ == names@[j]@
                    &&& self@.contains_key(members@[j].0@)
                    &&& self@[members@[j].0@] == members@[j].1@
                },
        {
            assert(crate::text::texts(names@)[i as int] == names@[i as int]@);
            assert(crate::text::texts(names@).contains(names@[i as int]@));
            assert(self@.dom().contains(names@[i as int]@));
            match self.get(names[i].as_str()) {
                Some(value) => {
                    members.push((names[i].clone(), value.clone()));
                },
                None => {
                    assert(false);
                },
            }
        }
        assert forall|name: Seq<char>| #[trigger] self@.contains_key(name) implies exists|i: int|
            0 <= i < members.len() && (#[trigger] members@[i]).0@ == name by {
            assert(crate::text::texts(names@).to_set().contains(name));
            let all = crate::text::texts(names@);
            let i = choose|i: int| 0 <= i < all.len() && all[i] == name;
            assert(members@[i].0@ == name);
        }
        assert forall|i: int, j: int| 0 <= i < j < members.len() implies (#[trigger] members@[i]).0@
            != (#[trigger] members@[j]).0@ by {
            assert(crate::text::texts(names@)[i] != crate::text::texts(names@)[j]);
        }
        members
    }
}

// ---------------------------------------------------------------------------
// Laws
// ---------------------------------------------------------------------------

/// The view of a value leaves nothing out.
pub proof fn law_view_of_a_value(value: Json)
    ensures
        match value {
            Json::Null => value@ == JsonValue::Null,
            Json::Bool(b) => value@ == JsonValue::Bool(b),
            Json::Integer(n) => value@ == JsonValue::Integer(n as int),
            Json::Unsigned(n) => value@ == JsonValue::Integer(n as int),
            Json::Real(bits) => value@ == JsonValue::Real(bits),
            Json::Text(s) => value@ == JsonValue::Text(s@),
            Json::Composite(s) => value@ == JsonValue::Composite(s@),
        },
{
}

/// Nor does that of several values.
pub proof fn law_view_of_values(values: Seq<Json>)
    ensures
        json_values(values).len() == values.len(),
        forall|i: int| 0 <= i < values.len() ==> #[trigger] json_values(values)[i] == values[i]@,
{
}

/// A double is finite unless all eleven bits of its exponent are set; a finite one
/// is kept bit for bit, and `null` stands for any other.
pub proof fn law_finite_doubles_are_kept(bits: u64)
    ensures
        (bits >> 52) & 0x7ff == 0x7ff <==> real_value(bits) == JsonValue::Null,
        (bits >> 52) & 0x7ff != 0x7ff ==> real_value(bits) == JsonValue::Real(bits),
        finite_bits(bits) <==> (bits >> 52) & 0x7ff != 0x7ff,
{
    assert((bits / 0x10_0000_0000_0000) % 0x800 == (bits >> 52) & 0x7ff) by (bit_vector);
}

/// An object has the value that was set last under a name, and no member that was
/// not set.
pub proof fn law_members_are_what_was_set(
    object: &mut JsonObject,
    name: String,
    value: Json,
    made: JsonObject,
)
    ensures
        call_ensures(JsonObject::new, (), made) ==> forall|other: Seq<char>|
            !#[trigger] made@.contains_key(other),
        call_ensures(JsonObject::insert, (object, name, value), ()) ==> {
            &&& final(object)@.contains_key(name@)
            &&& final(object)@[name@] == value@
            &&& forall|other: Seq<char>|
                other != name@ ==> (#[trigger] final(object)@.contains_key(other) == old(object)@.contains_key(other))
            &&& forall|other: Seq<char>|
                other != name@ && old(object)@.contains_key(other) ==> #[trigger] final(object)@[other] == old(object)@[other]
        },
{
}

/// What is read of an object is what it has, each name once.
pub proof fn law_members_are_read_back(
    object: JsonObject,
    name: &str,
    found: Option<&Json>,
    all: Vec<(String, Json)>,
    i: int,
    j: int,
)
    ensures
        call_ensures(JsonObject::get, (&object, name), found) ==> match found {
            Some(value) => object@.contains_key(name@) && object@[name@] == value@,
            None => !object@.contains_key(name@),
        },
        call_ensures(JsonObject::members, (&object,), all) && 0 <= i < all.len() ==> {
            &&& object@.contains_key(all@[i].0@)
            &&& object@[all@[i].0@] == all@[i].1@
        },
        call_ensures(JsonObject::members, (&object,), all) && 0 <= i < j < all.len() ==> all@[i].0@
            != all@[j].0@,
{
}

/// A real number is given as it is where JSON has a form for it, and a copy of a
/// value is that value.
pub proof fn law_values_are_given_as_they_are(bits: u64, value: Json, given: Json)
    ensures
        call_ensures(real_to_json, (bits,), given) ==> match given {
            Json::Real(b) => b == bits && (bits >> 52) & 0x7ff != 0x7ff,
            Json::Null => (bits >> 52) & 0x7ff == 0x7ff,
            _ => false,
        },
        call_ensures(Json::clone, (&value,), given) ==> given@ == value@,
{
    law_finite_doubles_are_kept(bits);
}

} // verus!
