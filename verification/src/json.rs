//! JSON documents as plain values.
//!
//! `serde_json` reads the text. What it read is then laid out as a [`Json`], which the rest of the
//! library works on.

use vstd::prelude::*;
use vstd::string::*;

use crate::double::{stands_for, whole};

verus! {

/// A JSON value.
#[derive(Debug)]
pub enum Json {
    Null,
    Bool(bool),
    /// A number, as an unsigned integer where it is one, and as the bits of the nearest double.
    Number { unsigned: Option<u64>, double: Option<u64> },
    Text(String),
    List(Vec<Json>),
    /// The members of an object, each key once.
    Record(Vec<(String, Json)>),
}

/// What a JSON value holds.
pub enum JsonView {
    Null,
    Bool(bool),
    Number { unsigned: Option<u64>, double: Option<u64> },
    Text(Seq<char>),
    List(Seq<JsonView>),
    Record(Seq<(Seq<char>, JsonView)>),
}

impl Json {
    pub open spec fn view(&self) -> JsonView
        decreases self,
    {
        match *self {
            Json::Null => JsonView::Null,
            Json::Bool(b) => JsonView::Bool(b),
            Json::Number { unsigned, double } => JsonView::Number { unsigned, double },
            Json::Text(s) => JsonView::Text(s@),
            Json::List(items) => JsonView::List(
                Seq::new(
                    items@.len(),
                    |i: int|
                        if 0 <= i < items@.len() {
                            items@[i].view()
                        } else {
                            JsonView::Null
                        },
                ),
            ),
            Json::Record(entries) => JsonView::Record(
                Seq::new(
                    entries@.len(),
                    |i: int|
                        if 0 <= i < entries@.len() {
                            (entries@[i].0@, entries@[i].1.view())
                        } else {
                            (Seq::empty(), JsonView::Null)
                        },
                ),
            ),
        }
    }
}

/// The value that the first entry under `key` has.
pub open spec fn lookup(entries: Seq<(Seq<char>, JsonView)>, key: Seq<char>) -> Option<JsonView>
    decreases entries.len(),
{
    if entries.len() == 0 {
        None
    } else if entries[0].0 == key {
        Some(entries[0].1)
    } else {
        lookup(entries.drop_first(), key)
    }
}

/// The two forms of a number agree: an unsigned integer has a double, which is that integer exactly
/// below two to the power of 53 and not less than that power from there on.
pub open spec fn forms_agree(unsigned: Option<u64>, double: Option<u64>) -> bool {
    match (unsigned, double) {
        (Some(n), Some(bits)) => if n < 0x20_0000_0000_0000 {
            stands_for(bits, n as int)
        } else {
            stands_for(bits, whole(bits)) && whole(bits) >= 0x20_0000_0000_0000
        },
        (Some(_), None) => false,
        (None, _) => true,
    }
}

/// No key occurs twice.
pub open spec fn keys_differ(entries: Seq<(Seq<char>, JsonView)>) -> bool {
    forall|i: int, j: int|
        0 <= i < j < entries.len() ==> (#[trigger] entries[i]).0 != (#[trigger] entries[j]).0
}

impl JsonView {
    /// No object in the value has a key twice, and the two forms of each number agree.
    pub open spec fn well_formed(self) -> bool
        decreases self,
    {
        match self {
            JsonView::Number { unsigned, double } => forms_agree(unsigned, double),
            JsonView::List(items) => forall|i: int|
                0 <= i < items.len() ==> (#[trigger] items[i]).well_formed(),
            JsonView::Record(entries) => {
                &&& keys_differ(entries)
                &&& forall|i: int|
                    0 <= i < entries.len() ==> (#[trigger] entries[i]).1.well_formed()
            },
            _ => true,
        }
    }

    /// The member `key` of an object.
    pub open spec fn member(self, key: Seq<char>) -> Option<JsonView> {
        match self {
            JsonView::Record(entries) => lookup(entries, key),
            _ => None,
        }
    }

    /// Element `i` of an array.
    pub open spec fn element(self, i: int) -> Option<JsonView> {
        match self {
            JsonView::List(items) => if 0 <= i < items.len() {
                Some(items[i])
            } else {
                None
            },
            _ => None,
        }
    }

    pub open spec fn text(self) -> Option<Seq<char>> {
        match self {
            JsonView::Text(s) => Some(s),
            _ => None,
        }
    }

    pub open spec fn unsigned(self) -> Option<u64> {
        match self {
            JsonView::Number { unsigned, .. } => unsigned,
            _ => None,
        }
    }

    pub open spec fn double(self) -> Option<u64> {
        match self {
            JsonView::Number { double, .. } => double,
            _ => None,
        }
    }
}

/// An optional reference to a value, by view.
pub open spec fn json_option(value: Option<&Json>) -> Option<JsonView> {
    match value {
        Some(json) => Some(json@),
        None => None,
    }
}

impl Json {
    /// The member `key` of an object.
    pub fn member(&self, key: &str) -> (r: Option<&Json>)
        ensures
            json_option(r) == self@.member(key@),
    {
        match self {
            Json::Record(entries) => {
                let wanted = key.to_owned();
                let ghost all = self@->Record_0;
                let mut i: usize = 0;
                assert(all.skip(0) == all);
                while i < entries.len()
                    invariant
                        i <= entries@.len(),
                        all.len() == entries@.len(),
                        wanted@ == key@,
                        self@ == JsonView::Record(all),
                        forall|j: int|
                            0 <= j < entries@.len() ==> #[trigger] all[j] == (
                                entries@[j].0@,
                                entries@[j].1@,
                            ),
                        lookup(all, key@) == lookup(all.skip(i as int), key@),
                    decreases entries@.len() - i,
                {
                    assert(all.skip(i as int)[0] == all[i as int]);
                    assert(all.skip(i as int).drop_first() == all.skip(i + 1));
                    if entries[i].0 == wanted {
                        return Some(&entries[i].1);
                    }
                    i += 1;
                }
                None
            },
            _ => None,
        }
    }

    /// Element `i` of an array.
    pub fn element(&self, i: u64) -> (r: Option<&Json>)
        ensures
            json_option(r) == self@.element(i as int),
    {
        match self {
            Json::List(items) => if i < items.len() as u64 {
                Some(&items[i as usize])
            } else {
                None
            },
            _ => None,
        }
    }

    pub fn as_unsigned(&self) -> (r: Option<u64>)
        ensures
            r == self@.unsigned(),
    {
        match self {
            Json::Number { unsigned, .. } => *unsigned,
            _ => None,
        }
    }

    pub fn as_double(&self) -> (r: Option<u64>)
        ensures
            r == self@.double(),
    {
        match self {
            Json::Number { double, .. } => *double,
            _ => None,
        }
    }

    pub fn as_text(&self) -> (r: Option<&String>)
        ensures
            match r {
                Some(s) => self@.text() == Some(s@),
                None => self@.text() is None,
            },
    {
        match self {
            Json::Text(s) => Some(s),
            _ => None,
        }
    }
}

/// `serde_json::Value`, a document as `serde_json` holds it.
#[verifier::external_type_specification]
#[verifier::external_body]
pub struct ExValue(serde_json::Value);

/// `serde_json::Error`, the reason why a text is no document.
#[verifier::external_type_specification]
#[verifier::external_body]
pub struct ExError(serde_json::Error);

/// What a `serde_json::Value` holds.
pub uninterp spec fn held(value: serde_json::Value) -> JsonView;

/// The text that a `serde_json::Error` displays.
pub uninterp spec fn displayed(error: serde_json::Error) -> Seq<char>;

/// The document that `serde_json::from_str` reads from a text, or what its error displays.
pub uninterp spec fn document(text: Seq<char>) -> Result<JsonView, Seq<char>>;

/// One level of a `serde_json::Value`.
enum Level<'a> {
    Null,
    Bool(bool),
    Number(Option<u64>, Option<u64>),
    Text(&'a String),
    List(&'a Vec<serde_json::Value>),
    Record(Vec<(&'a String, &'a serde_json::Value)>),
}

spec fn level_view(level: Level<'_>) -> JsonView {
    match level {
        Level::Null => JsonView::Null,
        Level::Bool(b) => JsonView::Bool(b),
        Level::Number(unsigned, double) => JsonView::Number { unsigned, double },
        Level::Text(s) => JsonView::Text(s@),
        Level::List(items) => JsonView::List(items@.map_values(|v: serde_json::Value| held(v))),
        Level::Record(entries) => JsonView::Record(
            entries@.map_values(
                |e: (&String, &serde_json::Value)| (e.0@, held(*e.1)),
            ),
        ),
    }
}

/// `serde_json::from_str`. Its result is named [`document`]; for the same text it is always the
/// same.
#[verifier::external_body]
fn read_value(text: &str) -> (r: Result<serde_json::Value, serde_json::Error>)
    ensures
        match r {
            Ok(value) => document(text@) == Ok::<JsonView, Seq<char>>(held(value)),
            Err(error) => document(text@) == Err::<JsonView, Seq<char>>(displayed(error)),
        },
{
    serde_json::from_str(text)
}

/// The `Display` of a `serde_json::Error`.
#[verifier::external_body]
fn display(error: &serde_json::Error) -> (r: String)
    ensures
        r@ == displayed(*error),
{
    error.to_string()
}

/// The variants of `serde_json::Value`, with `Number::as_u64` and `Number::as_f64` of a number and
/// `Map::iter` of an object. The double of an unsigned integer is the integer cast, so it is exact
/// below two to the power of 53 and no smaller than that from there on. The members of an object come in the order that the map holds
/// them in, and no key comes twice.
#[verifier::external_body]
fn level<'a>(value: &'a serde_json::Value) -> (r: Level<'a>)
    ensures
        held(*value) == level_view(r),
        r matches Level::Number(unsigned, double) ==> forms_agree(unsigned, double),
        r matches Level::Record(entries) ==> forall|i: int, j: int|
            0 <= i < j < entries@.len() ==> (#[trigger] entries@[i]).0@ != (
            #[trigger] entries@[j]).0@,
{
    match value {
        serde_json::Value::Null => Level::Null,
        serde_json::Value::Bool(b) => Level::Bool(*b),
        serde_json::Value::Number(n) => {
            Level::Number(n.as_u64(), n.as_f64().map(|d| d.to_bits()))
        },
        serde_json::Value::String(s) => Level::Text(s),
        serde_json::Value::Array(items) => Level::List(items),
        serde_json::Value::Object(members) => Level::Record(members.iter().collect()),
    }
}

/// `value` as plain values.
fn lay_out(value: &serde_json::Value) -> (json: Json)
    ensures
        json@ == held(*value),
        json@.well_formed(),
    decreases held(*value),
{
    match level(value) {
        Level::Null => Json::Null,
        Level::Bool(b) => Json::Bool(b),
        Level::Number(unsigned, double) => Json::Number { unsigned, double },
        Level::Text(s) => Json::Text(s.clone()),
        Level::List(values) => {
            let ghost all = held(*value)->List_0;
            let mut items: Vec<Json> = Vec::new();
            let mut i: usize = 0;
            while i < values.len()
                invariant
                    i <= values@.len(),
                    items@.len() == i,
                    held(*value) == JsonView::List(all),
                    all == values@.map_values(|v: serde_json::Value| held(v)),
                    forall|j: int| 0 <= j < i ==> (#[trigger] items@[j])@ == all[j],
                    forall|j: int| 0 <= j < i ==> (#[trigger] all[j]).well_formed(),
                decreases values@.len() - i,
            {
                assert(all[i as int] == held(values@[i as int]));
                assert(decreases_to!(held(*value) => held(*value)->List_0));
                assert(decreases_to!(held(*value)->List_0 => held(*value)->List_0[i as int]));
                items.push(lay_out(&values[i]));
                i += 1;
            }
            let json = Json::List(items);
            assert(json@->List_0 == all);
            json
        },
        Level::Record(members) => {
            let ghost all = held(*value)->Record_0;
            let mut entries: Vec<(String, Json)> = Vec::new();
            let mut i: usize = 0;
            while i < members.len()
                invariant
                    i <= members@.len(),
                    entries@.len() == i,
                    held(*value) == JsonView::Record(all),
                    all == members@.map_values(
                        |e: (&String, &serde_json::Value)| (e.0@, held(*e.1)),
                    ),
                    forall|j: int|
                        0 <= j < i ==> all[j] == (
                            (#[trigger] entries@[j]).0@,
                            entries@[j].1@,
                        ),
                    forall|j: int| 0 <= j < i ==> (#[trigger] all[j]).1.well_formed(),
                decreases members@.len() - i,
            {
                assert(all[i as int] == (members@[i as int].0@, held(*members@[i as int].1)));
                assert(decreases_to!(held(*value) => held(*value)->Record_0));
                assert(decreases_to!(held(*value)->Record_0 => held(*value)->Record_0[i as int]));
                assert(decreases_to!(all[i as int] => all[i as int].1));
                entries.push((members[i].0.clone(), lay_out(members[i].1)));
                i += 1;
            }
            let json = Json::Record(entries);
            assert(json@->Record_0 == all);
            assert forall|i: int, j: int| 0 <= i < j < all.len() implies (#[trigger] all[i]).0 != (
            #[trigger] all[j]).0 by {
                assert(all[i].0 == members@[i].0@);
                assert(all[j].0 == members@[j].0@);
            }
            json
        },
    }
}

/// Read a document; where the text is none, say why.
pub fn parse(text: &str) -> (r: Result<Json, String>)
    ensures
        match r {
            Ok(json) => document(text@) == Ok::<JsonView, Seq<char>>(json@) && json@.well_formed(),
            Err(cause) => document(text@) == Err::<JsonView, Seq<char>>(cause@),
        },
{
    match read_value(text) {
        Ok(value) => Ok(lay_out(&value)),
        Err(error) => Err(display(&error)),
    }
}

/// A member is found by its key, wherever it stands in the object.
pub proof fn law_members_are_found_by_their_keys(
    entries: Seq<(Seq<char>, JsonView)>,
    key: Seq<char>,
    i: int,
)
    requires
        keys_differ(entries),
    ensures
        0 <= i < entries.len() && entries[i].0 == key ==> JsonView::Record(entries).member(key)
            == Some(entries[i].1),
        (forall|j: int| 0 <= j < entries.len() ==> (#[trigger] entries[j]).0 != key)
            ==> JsonView::Record(entries).member(key) is None,
    decreases entries.len(),
{
    if entries.len() > 0 {
        let rest = entries.drop_first();
        assert forall|a: int, b: int| 0 <= a < b < rest.len() implies (#[trigger] rest[a]).0 != (
        #[trigger] rest[b]).0 by {
            assert(rest[a] == entries[a + 1] && rest[b] == entries[b + 1]);
        }
        law_members_are_found_by_their_keys(rest, key, i - 1);
        if 0 < i < entries.len() {
            assert(rest[i - 1] == entries[i]);
            assert(entries[0].0 != entries[i].0);
        }
        if forall|j: int| 0 <= j < entries.len() ==> (#[trigger] entries[j]).0 != key {
            assert forall|j: int| 0 <= j < rest.len() implies (#[trigger] rest[j]).0 != key by {
                assert(rest[j] == entries[j + 1]);
            }
        }
    }
}

/// Only an object has members, and only an array has elements, each under its number.
pub proof fn law_elements_are_found_by_their_number(value: JsonView, key: Seq<char>, i: int)
    ensures
        !(value is Record) ==> value.member(key) is None,
        value matches JsonView::List(items) ==> value.element(i) == if 0 <= i < items.len() {
            Some(items[i])
        } else {
            None
        },
        !(value is List) ==> value.element(i) is None,
{
}

/// The model of a value has its parts, each in its place.
pub proof fn law_values_are_modelled_as_held(
    items: Vec<Json>,
    entries: Vec<(String, Json)>,
    text: String,
    unsigned: Option<u64>,
    double: Option<u64>,
    i: int,
)
    ensures
        Json::Null@ is Null,
        (Json::Number { unsigned, double })@ == (JsonView::Number { unsigned, double }),
        Json::Text(text)@ == JsonView::Text(text@),
        Json::List(items)@ matches JsonView::List(all) && all.len() == items@.len() && (0 <= i
            < items@.len() ==> all[i] == items@[i]@),
        Json::Record(entries)@ matches JsonView::Record(all) && all.len() == entries@.len() && (0
            <= i < entries@.len() ==> all[i] == (entries@[i].0@, entries@[i].1@)),
        // What a value is asked for is what it holds.
        (JsonView::Number { unsigned, double }).unsigned() == unsigned,
        (JsonView::Number { unsigned, double }).double() == double,
        JsonView::Text(text@).text() == Some(text@),
        JsonView::Text(text@).unsigned() is None && JsonView::Text(text@).double() is None,
        (JsonView::Number { unsigned, double }).text() is None,
{
}

} // verus!
