//! JSON values.
//!
//! `Json` is the library's own tree; `JsonView` is what it stands for: objects are maps, so
//! neither the order of members nor a key that was set twice is visible. Text is turned into
//! trees and back by `serde_json`, whose values are opened and closed one level at a time.
use vstd::prelude::*;

use crate::text::{
    decimal, i128_text, non_blank, signed_decimal, text_eq, trim_non_blank, u64_text,
};

verus! {

/// What a JSON number stands for: an integer, or the text that `serde_json` writes for any other
/// number.
pub enum NumberView {
    Unsigned(u64),
    Negative(i64),
    Fraction(Seq<char>),
}

/// What a JSON value stands for.
pub enum JsonView {
    Null,
    Bool(bool),
    Number(NumberView),
    Text(Seq<char>),
    Array(Seq<JsonView>),
    Object(Map<Seq<char>, JsonView>),
}

/// A JSON number: an unsigned or a negative integer, or a number that is neither.
#[derive(Debug)]
pub enum JsonNumber {
    Unsigned(u64),
    Negative(i64),
    Fraction(serde_json::Number),
}

/// A JSON value.
#[derive(Debug)]
pub enum Json {
    Null,
    Bool(bool),
    Number(JsonNumber),
    Text(String),
    Array(Vec<Json>),
    Object(JsonObject),
}

/// A JSON object: members in the order in which they were added.
#[derive(Debug)]
pub struct JsonObject {
    entries: Vec<(String, Json)>,
}

impl JsonNumber {
    pub open spec fn view(&self) -> NumberView {
        match self {
            JsonNumber::Unsigned(n) => NumberView::Unsigned(*n),
            JsonNumber::Negative(n) => signed(*n),
            JsonNumber::Fraction(n) => number_view(*n),
        }
    }
}

impl View for Json {
    type V = JsonView;

    open spec fn view(&self) -> JsonView
        decreases self,
    {
        match self {
            Json::Null => JsonView::Null,
            Json::Bool(b) => JsonView::Bool(*b),
            Json::Number(n) => JsonView::Number(n.view()),
            Json::Text(s) => JsonView::Text(s@),
            Json::Array(items) => JsonView::Array(
                Seq::new(
                    items@.len(),
                    |i: int|
                        if 0 <= i < items@.len() {
                            items@[i].view()
                        } else {
                            JsonView::Null
                        },
                ),
            ),
            Json::Object(object) => JsonView::Object(object.view()),
        }
    }
}

impl DeepView for Json {
    type V = JsonView;

    open spec fn deep_view(&self) -> JsonView {
        self.view()
    }
}

impl JsonObject {
    pub closed spec fn view(&self) -> Map<Seq<char>, JsonView>
        decreases self,
    {
        entries_view(self.entries@)
    }
}

/// The members of an object, where a later member replaces an earlier one of the same key.
pub open spec fn entries_view(entries: Seq<(String, Json)>) -> Map<Seq<char>, JsonView>
    decreases entries,
{
    if entries.len() == 0 {
        Map::empty()
    } else {
        entries_view(entries.drop_last()).insert(entries.last().0@, entries.last().1.view())
    }
}

// Reading.

impl JsonView {
    /// The member `key`, where the value is an object that has one.
    pub open spec fn get(self, key: Seq<char>) -> Option<JsonView> {
        match self {
            JsonView::Object(members) => if members.dom().contains(key) {
                Some(members[key])
            } else {
                None
            },
            _ => None,
        }
    }

    pub open spec fn as_str(self) -> Option<Seq<char>> {
        match self {
            JsonView::Text(s) => Some(s),
            _ => None,
        }
    }

    pub open spec fn as_bool(self) -> Option<bool> {
        match self {
            JsonView::Bool(b) => Some(b),
            _ => None,
        }
    }

    pub open spec fn as_u64(self) -> Option<u64> {
        match self {
            JsonView::Number(NumberView::Unsigned(n)) => Some(n),
            _ => None,
        }
    }

    pub open spec fn as_i64(self) -> Option<i64> {
        match self {
            JsonView::Number(NumberView::Unsigned(n)) => if n <= i64::MAX {
                Some(n as i64)
            } else {
                None
            },
            JsonView::Number(NumberView::Negative(n)) => Some(n),
            _ => None,
        }
    }

    pub open spec fn as_array(self) -> Option<Seq<JsonView>> {
        match self {
            JsonView::Array(items) => Some(items),
            _ => None,
        }
    }

    /// The text of the member `key`, where there is one.
    pub open spec fn get_str(self, key: Seq<char>) -> Option<Seq<char>> {
        match self.get(key) {
            Some(value) => value.as_str(),
            None => None,
        }
    }

    /// The member `key` of the member `outer`.
    pub open spec fn get2(self, outer: Seq<char>, key: Seq<char>) -> Option<JsonView> {
        match self.get(outer) {
            Some(value) => value.get(key),
            None => None,
        }
    }

    pub open spec fn get_bool(self, key: Seq<char>) -> Option<bool> {
        match self.get(key) {
            Some(value) => value.as_bool(),
            None => None,
        }
    }

    pub open spec fn get_u64(self, key: Seq<char>) -> Option<u64> {
        match self.get(key) {
            Some(value) => value.as_u64(),
            None => None,
        }
    }

    pub open spec fn get_i64(self, key: Seq<char>) -> Option<i64> {
        match self.get(key) {
            Some(value) => value.as_i64(),
            None => None,
        }
    }

    /// The trimmed text of the member `key`, where it is a text that is not blank.
    pub open spec fn read(self, key: Seq<char>) -> Option<Seq<char>> {
        read_text(self.get(key))
    }

    /// The trimmed text of the member `key` of the member `outer`, where it is not blank.
    pub open spec fn read2(self, outer: Seq<char>, key: Seq<char>) -> Option<Seq<char>> {
        read_text(self.get2(outer, key))
    }

    /// `read`, or nothing.
    pub open spec fn read_or_empty(self, key: Seq<char>) -> Seq<char> {
        or_empty(self.read(key))
    }
}

/// The trimmed text of a value that is a text and not blank.
pub open spec fn read_text(value: Option<JsonView>) -> Option<Seq<char>> {
    match value {
        Some(v) => non_blank(v.as_str()),
        None => None,
    }
}

/// The first of two texts, where there is one, else the second.
pub open spec fn or_else<T>(first: Option<T>, second: Option<T>) -> Option<T> {
    match first {
        Some(_) => first,
        None => second,
    }
}

pub open spec fn or_empty(s: Option<Seq<char>>) -> Seq<char> {
    match s {
        Some(t) => t,
        None => Seq::empty(),
    }
}

/// A text, or null where there is none.
pub open spec fn opt_text(s: Option<Seq<char>>) -> JsonView {
    match s {
        Some(t) => JsonView::Text(t),
        None => JsonView::Null,
    }
}

/// The texts as a JSON array.
pub open spec fn text_array(texts: Seq<Seq<char>>) -> JsonView {
    JsonView::Array(Seq::new(texts.len(), |i: int| JsonView::Text(texts[i])))
}

/// The number view of a signed integer.
pub open spec fn signed(n: i64) -> NumberView {
    if n < 0 {
        NumberView::Negative(n)
    } else {
        NumberView::Unsigned(n as u64)
    }
}

/// The text of a number.
pub open spec fn number_digits(n: NumberView) -> Seq<char> {
    match n {
        NumberView::Unsigned(n) => decimal(n as nat),
        NumberView::Negative(n) => signed_decimal(n as int),
        NumberView::Fraction(text) => text,
    }
}

pub open spec fn number(n: u64) -> JsonView {
    JsonView::Number(NumberView::Unsigned(n))
}

impl Json {
    pub fn get(&self, key: &str) -> (r: Option<&Json>)
        ensures
            r.deep_view() == self@.get(key@),
    {
        match self {
            Json::Object(object) => object.get(key),
            _ => None,
        }
    }

    pub fn as_str(&self) -> (r: Option<&str>)
        ensures
            r.deep_view() == self@.as_str(),
    {
        match self {
            Json::Text(s) => Some(s.as_str()),
            _ => None,
        }
    }

    pub fn as_bool(&self) -> (r: Option<bool>)
        ensures
            r == self@.as_bool(),
    {
        match self {
            Json::Bool(b) => Some(*b),
            _ => None,
        }
    }

    pub fn as_u64(&self) -> (r: Option<u64>)
        ensures
            r == self@.as_u64(),
    {
        match self {
            Json::Number(n) => n.as_u64(),
            _ => None,
        }
    }

    pub fn as_i64(&self) -> (r: Option<i64>)
        ensures
            r == self@.as_i64(),
    {
        match self {
            Json::Number(n) => n.as_i64(),
            _ => None,
        }
    }

    pub fn as_array(&self) -> (r: Option<&Vec<Json>>)
        ensures
            match r {
                Some(items) => self@ == JsonView::Array(items.deep_view()),
                None => self@.as_array() is None,
            },
    {
        match self {
            Json::Array(items) => {
                proof {
                    lemma_array_view(*items);
                }
                Some(items)
            },
            _ => None,
        }
    }

    pub fn is_object(&self) -> (r: bool)
        ensures
            r == (self@ is Object),
    {
        match self {
            Json::Object(_) => true,
            _ => false,
        }
    }

    pub fn get_str(&self, key: &str) -> (r: Option<&str>)
        ensures
            r.deep_view() == self@.get_str(key@),
    {
        match self.get(key) {
            Some(value) => value.as_str(),
            None => None,
        }
    }

    pub fn get2(&self, outer: &str, key: &str) -> (r: Option<&Json>)
        ensures
            r.deep_view() == self@.get2(outer@, key@),
    {
        match self.get(outer) {
            Some(value) => value.get(key),
            None => None,
        }
    }

    pub fn get_bool(&self, key: &str) -> (r: Option<bool>)
        ensures
            r == self@.get_bool(key@),
    {
        match self.get(key) {
            Some(value) => value.as_bool(),
            None => None,
        }
    }

    pub fn get_u64(&self, key: &str) -> (r: Option<u64>)
        ensures
            r == self@.get_u64(key@),
    {
        match self.get(key) {
            Some(value) => value.as_u64(),
            None => None,
        }
    }

    pub fn get_i64(&self, key: &str) -> (r: Option<i64>)
        ensures
            r == self@.get_i64(key@),
    {
        match self.get(key) {
            Some(value) => value.as_i64(),
            None => None,
        }
    }

    pub fn read(&self, key: &str) -> (r: Option<String>)
        ensures
            r.deep_view() == self@.read(key@),
    {
        read_string(self.get(key))
    }

    pub fn read2(&self, outer: &str, key: &str) -> (r: Option<String>)
        ensures
            r.deep_view() == self@.read2(outer@, key@),
    {
        read_string(self.get2(outer, key))
    }

    pub fn read_or_empty(&self, key: &str) -> (r: String)
        ensures
            r@ == self@.read_or_empty(key@),
    {
        match self.read(key) {
            Some(s) => s,
            None => String::new(),
        }
    }
}

/// The trimmed text of a value that is a text and not blank.
pub fn read_string(value: Option<&Json>) -> (r: Option<String>)
    ensures
        r.deep_view() == read_text(value.deep_view()),
{
    match value {
        Some(v) => match v.as_str() {
            Some(s) => trim_non_blank(s),
            None => None,
        },
        None => None,
    }
}

/// An array stands for the values of its items.
pub proof fn lemma_array_view(items: Vec<Json>)
    ensures
        Json::Array(items)@ == JsonView::Array(items.deep_view()),
{
    reveal_with_fuel(<Json as View>::view, 2);
    assert(Json::Array(items)@->Array_0 =~= items.deep_view());
}

/// An object stands for its members.
pub proof fn lemma_object_view(object: JsonObject)
    ensures
        Json::Object(object)@ == JsonView::Object(object.view()),
{
    reveal_with_fuel(<Json as View>::view, 2);
}

proof fn lemma_entries_view(object: JsonObject)
    ensures
        object.view() == entries_view(object.entries@),
{
    reveal_with_fuel(JsonObject::view, 2);
}

proof fn lemma_entries_last(entries: Seq<(String, Json)>, last: (String, Json))
    ensures
        entries_view(entries.push(last)) == entries_view(entries).insert(last.0@, last.1@),
{
    reveal_with_fuel(entries_view, 2);
    assert(entries.push(last).drop_last() =~= entries);
}

// Building.

impl JsonObject {
    pub fn new() -> (r: JsonObject)
        ensures
            r.view() == Map::<Seq<char>, JsonView>::empty(),
    {
        JsonObject { entries: Vec::new() }
    }

    pub fn get(&self, key: &str) -> (r: Option<&Json>)
        ensures
            r.deep_view() == JsonView::Object(self.view()).get(key@),
    {
        let mut i: usize = self.entries.len();
        assert(self.entries@.take(i as int) == self.entries@);
        while i > 0
            invariant
                i <= self.entries@.len(),
                JsonView::Object(entries_view(self.entries@.take(i as int))).get(key@)
                    == JsonView::Object(self.view()).get(key@),
            decreases i,
        {
            proof {
                lemma_entries_last(self.entries@.take(i - 1), self.entries@[i - 1]);
                assert(self.entries@.take(i as int) =~= self.entries@.take(i - 1).push(
                    self.entries@[i - 1],
                ));
            }
            if text_eq(self.entries[i - 1].0.as_str(), key) {
                return Some(&self.entries[i - 1].1);
            }
            i = i - 1;
        }
        None
    }

    /// Sets the member `key`.
    pub fn insert(&mut self, key: &str, value: Json)
        ensures
            final(self).view() == old(self).view().insert(key@, value@),
    {
        self.remove(key);
        let entry = (key.to_owned(), value);
        proof {
            lemma_entries_last(self.entries@, entry);
        }
        self.entries.push(entry);
        proof {
            assert(old(self).view().remove(key@).insert(key@, value@) =~= old(self).view().insert(
                key@,
                value@,
            ));
        }
    }

    /// Takes the member `key` out.
    pub fn remove(&mut self, key: &str) -> (r: Option<Json>)
        ensures
            final(self).view() == old(self).view().remove(key@),
            r.deep_view() == JsonView::Object(old(self).view()).get(key@),
    {
        let mut kept: Vec<(String, Json)> = Vec::new();
        let mut found: Option<Json> = None;
        let mut rest: Vec<(String, Json)> = Vec::new();
        std::mem::swap(&mut rest, &mut self.entries);
        let ghost all = rest@;
        let mut back: Vec<(String, Json)> = Vec::new();
        while rest.len() > 0
            invariant
                rest@.len() + back@.len() == all.len(),
                rest@ == all.take(rest@.len() as int),
                forall|j: int|
                    0 <= j < back@.len() ==> #[trigger] back@[j] == all[all.len() - 1 - j],
            decreases rest@.len(),
        {
            match rest.pop() {
                Some(entry) => {
                    back.push(entry);
                },
                None => {},
            }
        }
        let mut done: Ghost<int> = Ghost(0);
        assert(all.take(0) == Seq::<(String, Json)>::empty());
        assert(Map::<Seq<char>, JsonView>::empty().remove(key@) =~= Map::<
            Seq<char>,
            JsonView,
        >::empty());
        while back.len() > 0
            invariant
                done@ + back@.len() == all.len(),
                done@ >= 0,
                forall|j: int|
                    0 <= j < back@.len() ==> #[trigger] back@[j] == all[all.len() - 1 - j],
                entries_view(kept@) =~= entries_view(all.take(done@)).remove(key@),
                found.deep_view() == JsonView::Object(entries_view(all.take(done@))).get(key@),
            decreases back@.len(),
        {
            match back.pop() {
                Some(entry) => {
                    proof {
                        assert(entry == all[done@]);
                        assert(all.take(done@ + 1) =~= all.take(done@).push(all[done@]));
                        lemma_entries_last(all.take(done@), all[done@]);
                        lemma_entries_last(kept@, entry);
                    }
                    if text_eq(entry.0.as_str(), key) {
                        found = Some(entry.1);
                    } else {
                        kept.push(entry);
                    }
                },
                None => {},
            }
            proof {
                done@ = done@ + 1;
            }
        }
        assert(all.take(all.len() as int) == all);
        self.entries = kept;
        found
    }
}

impl Json {
    pub fn text(s: &str) -> (r: Json)
        ensures
            r@ == JsonView::Text(s@),
    {
        Json::Text(s.to_owned())
    }

    pub fn unsigned(n: u64) -> (r: Json)
        ensures
            r@ == number(n),
    {
        Json::Number(JsonNumber::Unsigned(n))
    }

    /// A text, or null where there is none.
    pub fn opt_text(s: &Option<String>) -> (r: Json)
        ensures
            r@ == opt_text(s.deep_view()),
    {
        match s {
            Some(t) => Json::text(t.as_str()),
            None => Json::Null,
        }
    }

    /// A text, or null where there is none.
    pub fn opt_str(s: Option<&str>) -> (r: Json)
        ensures
            r@ == opt_text(s.deep_view()),
    {
        match s {
            Some(t) => Json::text(t),
            None => Json::Null,
        }
    }

    pub fn array(items: Vec<Json>) -> (r: Json)
        ensures
            r@ == JsonView::Array(items.deep_view()),
    {
        proof {
            lemma_array_view(items);
        }
        Json::Array(items)
    }

    pub fn object(object: JsonObject) -> (r: Json)
        ensures
            r@ == JsonView::Object(object.view()),
    {
        proof {
            lemma_object_view(object);
        }
        Json::Object(object)
    }

    /// The members, where the value is an object.
    pub fn into_object(self) -> (r: Option<JsonObject>)
        ensures
            match r {
                Some(object) => self@ == JsonView::Object(object.view()),
                None => !(self@ is Object),
            },
    {
        match self {
            Json::Object(object) => {
                proof {
                    lemma_object_view(object);
                }
                Some(object)
            },
            _ => None,
        }
    }

    pub fn texts(texts: &Vec<String>) -> (r: Json)
        ensures
            r@ == text_array(texts.deep_view()),
    {
        let mut items: Vec<Json> = Vec::new();
        let mut i: usize = 0;
        while i < texts.len()
            invariant
                i <= texts@.len(),
                items@.len() == i,
                forall|j: int| 0 <= j < i ==> (#[trigger] items@[j])@ == JsonView::Text(texts@[j]@),
            decreases texts@.len() - i,
        {
            items.push(Json::text(texts[i].as_str()));
            i = i + 1;
        }
        let r = Json::array(items);
        assert(items.deep_view() =~= Seq::new(
            texts.deep_view().len(),
            |i: int| JsonView::Text(texts.deep_view()[i]),
        ));
        r
    }
}

impl Clone for Json {
    fn clone(&self) -> (r: Json)
        ensures
            r@ == self@,
        decreases self,
    {
        match self {
            Json::Null => Json::Null,
            Json::Bool(b) => Json::Bool(*b),
            Json::Number(n) => Json::Number(n.clone()),
            Json::Text(s) => Json::Text(s.clone()),
            Json::Array(items) => {
                let mut out: Vec<Json> = Vec::new();
                let mut i: usize = 0;
                while i < items.len()
                    invariant
                        i <= items@.len(),
                        self == Json::Array(*items),
                        out@.len() == i,
                        forall|j: int| 0 <= j < i ==> (#[trigger] out@[j])@ == items@[j]@,
                    decreases items@.len() - i,
                {
                    assert(decreases_to!(*self => self->Array_0));
                    assert(decreases_to!(items => items@[i as int]));
                    let item = items[i].clone();
                    out.push(item);
                    i = i + 1;
                }
                proof {
                    lemma_array_view(*items);
                    lemma_array_view(out);
                    assert(items.deep_view() =~= out.deep_view());
                }
                Json::Array(out)
            },
            Json::Object(object) => {
                let mut out = JsonObject::new();
                let mut i: usize = 0;
                assert(object.entries@.take(0) == Seq::<(String, Json)>::empty());
                while i < object.entries.len()
                    invariant
                        i <= object.entries@.len(),
                        self == Json::Object(*object),
                        out.view() == entries_view(object.entries@.take(i as int)),
                    decreases object.entries@.len() - i,
                {
                    assert(object.entries@.take(i + 1) =~= object.entries@.take(i as int).push(
                        object.entries@[i as int],
                    ));
                    assert(decreases_to!(*self => self->Object_0));
                    assert(decreases_to!(object => object.entries));
                    assert(decreases_to!(object.entries => object.entries@[i as int]));
                    assert(decreases_to!(object.entries@[i as int] => object.entries@[i as int].1));
                    let value = object.entries[i].1.clone();
                    let key = object.entries[i].0.clone();
                    let entry = (key, value);
                    proof {
                        lemma_entries_last(
                            object.entries@.take(i as int),
                            object.entries@[i as int],
                        );
                        lemma_entries_last(out.entries@, entry);
                    }
                    out.entries.push(entry);
                    i = i + 1;
                }
                proof {
                    assert(object.entries@.take(object.entries@.len() as int) == object.entries@);
                    lemma_entries_view(*object);
                    lemma_object_view(*object);
                    lemma_object_view(out);
                }
                Json::Object(out)
            },
        }
    }
}

impl Clone for JsonNumber {
    fn clone(&self) -> (r: JsonNumber)
        ensures
            r.view() == self.view(),
    {
        match self {
            JsonNumber::Unsigned(n) => JsonNumber::Unsigned(*n),
            JsonNumber::Negative(n) => JsonNumber::Negative(*n),
            JsonNumber::Fraction(n) => JsonNumber::Fraction(clone_number(n)),
        }
    }
}

impl JsonNumber {
    pub fn as_u64(&self) -> (r: Option<u64>)
        ensures
            r == JsonView::Number(self.view()).as_u64(),
    {
        match self {
            JsonNumber::Unsigned(n) => Some(*n),
            JsonNumber::Negative(n) => if *n < 0 {
                None
            } else {
                Some(*n as u64)
            },
            JsonNumber::Fraction(n) => number_as_u64(n),
        }
    }

    pub fn as_i64(&self) -> (r: Option<i64>)
        ensures
            r == JsonView::Number(self.view()).as_i64(),
    {
        match self {
            JsonNumber::Unsigned(n) => if *n <= i64::MAX as u64 {
                Some(*n as i64)
            } else {
                None
            },
            JsonNumber::Negative(n) => Some(*n),
            JsonNumber::Fraction(n) => number_as_i64(n),
        }
    }

    /// The text of the number.
    pub fn to_text(&self) -> (r: String)
        ensures
            r@ == number_digits(self.view()),
    {
        match self {
            JsonNumber::Unsigned(n) => u64_text(*n),
            JsonNumber::Negative(n) => i128_text(*n as i128),
            JsonNumber::Fraction(n) => number_to_string(n),
        }
    }

    /// The number that a number of `serde_json` is.
    fn of(n: serde_json::Number) -> (r: JsonNumber)
        ensures
            r.view() == number_view(n),
    {
        match number_as_u64(&n) {
            Some(u) => JsonNumber::Unsigned(u),
            None => JsonNumber::Fraction(n),
        }
    }
}

// Text.

/// A number of `serde_json`.
#[verifier::external_type_specification]
#[verifier::external_body]
pub struct ExNumber(serde_json::Number);

/// A value of `serde_json`.
#[verifier::external_type_specification]
#[verifier::external_body]
pub struct ExValue(serde_json::Value);

/// What a number of `serde_json` holds.
pub uninterp spec fn number_view(n: serde_json::Number) -> NumberView;

/// What a value of `serde_json` holds.
pub uninterp spec fn value_view(v: serde_json::Value) -> JsonView;

/// The value that `serde_json::from_str` reads from a text, where it accepts the text.
pub uninterp spec fn json_parse(text: Seq<char>) -> Option<JsonView>;

/// The text that `to_string` gives for a value of `serde_json`.
pub uninterp spec fn json_print(value: JsonView) -> Seq<char>;

/// A copy of a number.
///
/// The contract claims of `serde_json::Number::clone` that the copy holds the same number.
#[verifier::external_body]
fn clone_number(n: &serde_json::Number) -> (r: serde_json::Number)
    ensures
        number_view(r) == number_view(*n),
{
    n.clone()
}

/// The number as an unsigned integer.
///
/// The contract claims of `serde_json::Number::as_u64` that it returns the number where it is an
/// integer from zero to `u64::MAX`, and nothing for any other number.
#[verifier::external_body]
fn number_as_u64(n: &serde_json::Number) -> (r: Option<u64>)
    ensures
        r == JsonView::Number(number_view(*n)).as_u64(),
{
    n.as_u64()
}

/// The number as a signed integer.
///
/// The contract claims of `serde_json::Number::as_i64` that it returns the number where it is an
/// integer from `i64::MIN` to `i64::MAX`, and nothing for any other number.
#[verifier::external_body]
fn number_as_i64(n: &serde_json::Number) -> (r: Option<i64>)
    ensures
        r == JsonView::Number(number_view(*n)).as_i64(),
{
    n.as_i64()
}

/// The text of a number.
///
/// The contract claims of `to_string` on `serde_json::Number` that it writes an integer in decimal
/// digits behind its sign, and that it writes any other number as the text that the number's view
/// holds.
#[verifier::external_body]
fn number_to_string(n: &serde_json::Number) -> (r: String)
    ensures
        r@ == number_digits(number_view(*n)),
{
    n.to_string()
}

/// An unsigned integer as a number.
///
/// The contract claims of `serde_json::Number::from` on `u64` that the number holds it.
#[verifier::external_body]
fn number_from_u64(n: u64) -> (r: serde_json::Number)
    ensures
        number_view(r) == NumberView::Unsigned(n),
{
    serde_json::Number::from(n)
}

/// A signed integer as a number.
///
/// The contract claims of `serde_json::Number::from` on `i64` that the number holds it.
#[verifier::external_body]
fn number_from_i64(n: i64) -> (r: serde_json::Number)
    ensures
        number_view(r) == signed(n),
{
    serde_json::Number::from(n)
}

/// Reads a value from a text.
///
/// The contract names what `serde_json::from_str` returns for a text that it accepts, and says
/// that it returns an error for every other text.
#[verifier::external_body]
fn value_from_str(text: &str) -> (r: Option<serde_json::Value>)
    ensures
        match r {
            Some(v) => json_parse(text@) == Some(value_view(v)),
            None => json_parse(text@) is None,
        },
{
    serde_json::from_str::<serde_json::Value>(text).ok()
}

/// Reads a value from bytes.
///
/// The contract claims of `serde_json::from_slice` that it accepts the UTF-8 encodings of the
/// texts that `from_str` accepts, with the same value, and nothing else.
#[verifier::external_body]
fn value_from_slice(bytes: &[u8]) -> (r: Option<serde_json::Value>)
    ensures
        match r {
            Some(v) => bytes_parse(bytes@) == Some(value_view(v)),
            None => bytes_parse(bytes@) is None,
        },
{
    serde_json::from_slice::<serde_json::Value>(bytes).ok()
}

/// The value that bytes hold, where they are the UTF-8 encoding of a JSON text.
pub open spec fn bytes_parse(bytes: Seq<u8>) -> Option<JsonView> {
    if vstd::utf8::valid_utf8(bytes) {
        json_parse(vstd::utf8::decode_utf8(bytes))
    } else {
        None
    }
}

/// Whether the value nests no deeper than `depth` and holds no number but integers.
pub open spec fn fits(value: JsonView, depth: nat) -> bool
    decreases depth,
{
    match value {
        JsonView::Null => true,
        JsonView::Bool(_) => true,
        JsonView::Text(_) => true,
        JsonView::Number(NumberView::Unsigned(_)) => true,
        JsonView::Number(NumberView::Negative(n)) => n < 0,
        JsonView::Number(NumberView::Fraction(_)) => false,
        JsonView::Array(items) => depth > 0 && forall|i: int|
            0 <= i < items.len() ==> fits(#[trigger] items[i], (depth - 1) as nat),
        JsonView::Object(members) => depth > 0 && forall|key: Seq<char>|
            members.dom().contains(key) ==> fits(#[trigger] members[key], (depth - 1) as nat),
    }
}

/// Whether `serde_json` reads the value back from its own text: it nests at most 127 levels deep
/// and its numbers are integers.
pub open spec fn round_trips(value: JsonView) -> bool {
    fits(value, 127)
}

/// Whether two values that nest no deeper than `depth` are the same but for what stands in place
/// of numbers that are no integers.
pub open spec fn alike(a: JsonView, b: JsonView, depth: nat) -> bool
    decreases depth,
{
    match (a, b) {
        (JsonView::Number(x), JsonView::Number(y)) => x is Fraction || x == y,
        (JsonView::Array(x), JsonView::Array(y)) => depth > 0 && x.len() == y.len() && forall|i: int|
            0 <= i < x.len() ==> alike(#[trigger] x[i], y[i], (depth - 1) as nat),
        (JsonView::Object(x), JsonView::Object(y)) => depth > 0 && x.dom() == y.dom()
            && forall|key: Seq<char>|
            x.dom().contains(key) ==> alike(#[trigger] x[key], y[key], (depth - 1) as nat),
        _ => a == b,
    }
}

/// Writes a value as text.
///
/// The contract names what `to_string` returns for a value of `serde_json`, and claims that
/// `from_str` reads the same value back from it where the value nests no deeper than the reader's
/// limit and its numbers are integers. Of other numbers only this is said: where `from_str` reads
/// a value back, a number stands in their place. Reading may round them.
#[verifier::external_body]
fn value_to_string(value: &serde_json::Value) -> (r: String)
    ensures
        r@ == json_print(value_view(*value)),
        round_trips(value_view(*value)) ==> json_parse(r@) == Some(value_view(*value)),
        json_parse(r@) matches Some(back) ==> alike(value_view(*value), back, 127),
{
    value.to_string()
}

/// One level of a value of `serde_json`.
enum ValueNode {
    Null,
    Bool(bool),
    Number(serde_json::Number),
    Text(String),
    Array(Vec<serde_json::Value>),
    Object(Vec<(String, serde_json::Value)>),
}

/// The members of an opened object, where a later member replaces an earlier one.
spec fn members_view(members: Seq<(String, serde_json::Value)>) -> Map<Seq<char>, JsonView>
    decreases members.len(),
{
    if members.len() == 0 {
        Map::empty()
    } else {
        members_view(members.drop_last()).insert(members.last().0@, value_view(members.last().1))
    }
}

impl ValueNode {
    spec fn view(&self) -> JsonView {
        match self {
            ValueNode::Null => JsonView::Null,
            ValueNode::Bool(b) => JsonView::Bool(*b),
            ValueNode::Number(n) => JsonView::Number(number_view(*n)),
            ValueNode::Text(s) => JsonView::Text(s@),
            ValueNode::Array(items) => JsonView::Array(
                Seq::new(items@.len(), |i: int| value_view(items@[i])),
            ),
            ValueNode::Object(members) => JsonView::Object(members_view(members@)),
        }
    }
}

/// Whether no two members have the same key.
spec fn distinct_keys(members: Seq<(String, serde_json::Value)>) -> bool {
    forall|i: int, j: int|
        0 <= i < j < members.len() ==> (#[trigger] members[i]).0@ != (#[trigger] members[j]).0@
}

/// Opens one level of a value.
///
/// The contract claims of the variants of `serde_json::Value` that they hold what the node holds:
/// the same truth value, number, text, items in order or members, each key once.
#[verifier::external_body]
fn open_value(value: serde_json::Value) -> (r: ValueNode)
    ensures
        r.view() == value_view(value),
        r matches ValueNode::Object(members) ==> distinct_keys(members@),
{
    match value {
        serde_json::Value::Null => ValueNode::Null,
        serde_json::Value::Bool(b) => ValueNode::Bool(b),
        serde_json::Value::Number(n) => ValueNode::Number(n),
        serde_json::Value::String(s) => ValueNode::Text(s),
        serde_json::Value::Array(items) => ValueNode::Array(items),
        serde_json::Value::Object(members) => ValueNode::Object(members.into_iter().collect()),
    }
}

/// Makes a value from one level.
///
/// The contract claims of the variants of `serde_json::Value`, and of collecting members into a
/// `serde_json::Map`, that the value holds what the node holds.
#[verifier::external_body]
fn close_value(node: ValueNode) -> (r: serde_json::Value)
    ensures
        value_view(r) == node.view(),
{
    match node {
        ValueNode::Null => serde_json::Value::Null,
        ValueNode::Bool(b) => serde_json::Value::Bool(b),
        ValueNode::Number(n) => serde_json::Value::Number(n),
        ValueNode::Text(s) => serde_json::Value::String(s),
        ValueNode::Array(items) => serde_json::Value::Array(items),
        ValueNode::Object(members) => serde_json::Value::Object(members.into_iter().collect()),
    }
}

proof fn lemma_members_finite(members: Seq<(String, serde_json::Value)>)
    ensures
        members_view(members).dom().finite(),
    decreases members.len(),
{
    if members.len() > 0 {
        lemma_members_finite(members.drop_last());
    }
}

proof fn lemma_member_smaller(members: Seq<(String, serde_json::Value)>, i: int)
    requires
        distinct_keys(members),
        0 <= i < members.len(),
    ensures
        members_view(members).dom().contains(members[i].0@),
        members_view(members)[members[i].0@] == value_view(members[i].1),
        members_view(members).dom().finite(),
    decreases members.len(),
{
    lemma_members_finite(members);
    if i < members.len() - 1 {
        let front = members.drop_last();
        assert(front[i] == members[i]);
        lemma_member_smaller(front, i);
        assert(members[i].0@ != members.last().0@);
    }
}

/// The library's tree for a value of `serde_json`.
pub fn from_value(value: serde_json::Value) -> (r: Json)
    ensures
        r@ == value_view(value),
    decreases value_view(value),
{
    let ghost whole = value_view(value);
    match open_value(value) {
        ValueNode::Null => Json::Null,
        ValueNode::Bool(b) => Json::Bool(b),
        ValueNode::Number(n) => Json::Number(JsonNumber::of(n)),
        ValueNode::Text(s) => Json::Text(s),
        ValueNode::Array(items) => {
            let ghost all = items@;
            let mut rest = items;
            let mut out: Vec<Json> = Vec::new();
            while rest.len() > 0
                invariant
                    value_view(value) == whole,
                    whole == JsonView::Array(Seq::new(all.len(), |i: int| value_view(all[i]))),
                    out@.len() + rest@.len() == all.len(),
                    rest@ == all.take(rest@.len() as int),
                    forall|j: int|
                        0 <= j < out@.len() ==> (#[trigger] out@[j])@ == value_view(
                            all[all.len() - 1 - j],
                        ),
                decreases rest@.len(),
            {
                if let Some(item) = rest.pop() {
                    let ghost at = rest@.len() as int;
                    assert(item == all[at]);
                    assert(whole->Array_0[at] == value_view(item));
                    let r = from_value(item);
                    out.push(r);
                }
            }
            let mut items: Vec<Json> = Vec::new();
            while out.len() > 0
                invariant
                    out@.len() + items@.len() == all.len(),
                    forall|j: int|
                        0 <= j < out@.len() ==> (#[trigger] out@[j])@ == value_view(
                            all[all.len() - 1 - j],
                        ),
                    forall|j: int|
                        0 <= j < items@.len() ==> (#[trigger] items@[j])@ == value_view(all[j]),
                decreases out@.len(),
            {
                if let Some(item) = out.pop() {
                    items.push(item);
                }
            }
            assert(items.deep_view() =~= Seq::new(all.len(), |i: int| value_view(all[i])));
            Json::array(items)
        },
        ValueNode::Object(members) => {
            let ghost all = members@;
            let mut rest = members;
            let mut out: Vec<(String, Json)> = Vec::new();
            while rest.len() > 0
                invariant
                    value_view(value) == whole,
                    whole == JsonView::Object(members_view(all)),
                    distinct_keys(all),
                    out@.len() + rest@.len() == all.len(),
                    rest@ == all.take(rest@.len() as int),
                    forall|j: int|
                        0 <= j < out@.len() ==> (#[trigger] out@[j]).0@ == all[all.len() - 1 - j].0@
                            && out@[j].1@ == value_view(all[all.len() - 1 - j].1),
                decreases rest@.len(),
            {
                if let Some(member) = rest.pop() {
                    let ghost at = rest@.len() as int;
                    assert(member == all[at]);
                    proof {
                        lemma_member_smaller(all, at);
                        assert(decreases_to!(whole => whole->Object_0));
                        assert(decreases_to!(whole->Object_0 => whole->Object_0[member.0@]));
                    }
                    let r = from_value(member.1);
                    out.push((member.0, r));
                }
            }
            let mut object = JsonObject::new();
            let mut done: Ghost<int> = Ghost(0);
            assert(all.take(0) =~= Seq::empty());
            while out.len() > 0
                invariant
                    done@ + out@.len() == all.len(),
                    done@ >= 0,
                    forall|j: int|
                        0 <= j < out@.len() ==> (#[trigger] out@[j]).0@ == all[all.len() - 1 - j].0@
                            && out@[j].1@ == value_view(all[all.len() - 1 - j].1),
                    object.view() == members_view(all.take(done@)),
                decreases out@.len(),
            {
                if let Some(member) = out.pop() {
                    proof {
                        assert(all.take(done@ + 1).drop_last() =~= all.take(done@));
                        assert(all.take(done@ + 1).last() == all[done@]);
                    }
                    proof {
                        lemma_entries_last(object.entries@, member);
                    }
                    object.entries.push(member);
                }
                proof {
                    done@ = done@ + 1;
                }
            }
            assert(all.take(all.len() as int) =~= all);
            Json::Object(object)
        },
    }
}

/// The value of `serde_json` for the library's tree.
pub fn to_value(json: &Json) -> (r: serde_json::Value)
    ensures
        value_view(r) == json@,
    decreases json,
{
    match json {
        Json::Null => close_value(ValueNode::Null),
        Json::Bool(b) => close_value(ValueNode::Bool(*b)),
        Json::Number(JsonNumber::Unsigned(n)) => close_value(
            ValueNode::Number(number_from_u64(*n)),
        ),
        Json::Number(JsonNumber::Negative(n)) => close_value(
            ValueNode::Number(number_from_i64(*n)),
        ),
        Json::Number(JsonNumber::Fraction(n)) => close_value(ValueNode::Number(clone_number(n))),
        Json::Text(s) => close_value(ValueNode::Text(s.clone())),
        Json::Array(items) => {
            let mut out: Vec<serde_json::Value> = Vec::new();
            let mut i: usize = 0;
            while i < items.len()
                invariant
                    i <= items@.len(),
                    json == Json::Array(*items),
                    out@.len() == i,
                    forall|j: int| 0 <= j < i ==> value_view(#[trigger] out@[j]) == items@[j]@,
                decreases items@.len() - i,
            {
                assert(decreases_to!(*json => json->Array_0));
                assert(decreases_to!(items => items@[i as int]));
                let value = to_value(&items[i]);
                out.push(value);
                i = i + 1;
            }
            proof {
                lemma_array_view(*items);
                assert(items.deep_view() =~= Seq::new(out@.len(), |i: int| value_view(out@[i])));
            }
            close_value(ValueNode::Array(out))
        },
        Json::Object(object) => {
            let mut out: Vec<(String, serde_json::Value)> = Vec::new();
            let mut i: usize = 0;
            assert(object.entries@.take(0) =~= Seq::empty());
            while i < object.entries.len()
                invariant
                    i <= object.entries@.len(),
                    json == Json::Object(*object),
                    members_view(out@) == entries_view(object.entries@.take(i as int)),
                decreases object.entries@.len() - i,
            {
                proof {
                    assert(object.entries@.take(i + 1) =~= object.entries@.take(i as int).push(
                        object.entries@[i as int],
                    ));
                    lemma_entries_last(object.entries@.take(i as int), object.entries@[i as int]);
                }
                assert(decreases_to!(*json => json->Object_0));
                assert(decreases_to!(object => object.entries));
                assert(decreases_to!(object.entries => object.entries@[i as int]));
                assert(decreases_to!(object.entries@[i as int] => object.entries@[i as int].1));
                let value = to_value(&object.entries[i].1);
                let key = object.entries[i].0.clone();
                let ghost before = out@;
                out.push((key, value));
                assert(out@.drop_last() =~= before);
                i = i + 1;
            }
            proof {
                assert(object.entries@.take(object.entries@.len() as int) =~= object.entries@);
                lemma_entries_view(*object);
                lemma_object_view(*object);
            }
            close_value(ValueNode::Object(out))
        },
    }
}

/// The value that a text holds, where it is JSON.
pub fn parse_json(text: &str) -> (r: Option<Json>)
    ensures
        r.deep_view() == json_parse(text@),
{
    match value_from_str(text) {
        Some(value) => Some(from_value(value)),
        None => None,
    }
}

/// The value that bytes hold, where they are JSON.
pub fn parse_json_bytes(bytes: &[u8]) -> (r: Option<Json>)
    ensures
        r.deep_view() == bytes_parse(bytes@),
{
    match value_from_slice(bytes) {
        Some(value) => Some(from_value(value)),
        None => None,
    }
}

/// The text of a value.
pub fn print_json(json: &Json) -> (r: String)
    ensures
        r@ == json_print(json@),
        round_trips(json@) ==> json_parse(r@) == Some(json@),
        json_parse(r@) matches Some(back) ==> alike(json@, back, 127),
{
    let value = to_value(json);
    value_to_string(&value)
}

} // verus!
