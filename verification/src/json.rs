//! JSON values as the server's logic sees them.
//!
//! [`Json`] holds a document as plain data; its view, [`JsonView`], is what contracts speak of.
//! Objects keep the order in which keys were first inserted.

use crate::text;
use vstd::prelude::*;

verus! {

/// The outside type `serde_json::Number`, carried for numbers that are not 64-bit integers.
#[verifier::external_type_specification]
#[verifier::external_body]
pub struct ExNumber(serde_json::Number);

/// What `serde_json::Number::as_u64` gives of a number.
pub uninterp spec fn number_unsigned(number: serde_json::Number) -> Option<u64>;

/// What `serde_json::Number::as_i64` gives of a number.
pub uninterp spec fn number_signed(number: serde_json::Number) -> Option<i64>;

/// `serde_json::Number::as_u64`: the integer, where the number is one that fits `u64`.
pub assume_specification[ serde_json::Number::as_u64 ](number: &serde_json::Number) -> (n: Option<
    u64,
>)
    ensures
        n == number_unsigned(*number),
;

/// `serde_json::Number::as_i64`: the integer, where the number is one that fits `i64`.
pub assume_specification[ serde_json::Number::as_i64 ](number: &serde_json::Number) -> (n: Option<
    i64,
>)
    ensures
        n == number_signed(*number),
;

/// What a number of `serde_json` stands for: its integer, or itself where it is no such integer.
pub open spec fn number_view(number: serde_json::Number) -> NumberView {
    match number_unsigned(number) {
        Some(n) => NumberView::Int(n as int),
        None => match number_signed(number) {
            Some(n) => NumberView::Int(n as int),
            None => NumberView::Float(number),
        },
    }
}

/// A JSON number: an integer that fits 64 bits, or any number, carried as it came.
#[derive(Debug, PartialEq)]
pub enum JsonNumber {
    Unsigned(u64),
    Signed(i64),
    Float(serde_json::Number),
}

/// What a [`JsonNumber`] stands for.
pub enum NumberView {
    Int(int),
    Float(serde_json::Number),
}

impl View for JsonNumber {
    type V = NumberView;

    open spec fn view(&self) -> NumberView {
        match self {
            JsonNumber::Unsigned(n) => NumberView::Int(*n as int),
            JsonNumber::Signed(n) => NumberView::Int(*n as int),
            JsonNumber::Float(n) => number_view(*n),
        }
    }
}

/// A JSON document.
#[derive(Debug, PartialEq)]
pub enum Json {
    Null,
    Bool(bool),
    Number(JsonNumber),
    String(String),
    Array(Vec<Json>),
    Object(JsonObject),
}

/// A JSON object: each key once, in the order of first insertion.
#[derive(Debug, PartialEq)]
pub struct JsonObject {
    entries: Vec<(String, Json)>,
}

/// The entries of an object: keys with what they hold, in order.
pub type Entries = Seq<(Seq<char>, JsonView)>;

/// The mathematical counterpart of [`Json`].
pub enum JsonView {
    Null,
    Bool(bool),
    Number(NumberView),
    String(Seq<char>),
    Array(Seq<JsonView>),
    Object(Seq<(Seq<char>, JsonView)>),
}

impl View for Json {
    type V = JsonView;

    open spec fn view(&self) -> JsonView {
        json_view(*self)
    }
}

impl View for JsonObject {
    type V = Seq<(Seq<char>, JsonView)>;

    open spec fn view(&self) -> Seq<(Seq<char>, JsonView)> {
        object_view(*self)
    }
}

/// The document that `json` holds.
pub open spec fn json_view(json: Json) -> JsonView
    decreases json,
{
    match json {
        Json::Null => JsonView::Null,
        Json::Bool(b) => JsonView::Bool(b),
        Json::Number(n) => JsonView::Number(n@),
        Json::String(s) => JsonView::String(s@),
        Json::Array(items) => JsonView::Array(
            Seq::new(
                items@.len(),
                |i: int|
                    if 0 <= i < items@.len() {
                        json_view(items@[i])
                    } else {
                        JsonView::Null
                    },
            ),
        ),
        Json::Object(object) => JsonView::Object(object_view(object)),
    }
}

/// The entries that `object` holds.
pub closed spec fn object_view(object: JsonObject) -> Seq<(Seq<char>, JsonView)>
    decreases object,
{
    Seq::new(
        object.entries@.len(),
        |i: int|
            if 0 <= i < object.entries@.len() {
                (object.entries@[i].0@, json_view(object.entries@[i].1))
            } else {
                (Seq::empty(), JsonView::Null)
            },
    )
}

/// `key` stands in `entries` first at `i`.
pub open spec fn first_at(entries: Entries, key: Seq<char>, i: int) -> bool {
    &&& 0 <= i < entries.len()
    &&& entries[i].0 == key
    &&& forall|j: int| 0 <= j < i ==> (#[trigger] entries[j]).0 != key
}

/// Whether `key` occurs.
pub open spec fn has_key(entries: Entries, key: Seq<char>) -> bool {
    exists|i: int| first_at(entries, key, i)
}

/// Where `key` stands.
pub open spec fn position(entries: Entries, key: Seq<char>) -> int {
    choose|i: int| first_at(entries, key, i)
}

/// What `key` holds.
pub open spec fn lookup(entries: Entries, key: Seq<char>) -> Option<JsonView> {
    if has_key(entries, key) {
        Some(entries[position(entries, key)].1)
    } else {
        None
    }
}

/// `entries` with `key` holding `value`: in the key's place, or at the end where it is new.
pub open spec fn put(entries: Entries, key: Seq<char>, value: JsonView) -> Entries {
    if has_key(entries, key) {
        entries.update(position(entries, key), (key, value))
    } else {
        entries.push((key, value))
    }
}

/// The object without entries.
pub open spec fn no_entries() -> Entries {
    Seq::empty()
}

/// No key occurs twice.
pub open spec fn unique_keys(entries: Entries) -> bool {
    forall|i: int, j: int|
        0 <= i < j < entries.len() ==> (#[trigger] entries[i]).0 != (#[trigger] entries[j]).0
}

/// A key stands first at one place at most.
pub proof fn lemma_first_at(entries: Entries, key: Seq<char>, i: int)
    requires
        first_at(entries, key, i),
    ensures
        has_key(entries, key),
        position(entries, key) == i,
{
    let p = position(entries, key);
    assert(first_at(entries, key, p));
    if p < i {
        assert(entries[p].0 == key);
    }
    if i < p {
        assert(entries[i].0 == key);
    }
}

/// A key that stands at some index occurs.
pub proof fn lemma_key_at(entries: Entries, key: Seq<char>, i: int)
    requires
        0 <= i < entries.len(),
        entries[i].0 == key,
    ensures
        has_key(entries, key),
    decreases i,
{
    if forall|j: int| 0 <= j < i ==> (#[trigger] entries[j]).0 != key {
        assert(first_at(entries, key, i));
    } else {
        let j = choose|j: int| 0 <= j < i && (#[trigger] entries[j]).0 == key;
        lemma_key_at(entries, key, j);
    }
}

/// An object reads back what was put under a key.
pub broadcast proof fn lemma_lookup_put_same(entries: Entries, key: Seq<char>, value: JsonView)
    ensures
        #[trigger] lookup(put(entries, key, value), key) == Some(value),
{
    let after = put(entries, key, value);
    if has_key(entries, key) {
        let p = position(entries, key);
        assert(first_at(entries, key, p));
        assert(first_at(after, key, p));
        lemma_first_at(after, key, p);
    } else {
        let p = entries.len() as int;
        assert forall|j: int| 0 <= j < p implies (#[trigger] after[j]).0 != key by {
            if entries[j].0 == key {
                lemma_key_at(entries, key, j);
            }
        }
        assert(first_at(after, key, p));
        lemma_first_at(after, key, p);
    }
}

/// Putting a value under one key leaves what another key holds.
pub broadcast proof fn lemma_lookup_put_other(
    entries: Entries,
    key: Seq<char>,
    value: JsonView,
    other: Seq<char>,
)
    requires
        other != key,
    ensures
        #[trigger] lookup(put(entries, key, value), other) == lookup(entries, other),
{
    let after = put(entries, key, value);
    if has_key(entries, other) {
        let p = position(entries, other);
        assert(first_at(entries, other, p));
        if has_key(entries, key) {
            assert(first_at(entries, key, position(entries, key)));
        }
        assert forall|j: int| 0 <= j < p implies (#[trigger] after[j]).0 != other by {
            assert(entries[j].0 != other);
        }
        assert(first_at(after, other, p));
        lemma_first_at(after, other, p);
    } else if has_key(after, other) {
        let p = position(after, other);
        assert(first_at(after, other, p));
        if has_key(entries, key) {
            assert(first_at(entries, key, position(entries, key)));
        }
        assert(p < entries.len() && entries[p].0 == other);
        lemma_key_at(entries, other, p);
    }
}

/// An object without entries holds no key.
pub broadcast proof fn lemma_lookup_none(key: Seq<char>)
    ensures
        #[trigger] lookup(no_entries(), key) == None::<JsonView>,
{
    assert forall|i: int| !first_at(no_entries(), key, i) by {}
}

/// `put` keeps keys unique.
pub proof fn lemma_put_unique(entries: Entries, key: Seq<char>, value: JsonView)
    requires
        unique_keys(entries),
    ensures
        unique_keys(put(entries, key, value)),
{
    let after = put(entries, key, value);
    if has_key(entries, key) {
        assert(first_at(entries, key, position(entries, key)));
        assert(forall|i: int| 0 <= i < entries.len() ==> (#[trigger] after[i]).0 == entries[i].0);
    } else {
        assert forall|i: int| 0 <= i < entries.len() implies (#[trigger] entries[i]).0 != key by {
            if entries[i].0 == key {
                lemma_key_at(entries, key, i);
            }
        }
    }
}

/// What reading and writing entries obey.
pub broadcast group group_lookup {
    lemma_lookup_put_same,
    lemma_lookup_put_other,
    lemma_lookup_none,
}

impl JsonObject {
    /// Each key occurs once.
    #[verifier::type_invariant]
    spec fn keys_once(self) -> bool {
        unique_keys(object_view(self))
    }

    /// An object without entries.
    pub fn new() -> (object: JsonObject)
        ensures
            object@ == no_entries(),
    {
        let entries: Vec<(String, Json)> = Vec::new();
        let ghost shape = JsonObject { entries };
        assert(object_view(shape) =~= no_entries());
        JsonObject { entries }
    }

    /// The number of entries, each of which has a key of its own.
    pub fn len(&self) -> (n: usize)
        ensures
            n == self@.len(),
            unique_keys(self@),
    {
        proof {
            use_type_invariant(self);
        }
        self.entries.len()
    }

    /// Whether there are no entries.
    pub fn is_empty(&self) -> (b: bool)
        ensures
            b == (self@.len() == 0),
    {
        self.entries.len() == 0
    }

    /// The key at index `i`.
    pub fn key(&self, i: usize) -> (key: &String)
        requires
            i < self@.len(),
        ensures
            key@ == self@[i as int].0,
    {
        &self.entries[i].0
    }

    /// The value at index `i`.
    pub fn value(&self, i: usize) -> (value: &Json)
        requires
            i < self@.len(),
        ensures
            value@ == self@[i as int].1,
            decreases_to!(*self => *value),
    {
        &self.entries[i].1
    }

    /// Where `key` stands.
    fn find(&self, key: &str) -> (r: Option<usize>)
        ensures
            match r {
                Some(i) => first_at(self@, key@, i as int),
                None => !has_key(self@, key@),
            },
    {
        let mut i: usize = 0;
        while i < self.entries.len()
            invariant
                i <= self.entries.len(),
                self@.len() == self.entries@.len(),
                forall|j: int| 0 <= j < i ==> (#[trigger] self@[j]).0 != key@,
            decreases self.entries.len() - i,
        {
            assert(self@[i as int].0 == self.entries@[i as int].0@);
            if text::same(self.entries[i].0.as_str(), key) {
                return Some(i);
            }
            i = i + 1;
        }
        assert forall|j: int| !first_at(self@, key@, j) by {}
        None
    }

    /// What `key` holds.
    pub fn get(&self, key: &str) -> (value: Option<&Json>)
        ensures
            value matches Some(v) ==> lookup(self@, key@) == Some(v@),
            value is None ==> lookup(self@, key@) == None::<JsonView>,
    {
        match self.find(key) {
            Some(i) => {
                proof {
                    lemma_first_at(self@, key@, i as int);
                }
                Some(&self.entries[i].1)
            },
            None => None,
        }
    }

    /// Lets `key` hold `value`.
    pub fn insert(&mut self, key: &str, value: Json)
        ensures
            final(self)@ == put(old(self)@, key@, value@),
    {
        proof {
            use_type_invariant(&*self);
            lemma_put_unique(self@, key@, value@);
        }
        let found = self.find(key);
        let ghost before = *self;
        let ghost held = value@;
        let mut entries: Vec<(String, Json)> = Vec::new();
        std::mem::swap(&mut entries, &mut self.entries);
        match found {
            Some(i) => {
                proof {
                    lemma_first_at(before@, key@, i as int);
                }
                entries[i] = (key.to_string(), value);
            },
            None => {
                entries.push((key.to_string(), value));
            },
        }
        let ghost shape = JsonObject { entries };
        assert(object_view(shape) =~= put(before@, key@, held));
        self.entries = entries;
    }
}

/// The `Clone` of `serde_json::Number`: the copy is the same number.
pub assume_specification[ <serde_json::Number as std::clone::Clone>::clone ](
    number: &serde_json::Number,
) -> (copy: serde_json::Number)
    ensures
        copy == *number,
;

impl Clone for JsonNumber {
    fn clone(&self) -> (copy: JsonNumber)
        ensures
            copy@ == self@,
    {
        match self {
            JsonNumber::Unsigned(n) => JsonNumber::Unsigned(*n),
            JsonNumber::Signed(n) => JsonNumber::Signed(*n),
            JsonNumber::Float(n) => JsonNumber::Float(n.clone()),
        }
    }
}

impl Clone for Json {
    fn clone(&self) -> (copy: Json)
        ensures
            copy@ == self@,
        decreases self,
    {
        match self {
            Json::Null => Json::Null,
            Json::Bool(b) => Json::Bool(*b),
            Json::Number(n) => Json::Number(n.clone()),
            Json::String(s) => Json::String(s.clone()),
            Json::Array(items) => {
                let mut copies: Vec<Json> = Vec::new();
                let mut i: usize = 0;
                while i < items.len()
                    invariant
                        i <= items.len(),
                        copies.len() == i,
                        *self == Json::Array(*items),
                        forall|j: int| 0 <= j < i ==> (#[trigger] copies@[j])@ == items@[j]@,
                    decreases items.len() - i,
                {
                    assert(decreases_to!(*self => self->Array_0));
                    assert(decreases_to!(items@ => items@[i as int]));
                    copies.push(items[i].clone());
                    i = i + 1;
                }
                let copy = Json::Array(copies);
                assert(copy@->Array_0 =~= self@->Array_0);
                copy
            },
            Json::Object(object) => Json::Object(object.clone()),
        }
    }
}

impl Clone for JsonObject {
    fn clone(&self) -> (copy: JsonObject)
        ensures
            copy@ == self@,
        decreases self,
    {
        proof {
            use_type_invariant(self);
        }
        let mut entries: Vec<(String, Json)> = Vec::new();
        let mut i: usize = 0;
        while i < self.entries.len()
            invariant
                i <= self.entries.len(),
                entries.len() == i,
                forall|j: int|
                    0 <= j < i ==> (#[trigger] entries@[j]).0@ == self.entries@[j].0@
                        && entries@[j].1@ == self.entries@[j].1@,
            decreases self.entries.len() - i,
        {
            let key = self.entries[i].0.clone();
            let value = self.entries[i].1.clone();
            entries.push((key, value));
            i = i + 1;
        }
        let ghost shape = JsonObject { entries };
        assert(object_view(shape) =~= object_view(*self));
        JsonObject { entries }
    }
}

impl JsonView {
    /// What `key` holds in an object; nothing in any other document.
    pub open spec fn get(self, key: Seq<char>) -> Option<JsonView> {
        match self {
            JsonView::Object(entries) => lookup(entries, key),
            _ => None,
        }
    }

    /// An object with `key` holding `value`; any other document itself.
    pub open spec fn with(self, key: Seq<char>, value: JsonView) -> JsonView {
        match self {
            JsonView::Object(entries) => JsonView::Object(put(entries, key, value)),
            _ => self,
        }
    }

    /// `with` where there is a value; the document itself where there is none.
    pub open spec fn with_opt(self, key: Seq<char>, value: Option<JsonView>) -> JsonView {
        match value {
            Some(v) => self.with(key, v),
            None => self,
        }
    }

    /// The object without entries.
    pub open spec fn object() -> JsonView {
        JsonView::Object(no_entries())
    }

    /// A document that holds the text `s`.
    pub open spec fn text(s: Seq<char>) -> JsonView {
        JsonView::String(s)
    }

    /// A document that holds the integer `n`.
    pub open spec fn integer(n: int) -> JsonView {
        JsonView::Number(NumberView::Int(n))
    }

    /// The text of a string document.
    pub open spec fn as_str(self) -> Option<Seq<char>> {
        match self {
            JsonView::String(s) => Some(s),
            _ => None,
        }
    }

    /// The integer that a number document holds, where it fits `i64`.
    pub open spec fn as_i64(self) -> Option<int> {
        match self {
            JsonView::Number(NumberView::Int(n)) => if i64::MIN <= n <= i64::MAX {
                Some(n)
            } else {
                None
            },
            _ => None,
        }
    }

    /// The integer that a number document holds, where it fits `u64`.
    pub open spec fn as_u64(self) -> Option<int> {
        match self {
            JsonView::Number(NumberView::Int(n)) => if 0 <= n <= u64::MAX {
                Some(n)
            } else {
                None
            },
            _ => None,
        }
    }

    /// The flag that a boolean document holds.
    pub open spec fn as_bool(self) -> Option<bool> {
        match self {
            JsonView::Bool(b) => Some(b),
            _ => None,
        }
    }
}

/// What `key` holds in an object that may be missing.
pub open spec fn get_in(json: Option<JsonView>, key: Seq<char>) -> Option<JsonView> {
    match json {
        Some(document) => document.get(key),
        None => None,
    }
}

/// The text of a document that may be missing.
pub open spec fn text_in(json: Option<JsonView>) -> Option<Seq<char>> {
    match json {
        Some(document) => document.as_str(),
        None => None,
    }
}

/// An object reads back what was put under a key; its other keys hold what they held.
pub broadcast proof fn lemma_get_with(
    json: JsonView,
    key: Seq<char>,
    value: JsonView,
    other: Seq<char>,
)
    requires
        json is Object,
    ensures
        #[trigger] json.with(key, value).get(other) == (if other == key {
            Some(value)
        } else {
            json.get(other)
        }),
{
    broadcast use group_lookup;

}

/// An object reads back what was put under a key; whatever else a document has stays as it was.
pub broadcast proof fn lemma_member_with(
    json: JsonView,
    key: Seq<char>,
    value: JsonView,
    other: Seq<char>,
)
    ensures
        #[trigger] json.with(key, value).get(other) == (if other == key && json is Object {
            Some(value)
        } else {
            json.get(other)
        }),
{
    broadcast use group_lookup;

}

/// Where there is a value, an object reads it back; whatever else a document has stays as it was.
pub broadcast proof fn lemma_member_with_opt(
    json: JsonView,
    key: Seq<char>,
    value: Option<JsonView>,
    other: Seq<char>,
)
    ensures
        #[trigger] json.with_opt(key, value).get(other) == (if other == key && json is Object
            && value is Some {
            value
        } else {
            json.get(other)
        }),
{
    broadcast use group_lookup;

}

/// A document is an object exactly where it was one before a member was put into it.
pub broadcast proof fn lemma_with_object(json: JsonView, key: Seq<char>, value: JsonView)
    ensures
        #[trigger] json.with(key, value) is Object == json is Object,
{
}

/// A document is an object exactly where it was one before a member was put into it.
pub broadcast proof fn lemma_with_opt_object(json: JsonView, key: Seq<char>, value: Option<JsonView>)
    ensures
        #[trigger] json.with_opt(key, value) is Object == json is Object,
{
}

/// An object without entries has no members.
pub broadcast proof fn lemma_member_none(key: Seq<char>)
    ensures
        #[trigger] JsonView::object().get(key) == None::<JsonView>,
{
    broadcast use group_lookup;

}

/// What reading the members of a document that was put together obeys.
pub broadcast group group_members {
    lemma_member_with,
    lemma_member_with_opt,
    lemma_with_object,
    lemma_with_opt_object,
    lemma_member_none,
}

/// What an optional document holds.
pub open spec fn opt_view(json: Option<Json>) -> Option<JsonView> {
    match json {
        Some(document) => Some(document@),
        None => None,
    }
}

/// What an optional reference to a document holds.
pub open spec fn ref_view(json: Option<&Json>) -> Option<JsonView> {
    match json {
        Some(document) => Some(document@),
        None => None,
    }
}

/// What the documents of a list hold.
pub open spec fn views(items: Seq<Json>) -> Seq<JsonView> {
    items.map_values(|item: Json| item@)
}

impl Json {
    /// A document that holds the text `s`.
    pub fn text(s: &str) -> (json: Json)
        ensures
            json@ == JsonView::text(s@),
    {
        Json::String(s.to_string())
    }

    /// A document that holds the integer `n`.
    pub fn integer(n: i64) -> (json: Json)
        ensures
            json@ == JsonView::integer(n as int),
    {
        if n >= 0 {
            Json::Number(JsonNumber::Unsigned(n as u64))
        } else {
            Json::Number(JsonNumber::Signed(n))
        }
    }

    /// A document that holds the integer `n`.
    pub fn unsigned(n: u64) -> (json: Json)
        ensures
            json@ == JsonView::integer(n as int),
    {
        Json::Number(JsonNumber::Unsigned(n))
    }

    /// An array of `items`.
    pub fn array(items: Vec<Json>) -> (json: Json)
        ensures
            json@ == JsonView::Array(views(items@)),
    {
        let json = Json::Array(items);
        assert(json@->Array_0 =~= views(items@));
        json
    }

    /// An object without entries.
    pub fn object() -> (json: Json)
        ensures
            json@ == JsonView::object(),
    {
        Json::Object(JsonObject::new())
    }

    /// Lets `key` hold `value` where this is an object.
    pub fn with(self, key: &str, value: Json) -> (json: Json)
        ensures
            json@ == self@.with(key@, value@),
    {
        match self {
            Json::Object(object) => {
                let mut object = object;
                object.insert(key, value);
                Json::Object(object)
            },
            other => other,
        }
    }

    /// `with` where there is a value.
    pub fn with_opt(self, key: &str, value: Option<Json>) -> (json: Json)
        ensures
            json@ == self@.with_opt(key@, opt_view(value)),
    {
        match value {
            Some(v) => self.with(key, v),
            None => self,
        }
    }

    /// What `key` holds in an object; `None` in any other document.
    pub fn get(&self, key: &str) -> (value: Option<&Json>)
        ensures
            ref_view(value) == self@.get(key@),
    {
        match self {
            Json::Object(object) => object.get(key),
            _ => None,
        }
    }

    /// The text of a string document.
    pub fn as_str(&self) -> (s: Option<&str>)
        ensures
            text::ref_view(s) == self@.as_str(),
    {
        match self {
            Json::String(s) => Some(s.as_str()),
            _ => None,
        }
    }

    /// The integer of a number document, where it fits.
    pub fn as_i64(&self) -> (n: Option<i64>)
        ensures
            n matches Some(v) ==> self@.as_i64() == Some(v as int),
            n is None ==> self@.as_i64() == None::<int>,
    {
        match self {
            Json::Number(JsonNumber::Signed(n)) => Some(*n),
            Json::Number(JsonNumber::Unsigned(n)) => {
                if *n <= i64::MAX as u64 {
                    Some(*n as i64)
                } else {
                    None
                }
            },
            Json::Number(JsonNumber::Float(number)) => match number.as_u64() {
                Some(n) => {
                    if n <= i64::MAX as u64 {
                        Some(n as i64)
                    } else {
                        None
                    }
                },
                None => number.as_i64(),
            },
            _ => None,
        }
    }

    /// The integer of a number document, where it is not negative and fits.
    pub fn as_u64(&self) -> (n: Option<u64>)
        ensures
            n matches Some(v) ==> self@.as_u64() == Some(v as int),
            n is None ==> self@.as_u64() == None::<int>,
    {
        match self {
            Json::Number(JsonNumber::Unsigned(n)) => Some(*n),
            Json::Number(JsonNumber::Signed(n)) => {
                if *n >= 0 {
                    Some(*n as u64)
                } else {
                    None
                }
            },
            Json::Number(JsonNumber::Float(number)) => match number.as_u64() {
                Some(n) => Some(n),
                None => match number.as_i64() {
                    Some(n) => {
                        if n >= 0 {
                            Some(n as u64)
                        } else {
                            None
                        }
                    },
                    None => None,
                },
            },
            _ => None,
        }
    }

    /// The flag of a boolean document.
    pub fn as_bool(&self) -> (b: Option<bool>)
        ensures
            b == self@.as_bool(),
    {
        match self {
            Json::Bool(b) => Some(*b),
            _ => None,
        }
    }

    /// Whether the document is `null`.
    pub fn is_null(&self) -> (b: bool)
        ensures
            b == (self@ is Null),
    {
        matches!(self, Json::Null)
    }

    /// Whether the document is an object.
    pub fn is_object(&self) -> (b: bool)
        ensures
            b == (self@ is Object),
    {
        matches!(self, Json::Object(_))
    }

    /// Whether the document is an array.
    pub fn is_array(&self) -> (b: bool)
        ensures
            b == (self@ is Array),
    {
        matches!(self, Json::Array(_))
    }
}

/// What `key` holds in an object that may be missing.
pub fn member<'a>(json: Option<&'a Json>, key: &str) -> (value: Option<&'a Json>)
    ensures
        ref_view(value) == get_in(ref_view(json), key@),
{
    match json {
        Some(document) => document.get(key),
        None => None,
    }
}

/// The text of a document that may be missing.
pub fn text_of<'a>(json: Option<&'a Json>) -> (s: Option<&'a str>)
    ensures
        text::ref_view(s) == text_in(ref_view(json)),
{
    match json {
        Some(document) => document.as_str(),
        None => None,
    }
}

/// A document tells what it holds: its text, its integer or its flag where it holds one, and
/// nothing where it holds something else.
pub proof fn law_documents_tell_what_they_hold(
    document: &Json,
    text: Option<&str>,
    flag: Option<bool>,
    signed: Option<i64>,
    unsigned: Option<u64>,
)
    requires
        call_ensures(Json::as_str, (document,), text),
        call_ensures(Json::as_bool, (document,), flag),
        call_ensures(Json::as_i64, (document,), signed),
        call_ensures(Json::as_u64, (document,), unsigned),
    ensures
        match document {
            Json::String(s) => text matches Some(t) && t@ == s@,
            _ => text is None,
        },
        match document {
            Json::Bool(b) => flag == Some(*b),
            _ => flag is None,
        },
        match document {
            Json::Number(JsonNumber::Unsigned(n)) => unsigned == Some(*n) && (signed matches Some(
                m,
            ) ==> m == *n) && (signed is None <==> *n > i64::MAX),
            Json::Number(JsonNumber::Signed(n)) => signed == Some(*n) && (unsigned matches Some(
                m,
            ) ==> m == *n) && (unsigned is None <==> *n < 0),
            Json::Number(_) => true,
            _ => signed is None && unsigned is None,
        },
{
}

/// A document is an object, an array or null exactly where it was made one.
pub proof fn law_documents_tell_what_they_are(
    document: &Json,
    object: bool,
    array: bool,
    null: bool,
)
    requires
        call_ensures(Json::is_object, (document,), object),
        call_ensures(Json::is_array, (document,), array),
        call_ensures(Json::is_null, (document,), null),
    ensures
        object == (*document is Object),
        array == (*document is Array),
        null == (*document is Null),
{
}

/// A document holds what it was made of.
pub proof fn law_documents_hold_what_they_are_made_of(
    s: &str,
    text: Json,
    n: i64,
    integer: Json,
    m: u64,
    unsigned: Json,
    items: Vec<Json>,
    array: Json,
    object: Json,
)
    requires
        call_ensures(Json::text, (s,), text),
        call_ensures(Json::integer, (n,), integer),
        call_ensures(Json::unsigned, (m,), unsigned),
        call_ensures(Json::array, (items,), array),
        call_ensures(Json::object, (), object),
    ensures
        text@ == JsonView::String(s@),
        integer@ == JsonView::Number(NumberView::Int(n as int)),
        unsigned@ == JsonView::Number(NumberView::Int(m as int)),
        array@ matches JsonView::Array(views) && views.len() == items@.len() && forall|i: int|
            0 <= i < views.len() ==> #[trigger] views[i] == items@[i]@,
        object@ matches JsonView::Object(entries) && entries.len() == 0,
{
}

/// A member that was put into an object is read back, and no other member is touched; a document
/// that is no object takes no members and has none.
pub proof fn law_members_are_read_back(
    document: Json,
    key: &str,
    value: Json,
    whole: Json,
    other: &str,
    read: Option<&Json>,
    before: Option<&Json>,
)
    requires
        call_ensures(Json::with, (document, key, value), whole),
        call_ensures(Json::get, (&whole, other), read),
        call_ensures(Json::get, (&document, other), before),
    ensures
        document is Object && other@ == key@ ==> (read matches Some(found) && found@ == value@),
        !(document is Object && other@ == key@) ==> ref_view(read) == ref_view(before),
        !(document is Object) ==> read is None && before is None && whole@ == document@,
{
    broadcast use group_members;

}

/// An optional member is put into a document where there is one; otherwise the document stays as it
/// is.
pub proof fn law_optional_members(
    document: Json,
    key: &str,
    value: Option<Json>,
    whole: Json,
    put: Json,
)
    requires
        call_ensures(Json::with_opt, (document, key, value), whole),
        value matches Some(v) ==> call_ensures(Json::with, (document, key, v), put),
    ensures
        value is Some ==> whole@ == put@,
        value is None ==> whole@ == document@,
{
}

/// A copy of a document, or of an object, is the same document.
pub proof fn law_copies_are_the_same(
    document: &Json,
    copy: Json,
    object: &JsonObject,
    object_copy: JsonObject,
)
    requires
        call_ensures(<Json as Clone>::clone, (document,), copy),
        call_ensures(<JsonObject as Clone>::clone, (object,), object_copy),
    ensures
        copy@ == document@,
        object_copy@ == object@,
{
}

/// What an object has at a place it has under the key there, and under no other key.
pub proof fn law_objects_have_their_entries(
    object: &JsonObject,
    n: usize,
    none: bool,
    i: usize,
    key: &String,
    value: &Json,
    name: &str,
    found: Option<&Json>,
)
    requires
        call_ensures(JsonObject::len, (object,), n),
        call_ensures(JsonObject::is_empty, (object,), none),
        i < n,
        call_ensures(JsonObject::key, (object, i), key),
        call_ensures(JsonObject::value, (object, i), value),
        call_ensures(JsonObject::get, (object, name), found),
    ensures
        n == object@.len(),
        !none,
        name@ == key@ ==> (found matches Some(held) && held@ == value@),
        (forall|j: int| 0 <= j < object@.len() ==> (#[trigger] object@[j]).0 != name@)
            ==> found is None,
        JsonView::Object(object@).get(key@) == Some(value@),
{
    assert(object@[i as int].0 == key@);
    assert(first_at(object@, key@, i as int));
    lemma_first_at(object@, key@, i as int);
    if has_key(object@, name@) {
        let p = position(object@, name@);
        assert(first_at(object@, name@, p));
        assert(object@[p].0 == name@);
    }
}

/// A key that is put into an object holds the new value in the place where it stood, or at the end
/// where it is new; all other entries keep their places.
pub proof fn law_entries_keep_their_places(
    object: &mut JsonObject,
    key: &str,
    value: Json,
    i: int,
    before: Option<&Json>,
    found: Option<&Json>,
)
    requires
        call_ensures(JsonObject::get, (&*old(object), key), before),
        call_ensures(JsonObject::insert, (object, key, value), ()),
        call_ensures(JsonObject::get, (&*final(object), key), found),
        0 <= i < old(object)@.len(),
    ensures
        found matches Some(held) && held@ == value@,
        before is Some ==> final(object)@.len() == old(object)@.len(),
        before is None ==> final(object)@ == old(object)@.push((key@, value@)),
        final(object)@[i].0 == old(object)@[i].0,
        old(object)@[i].0 != key@ ==> final(object)@[i].1 == old(object)@[i].1,
{
    broadcast use group_lookup;

    let entries = old(object)@;
    if has_key(entries, key@) {
        assert(first_at(entries, key@, position(entries, key@)));
    }
}

/// A member of a document that is there is the document's, and one that is not there has none; its
/// text is what it holds as a string.
pub proof fn law_members_are_found(
    document: &Json,
    key: &str,
    own: Option<&Json>,
    found: Option<&Json>,
    none: Option<&Json>,
    text: Option<&str>,
    no_text: Option<&str>,
)
    requires
        call_ensures(Json::get, (document, key), own),
        call_ensures(member, (Some(document), key), found),
        call_ensures(member, (None::<&Json>, key), none),
        call_ensures(text_of, (Some(document),), text),
        call_ensures(text_of, (None::<&Json>,), no_text),
    ensures
        match (own, found) {
            (Some(a), Some(b)) => a@ == b@,
            (None, None) => true,
            _ => false,
        },
        none is None,
        no_text is None,
        match document {
            Json::String(s) => text matches Some(t) && t@ == s@,
            _ => text is None,
        },
        get_in(Some(document@), key@) == document@.get(key@),
        get_in(None, key@) is None,
        match own {
            Some(value) => document@.get(key@) == Some(value@),
            None => document@.get(key@) is None,
        },
{
    if let Some(a) = own {
        assert(ref_view(own) == Some(a@));
    }
}

/// An optional document holds what the document holds, and a list what its documents hold, one by
/// one.
pub proof fn law_views_are_those_of_the_parts(document: Json, items: Seq<Json>, i: int)
    ensures
        opt_view(Some(document)) == Some(document@),
        opt_view(None) is None,
        ref_view(Some(&document)) == Some(document@),
        ref_view(None) is None,
        views(items).len() == items.len(),
        0 <= i < items.len() ==> views(items)[i] == items[i]@,
{
}

/// A number is read as an integer exactly where it is one and fits.
pub proof fn law_integers_are_read(
    document: &Json,
    signed: Option<i64>,
    unsigned: Option<u64>,
)
    requires
        call_ensures(Json::as_i64, (document,), signed),
        call_ensures(Json::as_u64, (document,), unsigned),
    ensures
        document@ matches JsonView::Number(NumberView::Int(n)) ==> {
            &&& signed is Some <==> i64::MIN <= n <= i64::MAX
            &&& signed matches Some(m) ==> m == n
            &&& unsigned is Some <==> 0 <= n <= u64::MAX
            &&& unsigned matches Some(m) ==> m == n
        },
        !(document@ matches JsonView::Number(NumberView::Int(_))) ==> signed is None && unsigned
            is None,
{
}

} // verus!
